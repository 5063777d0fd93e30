//! Workspace-root discovery: extracting the root path from the build
//! tool's structured metadata output, and caching it for the rest of the
//! process so the metadata query runs at most once.

use vstd::prelude::*;

verus! {

/// The `workspace_root` string field of a JSON document, if the document
/// parses and carries one: the result of parsing the text, indexing the
/// top-level object with the key `workspace_root`, and reading the value
/// as a string.  A pure function of the text alone.
pub uninterp spec fn json_workspace_root(text: Seq<char>) -> Option<Seq<char>>;

/// Relies on serde_json 1: `from_str::<Value>` parses the text, `Value::get`
/// looks up the `workspace_root` key of the top-level object, and
/// `Value::as_str` reads the value if it is a JSON string.  Each step is
/// deterministic in the text, so the composition is the pure function
/// `json_workspace_root`.
#[verifier::external_body]
fn extract_workspace_root(text: &str) -> (r: Option<String>)
    ensures
        r is Some <==> json_workspace_root(text@) is Some,
        r matches Some(root) ==> json_workspace_root(text@) == Some(root@),
{
    match serde_json::from_str::<serde_json::Value>(text) {
        Ok(doc) => match doc.get("workspace_root") {
            Some(field) => field.as_str().map(|root| root.to_string()),
            None => None,
        },
        Err(_) => None,
    }
}

/// Why the workspace root could not be read from the metadata output.
#[derive(Debug, PartialEq, Eq, Structural)]
pub enum MetadataError {
    /// The output is not valid structured text, or the expected
    /// `workspace_root` string field is absent.
    MalformedMetadata,
}

/// Extracts the workspace root from the build tool's metadata output:
/// the `workspace_root` string field of the JSON document, or an error
/// when the document does not parse or lacks that field.
pub fn workspace_root_from_metadata(text: &str) -> (r: Result<String, MetadataError>)
    ensures
        r matches Ok(root) ==> json_workspace_root(text@) == Some(root@),
        r is Err <==> json_workspace_root(text@) is None,
        r matches Err(e) ==> e == MetadataError::MalformedMetadata,
{
    match extract_workspace_root(text) {
        Some(root) => Ok(root),
        None => Err(MetadataError::MalformedMetadata),
    }
}

/// The process-wide workspace-root cache: empty until the first
/// resolution, then holding the root for the rest of the process.  Only
/// `fill` writes it, and `fill` demands an empty cache, so the value is
/// never replaced once computed.
#[derive(Debug)]
pub struct WorkspaceRoot {
    cached: Option<String>,
}

impl View for WorkspaceRoot {
    type V = Option<Seq<char>>;

    closed spec fn view(&self) -> Option<Seq<char>> {
        match self.cached {
            Some(root) => Some(root@),
            None => None,
        }
    }
}

impl WorkspaceRoot {
    /// An empty cache: the first access will need the metadata query.
    pub fn new() -> (r: WorkspaceRoot)
        ensures
            r@ is None,
    {
        WorkspaceRoot { cached: None }
    }

    /// Whether resolving the root still requires the metadata query: true
    /// exactly until the cache is filled.
    pub fn needs_query(&self) -> (r: bool)
        ensures
            r <==> self@ is None,
    {
        match self.cached {
            Some(_) => false,
            None => true,
        }
    }

    /// Stores the root computed by the first metadata query.  A filled
    /// cache cannot be filled again: the stored value survives for the
    /// rest of the process.
    pub fn fill(&mut self, root: String)
        requires
            old(self)@ is None,
        ensures
            final(self)@ == Some(root@),
    {
        self.cached = Some(root);
    }

    /// The cached root, if one was stored.
    pub fn get(&self) -> (r: Option<&String>)
        ensures
            r matches Some(root) ==> self@ == Some(root@),
            r is None <==> self@ is None,
    {
        match &self.cached {
            Some(root) => Some(root),
            None => None,
        }
    }
}

/// One resolution round over the cache, as `needs_query` and `fill`
/// prescribe it: a filled cache answers without the query; an empty cache
/// runs the query, whose answer becomes the cached root.  The second
/// component records whether the query ran.
pub open spec fn spec_resolution_round(
    cache: Option<Seq<char>>,
    queried_root: Seq<char>,
) -> (Option<Seq<char>>, bool) {
    match cache {
        Some(root) => (Some(root), false),
        None => (Some(queried_root), true),
    }
}

/// Caching law: two resolutions within one process run the metadata query
/// exactly once.  Starting from the empty cache, the first round queries
/// and caches its answer; the second round — whatever a fresh query would
/// have returned — does not query and yields the same root.
pub proof fn lemma_query_runs_once(first_answer: Seq<char>, second_answer: Seq<char>)
    ensures
        ({
            let (cache1, queried1) = spec_resolution_round(None, first_answer);
            let (cache2, queried2) = spec_resolution_round(cache1, second_answer);
            &&& queried1
            &&& !queried2
            &&& cache1 == Some(first_answer)
            &&& cache2 == cache1
        }),
{
}

} // verus!
