//! The BPF target architecture: two endiannesses, each with a canonical
//! target-triple string that parsing and formatting round-trip exactly.

use vstd::prelude::*;

verus! {

/// Endianness of the BPF target, identified by its target triple.
#[derive(Debug, Copy, Clone, PartialEq, Eq, Structural)]
pub enum Architecture {
    BpfEl,
    BpfEb,
}

/// The canonical target-triple string of an architecture.
pub open spec fn spec_canonical(a: Architecture) -> Seq<char> {
    match a {
        Architecture::BpfEl => "bpfel-unknown-none"@,
        Architecture::BpfEb => "bpfeb-unknown-none"@,
    }
}

/// What a target string parses to: the architecture whose canonical string
/// it is, if any.
pub open spec fn spec_parse(s: Seq<char>) -> Option<Architecture> {
    if s == spec_canonical(Architecture::BpfEl) {
        Some(Architecture::BpfEl)
    } else if s == spec_canonical(Architecture::BpfEb) {
        Some(Architecture::BpfEb)
    } else {
        None
    }
}

impl Architecture {
    /// The canonical target-triple string of this architecture.
    pub fn as_str(&self) -> (r: &'static str)
        ensures
            r@ == spec_canonical(*self),
    {
        match self {
            Architecture::BpfEl => "bpfel-unknown-none",
            Architecture::BpfEb => "bpfeb-unknown-none",
        }
    }

    /// Parses a target string.  Exactly the two canonical target triples are
    /// accepted; anything else is rejected with a descriptive error and no
    /// default is substituted.
    pub fn from_str(s: &str) -> (r: Result<Architecture, String>)
        ensures
            r matches Ok(a) ==> spec_parse(s@) == Some(a),
            r is Err <==> spec_parse(s@) is None,
            r matches Err(e) ==> e@ == "invalid target"@,
    {
        let owned = s.to_owned();
        if owned == String::from_str("bpfel-unknown-none") {
            Ok(Architecture::BpfEl)
        } else if owned == String::from_str("bpfeb-unknown-none") {
            Ok(Architecture::BpfEb)
        } else {
            Err(String::from_str("invalid target"))
        }
    }
}

/// Round-trip law: a supported target string parses to the architecture
/// whose canonical form is that very string, so parsing then formatting
/// returns the original string exactly.
pub proof fn lemma_target_string_round_trip(s: Seq<char>)
    requires
        spec_parse(s) is Some,
    ensures
        spec_canonical(spec_parse(s)->Some_0) == s,
{
}

/// Round-trip law, the other way: the canonical string of every
/// architecture parses back to that architecture.
pub proof fn lemma_canonical_parses_back(a: Architecture)
    ensures
        spec_parse(spec_canonical(a)) == Some(a),
{
    reveal_strlit("bpfel-unknown-none");
    reveal_strlit("bpfeb-unknown-none");
    assert(spec_canonical(Architecture::BpfEl)[4] == 'l');
    assert(spec_canonical(Architecture::BpfEb)[4] == 'b');
}

} // verus!
