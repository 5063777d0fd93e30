use ebpf_build::metadata::{workspace_root_from_metadata, MetadataError, WorkspaceRoot};

#[test]
fn workspace_root_is_read_from_the_metadata_output() {
    let text = "{\"packages\":[],\"workspace_root\":\"/home/user/project\",\"version\":1}";
    let root = workspace_root_from_metadata(text).unwrap();
    assert_eq!(root, "/home/user/project");
}

#[test]
fn invalid_metadata_text_is_an_error() {
    let r = workspace_root_from_metadata("not json at all");
    assert_eq!(r.unwrap_err(), MetadataError::MalformedMetadata);
}

#[test]
fn metadata_without_the_root_field_is_an_error() {
    let r = workspace_root_from_metadata("{\"packages\":[]}");
    assert_eq!(r.unwrap_err(), MetadataError::MalformedMetadata);
}

#[test]
fn a_non_string_root_field_is_an_error() {
    let r = workspace_root_from_metadata("{\"workspace_root\":42}");
    assert_eq!(r.unwrap_err(), MetadataError::MalformedMetadata);
}

#[test]
fn two_resolutions_query_the_metadata_once() {
    let mut cache = WorkspaceRoot::new();
    let mut queries: u32 = 0;

    // first resolution: the cache is empty, so the query runs
    let first = if cache.needs_query() {
        queries += 1;
        let text = "{\"workspace_root\":\"/w\"}";
        let root = workspace_root_from_metadata(text).unwrap();
        cache.fill(root.clone());
        root
    } else {
        cache.get().unwrap().clone()
    };

    // second resolution: answered from the cache, no query
    let second = if cache.needs_query() {
        queries += 1;
        unreachable!("the cache is already filled");
    } else {
        cache.get().unwrap().clone()
    };

    assert_eq!(queries, 1);
    assert_eq!(first, "/w");
    assert_eq!(second, "/w");
}
