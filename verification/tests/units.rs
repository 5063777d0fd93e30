use ebpf_build::units::{compilation_units, is_c_source, object_name};

fn names(v: &[&str]) -> Vec<String> {
    v.iter().map(|s| s.to_string()).collect()
}

#[test]
fn c_extension_is_matched_exactly() {
    assert!(is_c_source("probe.c"));
    assert!(is_c_source("a.b.c"));
    assert!(is_c_source("x.c"));
    assert!(!is_c_source("probe.h"));
    assert!(!is_c_source("probe.cpp"));
    assert!(!is_c_source("probe"));
    assert!(!is_c_source("c"));
    // a bare `.c` name has no extension, only a stem
    assert!(!is_c_source(".c"));
}

#[test]
fn object_name_replaces_the_extension() {
    assert_eq!(object_name("probe.c"), "probe.o");
    assert_eq!(object_name("a.b.c"), "a.b.o");
}

#[test]
fn exactly_the_c_files_become_units_in_listing_order() {
    let listing = names(&["probe.c", "probe.h", "Makefile", "trace.c", "notes.txt"]);
    let units = compilation_units(&listing, "/w/src", "/w/out");
    assert_eq!(units.len(), 2);
    assert_eq!(units[0].source, "/w/src/probe.c");
    assert_eq!(units[0].object, "/w/out/probe.o");
    assert_eq!(units[1].source, "/w/src/trace.c");
    assert_eq!(units[1].object, "/w/out/trace.o");
}

#[test]
fn a_listing_without_c_files_yields_no_units() {
    let listing = names(&["readme.md", "probe.h", ".c"]);
    let units = compilation_units(&listing, "/s", "/o");
    assert_eq!(units.len(), 0);
}

#[test]
fn an_empty_listing_yields_no_units() {
    let units = compilation_units(&Vec::new(), "/s", "/o");
    assert_eq!(units.len(), 0);
}
