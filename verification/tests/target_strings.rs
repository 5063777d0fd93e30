use ebpf_build::arch::Architecture;

#[test]
fn parse_little_endian_target() {
    let a = Architecture::from_str("bpfel-unknown-none").unwrap();
    assert!(matches!(a, Architecture::BpfEl));
}

#[test]
fn parse_big_endian_target() {
    let a = Architecture::from_str("bpfeb-unknown-none").unwrap();
    assert!(matches!(a, Architecture::BpfEb));
}

#[test]
fn parse_then_format_round_trips_every_canonical_target() {
    for s in ["bpfel-unknown-none", "bpfeb-unknown-none"] {
        let a = Architecture::from_str(s).unwrap();
        assert_eq!(a.as_str(), s);
    }
}

#[test]
fn format_then_parse_round_trips_every_architecture() {
    for a in [Architecture::BpfEl, Architecture::BpfEb] {
        let back = Architecture::from_str(a.as_str()).unwrap();
        assert_eq!(back, a);
    }
}

#[test]
fn unsupported_target_is_rejected_with_descriptive_error() {
    let err = Architecture::from_str("x86_64-unknown-linux-gnu").unwrap_err();
    assert_eq!(err, "invalid target");
}

#[test]
fn near_miss_targets_are_rejected_not_defaulted() {
    for s in ["", "bpfel", "bpfel-unknown-none ", "BPFEL-UNKNOWN-NONE", "bpfel-unknown-non"] {
        let r = Architecture::from_str(s);
        assert_eq!(r.unwrap_err(), "invalid target");
    }
}
