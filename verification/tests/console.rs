use hom3init::console::{airgap_tally, all_radios_down, flag_set, update_key_pinned, RadioFlags};

#[test]
fn flags_read_as_one() {
    assert!(flag_set(Some("1")));
    assert!(flag_set(Some("1\n")));
    assert!(flag_set(Some(" 1 ")));
    assert!(!flag_set(Some("0")));
    assert!(!flag_set(Some("11")));
    assert!(!flag_set(Some("")));
    assert!(!flag_set(None));
}

#[test]
fn tally_counts_soft_or_hard() {
    let radios = vec![
        RadioFlags { soft: true, hard: false },
        RadioFlags { soft: false, hard: true },
        RadioFlags { soft: false, hard: false },
        RadioFlags { soft: true, hard: true },
    ];
    assert_eq!(airgap_tally(&radios), (3, 4));
    assert_eq!(airgap_tally(&Vec::new()), (0, 0));
}

#[test]
fn all_down_needs_a_radio() {
    assert!(all_radios_down(2, 2));
    assert!(!all_radios_down(1, 2));
    assert!(!all_radios_down(0, 0));
}

#[test]
fn update_key_needs_32_bytes() {
    assert!(update_key_pinned(Some(32)));
    assert!(!update_key_pinned(Some(31)));
    assert!(!update_key_pinned(None));
}
