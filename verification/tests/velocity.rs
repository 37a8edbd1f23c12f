use synth_host::velocity_map::Kind;

#[test]
fn map_linear() {
    assert_eq!(synth_host::velocity_map::map_linear(0, 0, 1), 0);
    assert_eq!(synth_host::velocity_map::map_linear(60, 0, 1), 0);
    assert_eq!(synth_host::velocity_map::map_linear(70, 0, 1), 1);
    assert_eq!(synth_host::velocity_map::map_linear(127, 0, 1), 1);
    assert_eq!(synth_host::velocity_map::map_linear(90, 0, 3), 2);
    assert_eq!(synth_host::velocity_map::map_linear(90, 1, 3), 2);
}

#[test]
fn map_identity_passes_through() {
    assert_eq!(synth_host::velocity_map::map(Kind::Identity, 0), 0);
    assert_eq!(synth_host::velocity_map::map(Kind::Identity, 77), 77);
    assert_eq!(synth_host::velocity_map::map(Kind::Identity, 127), 127);
}

#[test]
fn map_linear_stays_in_range() {
    for v in 0u8..=127 {
        let r = synth_host::velocity_map::map(Kind::Linear { min: 40, max: 90 }, v);
        assert!(r >= 40 && r <= 90);
    }
    assert_eq!(synth_host::velocity_map::map(Kind::Linear { min: 64, max: 64 }, 100), 64);
}
