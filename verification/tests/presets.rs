use synth_host::preset_map::{resolve_preset, Preset, PresetMap};

#[test]
fn preset() {
    let mut preset = Preset::new("Test");
    assert_eq!(preset.name, "Test");

    preset.add_note_range(0, 10);
    preset.add_note_range(20, 30);
    assert_eq!(preset.notes[0..=10], vec![true; 11]);
    assert_eq!(preset.notes[11..20], vec![false; 9]);
    assert_eq!(preset.notes[20..=30], vec![true; 11]);
    assert_eq!(preset.notes[31..], vec![false; 97]);
}

#[test]
fn add_and_find_presets() {
    let mut map = PresetMap::new();
    map.add_preset(1, 31, Preset::new("late"));
    map.add_preset(0, 97, Preset::new("grand"));
    map.add_preset(1, 11, Preset::new("early"));

    assert!(map.has_preset(0, 97));
    assert!(map.has_preset(1, 11));
    assert!(map.has_preset(1, 31));
    assert!(!map.has_preset(0, 11));
    assert!(!map.has_preset(2, 0));
}

#[test]
fn first_available_prefers_lowest_bank_then_program() {
    let mut map = PresetMap::new();
    assert_eq!(map.first_available_preset(), None);
    map.add_preset(10, 20, Preset::new("a"));
    map.add_preset(10, 30, Preset::new("b"));
    map.add_preset(11, 0, Preset::new("c"));
    assert_eq!(map.first_available_preset(), Some((10, 20)));
    map.add_preset(9, 127, Preset::new("d"));
    assert_eq!(map.first_available_preset(), Some((9, 127)));
}

#[test]
fn replacing_a_preset_keeps_the_directory() {
    let mut map = PresetMap::new();
    map.add_preset(0, 1, Preset::new("one"));
    map.add_preset(0, 1, Preset::new("two"));
    assert!(map.has_preset(0, 1));
    assert_eq!(map.entries.len(), 1);
    assert_eq!(map.entries[0].preset.name, "two");
}

#[test]
fn resolution_after_a_load() {
    let mut map = PresetMap::new();
    map.add_preset(0, 5, Preset::new("kept"));
    map.add_preset(3, 1, Preset::new("other"));

    // A remembered selection that still exists is kept.
    assert_eq!(resolve_preset(&map, Some(3), Some(1)), Some((3, 1)));
    // A selection the new resource no longer offers falls back to the
    // first available preset.
    assert_eq!(resolve_preset(&map, Some(9), Some(9)), Some((0, 5)));
    assert_eq!(resolve_preset(&map, None, None), Some((0, 5)));
    // An empty directory resolves to nothing.
    let empty = PresetMap::new();
    assert_eq!(resolve_preset(&empty, Some(0), Some(0)), None);
}
