use monitor_switcher::storage::{profile_file_name, sanitize_filename};

#[test]
fn sanitize_drops_path_hostile_characters() {
    assert_eq!(sanitize_filename("of/fice: mon*itor?"), "office monitor");
    assert_eq!(sanitize_filename("a\\b<c>d|e\"f"), "abcdef");
}

#[test]
fn sanitize_trims_surrounding_whitespace() {
    assert_eq!(sanitize_filename("  desk setup  "), "desk setup");
}

#[test]
fn sanitize_guards_reserved_device_names() {
    assert_eq!(sanitize_filename("CON"), "_CON");
    assert_eq!(sanitize_filename("com3"), "_com3");
    assert_eq!(sanitize_filename("Lpt9"), "_Lpt9");
    // Only the whole name counts as reserved.
    assert_eq!(sanitize_filename("CONSOLE"), "CONSOLE");
}

#[test]
fn sanitize_defaults_an_empty_name() {
    assert_eq!(sanitize_filename(""), "profile");
    assert_eq!(sanitize_filename("///"), "profile");
    assert_eq!(sanitize_filename("   "), "profile");
}

#[test]
fn profile_file_name_appends_the_extension() {
    assert_eq!(profile_file_name("desk"), "desk.json");
    assert_eq!(profile_file_name("nul"), "_nul.json");
    assert_eq!(profile_file_name(""), "profile.json");
}
