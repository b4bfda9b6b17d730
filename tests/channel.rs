use one_instance::channel::{channel_name, CHANNEL_PREFIX};

#[test]
fn channel_name_replaces_dots() {
    assert_eq!(channel_name("app.exe"), r"\\.\pipe\one_instance_app_exe");
    assert_eq!(channel_name("a.b.c"), r"\\.\pipe\one_instance_a_b_c");
}

#[test]
fn channel_name_of_empty_file_name_is_prefix() {
    assert_eq!(channel_name(""), CHANNEL_PREFIX);
    assert_eq!(CHANNEL_PREFIX, r"\\.\pipe\one_instance_");
}

#[test]
fn channel_name_is_deterministic() {
    assert_eq!(channel_name("tool.exe"), channel_name("tool.exe"));
}

#[test]
fn dotted_and_underscored_names_collide() {
    assert_eq!(channel_name("app.exe"), channel_name("app_exe"));
    assert_eq!(channel_name("a.b"), channel_name("a_b"));
}

#[test]
fn distinct_names_without_underscore_differ() {
    assert_ne!(channel_name("app.exe"), channel_name("app.bin"));
    assert_ne!(channel_name("app.exe"), channel_name("appexe"));
    assert_ne!(channel_name("app.exe"), channel_name("app-exe"));
}

#[test]
fn channel_name_keeps_other_characters() {
    assert_eq!(channel_name("prog-ä ñ.exe"), r"\\.\pipe\one_instance_prog-ä ñ_exe");
}
