use doom_emacs_pkm::Doom;

#[test]
fn test_plugin_creation() {
    let plugin = Doom::new();
    assert_eq!(plugin.name(), "doom-emacs-pkm");
    assert_eq!(plugin.version(), "0.1.0");
}

#[test]
fn initialize_announces_name_and_version() {
    let plugin = Doom::new();
    let line = plugin.initialize().expect("initialization succeeds");
    assert_eq!(line, "Initializing doom-emacs-pkm plugin v0.1.0");
    assert!(line.contains("doom-emacs-pkm"));
    assert!(line.contains("0.1.0"));
}

#[test]
fn initialize_twice_succeeds_both_times() {
    let plugin = Doom::new();
    let first = plugin.initialize();
    let second = plugin.initialize();
    assert!(first.is_ok());
    assert!(second.is_ok());
    assert_eq!(first.unwrap(), second.unwrap());
    assert_eq!(plugin.name(), "doom-emacs-pkm");
    assert_eq!(plugin.version(), "0.1.0");
}

#[test]
fn fresh_plugin_fields_are_non_empty() {
    let plugin = Doom::new();
    assert!(!plugin.name().is_empty());
    assert!(!plugin.version().is_empty());
}
