use gitbrowser::errors::ShortcutError;
use gitbrowser::shortcuts::ShortcutManager;

#[test]
fn test_defaults_loaded() {
    let mgr = ShortcutManager::new(false);
    assert_eq!(mgr.list_shortcuts().len(), 30);
    assert_eq!(mgr.get_shortcut("new_tab"), Some("Ctrl+T"));
    assert_eq!(mgr.get_shortcut("dev_tools"), Some("F12"));
    assert_eq!(mgr.get_shortcut("missing"), None);
}

#[test]
fn test_mac_uses_cmd() {
    let mgr = ShortcutManager::new(true);
    assert_eq!(mgr.get_shortcut("new_tab"), Some("Cmd+T"));
    assert_eq!(mgr.get_shortcut("prev_tab"), Some("Cmd+Shift+Tab"));
    assert_eq!(mgr.get_shortcut("back"), Some("Alt+Left"));
    assert_eq!(mgr.adapt_for_platform("Ctrl+Ctrl+X"), "Cmd+Cmd+X");
}

#[test]
fn test_register_and_conflicts() {
    let mut mgr = ShortcutManager::new(false);
    assert!(matches!(mgr.register_shortcut("custom", ""), Err(ShortcutError::InvalidKeys(_))));
    match mgr.register_shortcut("custom", "Ctrl+T") {
        Err(ShortcutError::Conflict(msg)) => assert_eq!(msg, "'Ctrl+T' is already bound to 'new_tab'"),
        other => panic!("expected a conflict, got {:?}", other),
    }
    mgr.register_shortcut("custom", "Ctrl+Alt+Q").unwrap();
    assert_eq!(mgr.get_shortcut("custom"), Some("Ctrl+Alt+Q"));
    // Rebinding an action to its own keys is no conflict.
    mgr.register_shortcut("new_tab", "Ctrl+T").unwrap();
    assert_eq!(mgr.has_conflict("Ctrl+T", Some("new_tab")), None);
    assert_eq!(mgr.has_conflict("Ctrl+T", None), Some("new_tab".to_string()));
    assert_eq!(mgr.list_shortcuts().len(), 31);
}

#[test]
fn test_unregister_and_reset() {
    let mut mgr = ShortcutManager::new(false);
    mgr.unregister_shortcut("print").unwrap();
    assert_eq!(mgr.get_shortcut("print"), None);
    assert!(matches!(mgr.unregister_shortcut("print"), Err(ShortcutError::NotFound(_))));
    mgr.reset_to_defaults().unwrap();
    assert_eq!(mgr.get_shortcut("print"), Some("Ctrl+P"));
    assert_eq!(mgr.list_shortcuts().len(), 30);
}
