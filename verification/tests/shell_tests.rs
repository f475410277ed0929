use fabrik::errors::FabrikError;
use fabrik::shell::get_illustrator_path;
use fabrik::shell::AppShell;
use fabrik::shell::CloseAction;

#[test]
fn close_behavior_defaults_to_minimize() {
    let shell = AppShell::new();
    assert!(shell.get_minimize_on_close());
    assert_eq!(shell.on_close_requested(), CloseAction::HideWindow);
}

#[test]
fn disabling_minimize_lets_the_close_proceed() {
    let mut shell = AppShell::new();
    shell.set_minimize_on_close(false);
    assert!(!shell.get_minimize_on_close());
    assert_eq!(shell.on_close_requested(), CloseAction::AllowClose);
}

#[test]
fn reenabling_minimize_hides_again() {
    let mut shell = AppShell::new();
    shell.set_minimize_on_close(false);
    shell.set_minimize_on_close(true);
    assert!(shell.get_minimize_on_close());
    assert_eq!(shell.on_close_requested(), CloseAction::HideWindow);
}

#[test]
fn default_editor_path_is_the_known_install_location() {
    assert_eq!(
        get_illustrator_path(),
        "C:\\Program Files\\Adobe\\Adobe Illustrator 2026\\Support Files\\Contents\\Windows\\Illustrator.exe"
    );
}

#[test]
fn error_message_surfaces_the_carried_text() {
    let e = FabrikError::AssetNotFound("scripts directory not found: /x".to_string());
    assert_eq!(e.message(), "scripts directory not found: /x");
}
