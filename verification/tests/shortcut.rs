use handy::shortcut::init_shortcuts;
use handy::shortcut::register_checked;
use handy::shortcut::register_finished;
use handy::shortcut::register_parsed;
use handy::shortcut::register_shortcut;
use handy::shortcut::unregister_shortcut;
use handy::shortcut::validate_keys;
use handy::shortcut::validate_shortcut;
use handy::shortcut::BindingEntry;
use handy::shortcut::CancelShortcut;
use handy::shortcut::Reconcile;
use handy::shortcut::RegisterStep;
use handy::shortcut::ShortcutBinding;

const NO_MAIN_KEY: &str = "Tauri shortcuts must include a main key (letter, number, F-key, etc.) in addition to modifiers";
const NO_FN: &str = "The 'fn' key is not supported by Tauri global shortcuts";

fn binding(id: &str, keys: &str) -> ShortcutBinding {
    ShortcutBinding { id: id.to_string(), current_binding: keys.to_string() }
}

fn entry(key: &str, keys: &str) -> BindingEntry {
    BindingEntry { key: key.to_string(), binding: binding(key, keys) }
}

#[test]
fn shortcuts_need_a_main_key() {
    assert!(validate_shortcut("ctrl+space").is_ok());
    assert!(validate_shortcut("F8").is_ok());
    assert_eq!(validate_shortcut("").unwrap_err(), "Shortcut cannot be empty");
    assert_eq!(validate_shortcut(" \t\u{3000}").unwrap_err(), "Shortcut cannot be empty");
    for modifier in [
        "ctrl", "control", "shift", "alt", "option", "meta", "command", "cmd", "super", "win",
        "windows",
    ] {
        assert_eq!(validate_shortcut(modifier).unwrap_err(), NO_MAIN_KEY);
        assert!(validate_shortcut(&format!("{modifier}+a")).is_ok());
    }
    assert_eq!(validate_shortcut("ctrl+shift").unwrap_err(), NO_MAIN_KEY);
}

#[test]
fn keys_are_trimmed_and_lowered() {
    assert_eq!(validate_shortcut(" CTRL + Shift ").unwrap_err(), NO_MAIN_KEY);
    assert_eq!(validate_shortcut("Ctrl+ FN ").unwrap_err(), NO_FN);
    assert_eq!(validate_shortcut("function+a").unwrap_err(), NO_FN);
    // What a separator leaves empty is no key.
    assert_eq!(validate_shortcut("ctrl+").unwrap_err(), NO_MAIN_KEY);
    assert_eq!(validate_shortcut("+").unwrap_err(), NO_MAIN_KEY);
    assert_eq!(validate_shortcut("ctrl+ +shift").unwrap_err(), NO_MAIN_KEY);
    assert!(validate_shortcut("ctrl++a").is_ok());
}

#[test]
fn validated_keys_are_taken_as_they_are() {
    assert!(validate_keys(false, &vec!["ctrl".to_string(), "a".to_string()]).is_ok());
    assert_eq!(validate_keys(true, &vec!["a".to_string()]).unwrap_err(), "Shortcut cannot be empty");
    assert_eq!(validate_keys(false, &vec!["fn".to_string()]).unwrap_err(), NO_FN);
    assert_eq!(validate_keys(false, &vec![]).unwrap_err(), NO_MAIN_KEY);
    assert_eq!(
        validate_keys(false, &vec!["ctrl".to_string(), String::new()]).unwrap_err(),
        NO_MAIN_KEY
    );
}

#[test]
fn a_registration_goes_step_by_step() {
    let b = binding("transcribe", "ctrl+space");
    assert!(matches!(register_shortcut(&b), RegisterStep::Parse));
    assert!(matches!(register_parsed(&b, Ok(())), RegisterStep::Check));
    assert!(matches!(register_checked(&b, false), RegisterStep::Register));
    assert!(register_finished(&b, Ok(())).is_ok());
}

#[test]
fn a_refused_registration_says_why() {
    let refused = |step: RegisterStep| match step {
        RegisterStep::Refused(m) => m,
        other => panic!("got {other:?}"),
    };
    let b = binding("transcribe", "ctrl+space");
    assert_eq!(refused(register_shortcut(&binding("x", "ctrl"))), NO_MAIN_KEY);
    assert_eq!(
        refused(register_parsed(&b, Err("odd".to_string()))),
        "Failed to parse shortcut 'ctrl+space': odd"
    );
    assert_eq!(
        refused(register_checked(&b, true)),
        "Shortcut 'ctrl+space' is already in use"
    );
    assert_eq!(
        register_finished(&b, Err("os".to_string())).unwrap_err(),
        "Couldn't register shortcut 'ctrl+space': os"
    );
    assert!(unregister_shortcut(&b, Ok(()), Ok(())).is_ok());
    assert_eq!(
        unregister_shortcut(&b, Err("odd".to_string()), Ok(())).unwrap_err(),
        "Failed to parse shortcut 'ctrl+space' for unregistration: odd"
    );
    assert_eq!(
        unregister_shortcut(&b, Ok(()), Err("os".to_string())).unwrap_err(),
        "Failed to unregister shortcut 'ctrl+space': os"
    );
}

#[test]
fn the_cancel_shortcut_follows_the_latest_intent() {
    let mut cancel = CancelShortcut::new(false);
    assert_eq!(cancel.reconcile_cancel_shortcut(true, true, false), Reconcile::Nothing);
    assert!(cancel.register_cancel_shortcut());
    assert_eq!(cancel.reconcile_cancel_shortcut(true, true, false), Reconcile::Register);
    // A duplicate reconcile does nothing.
    assert_eq!(cancel.reconcile_cancel_shortcut(true, true, true), Reconcile::Nothing);
    assert!(cancel.unregister_cancel_shortcut());
    assert_eq!(cancel.reconcile_cancel_shortcut(true, true, true), Reconcile::Unregister);
    assert_eq!(cancel.reconcile_cancel_shortcut(false, true, true), Reconcile::Nothing);
    assert_eq!(cancel.reconcile_cancel_shortcut(true, false, true), Reconcile::Nothing);

    let mut off = CancelShortcut::new(true);
    assert!(!off.register_cancel_shortcut());
    assert!(!off.wanted);
    assert!(!off.unregister_cancel_shortcut());
}

#[test]
fn startup_applies_customizations() {
    let defaults = vec![
        entry("transcribe", "ctrl+space"),
        entry("cancel", "escape"),
        entry("transcribe_with_post_process", "ctrl+shift+space"),
    ];
    let user = vec![entry("transcribe", "F8"), entry("cancel", "F9")];
    let keys = |secondary: bool| -> Vec<String> {
        init_shortcuts(&defaults, &user, secondary)
            .into_iter()
            .map(|b| b.current_binding)
            .collect()
    };
    assert_eq!(keys(false), vec!["F8"]);
    assert_eq!(keys(true), vec!["F8", "ctrl+shift+space"]);
}
