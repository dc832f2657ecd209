use evdev::KeyCode;
use soomfon::action::{Action, ActionError, ActionStep};
use soomfon::keyboard::KeyboardError;

#[test]
fn none_is_the_default_and_a_noop() {
    assert_eq!(Action::default(), Action::Noop);
    assert!(matches!(Action::Noop.plan(false), Ok(ActionStep::Nothing)));
    assert!(matches!(Action::Noop.plan(true), Ok(ActionStep::Nothing)));
}

#[test]
fn hotkey_without_a_keyboard_reports_it() {
    let action = Action::Hotkey {
        keys: vec!["ctrl".into(), "c".into()],
    };
    assert!(matches!(action.plan(false), Err(ActionError::NoKeyboard)));
}

#[test]
fn hotkey_with_a_keyboard_taps_the_resolved_combo() {
    let action = Action::Hotkey {
        keys: vec!["ctrl".into(), "shift".into(), "m".into()],
    };
    match action.plan(true) {
        Ok(ActionStep::Tap(combo)) => assert_eq!(
            combo,
            vec![KeyCode::KEY_LEFTCTRL, KeyCode::KEY_LEFTSHIFT, KeyCode::KEY_M]
        ),
        other => panic!("expected a tap, got {other:?}"),
    }
}

#[test]
fn hotkey_with_an_unknown_key_reports_it() {
    let action = Action::Hotkey {
        keys: vec!["ctrl".into(), "hyper".into()],
    };
    assert!(matches!(
        action.plan(true),
        Err(ActionError::Keyboard(KeyboardError::UnknownKey(name))) if name == "hyper"
    ));
    // Without a keyboard the missing keyboard is reported first.
    assert!(matches!(action.plan(false), Err(ActionError::NoKeyboard)));
}

#[test]
fn run_command_launches_its_program_with_its_args() {
    let action = Action::RunCommand {
        program: "obs".into(),
        args: vec!["--minimize-to-tray".into()],
    };
    match action.plan(false) {
        Ok(ActionStep::Launch { program, args }) => {
            assert_eq!(program, "obs");
            assert_eq!(args, &vec!["--minimize-to-tray".to_string()]);
        }
        other => panic!("expected a launch, got {other:?}"),
    }
}
