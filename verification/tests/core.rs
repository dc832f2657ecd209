use soomfon::config::{Button, Config};
use soomfon::device::list_devices;
use soomfon::input::InputEvent;
use soomfon::session::{button_paint, key_downs, page_paints, pressed_action, KeyPaint};
use soomfon::{status, summarize_devices, Action, DeviceInfo};

#[test]
fn status_reports_version_and_no_devices_yet() {
    let s = status();
    assert!(!s.version.is_empty());
    assert!(s.devices.is_empty());
}

#[test]
fn list_devices_is_empty_until_transport_is_wired() {
    assert!(list_devices().unwrap().is_empty());
}

#[test]
fn summaries_keep_model_and_key_count() {
    let infos = vec![DeviceInfo {
        model: "Soomfon Stream Controller SE".into(),
        vid: 0x1500,
        pid: 0x3001,
        keys: 9,
        encoders: 3,
        has_key_screens: true,
    }];
    let summaries = summarize_devices(&infos);
    assert_eq!(summaries.len(), 1);
    assert_eq!(summaries[0].model, "Soomfon Stream Controller SE");
    assert_eq!(summaries[0].keys, 9);
}

#[test]
fn a_labelled_button_paints_text_and_an_unlabelled_one_a_fill() {
    let mut button = Button::labelled("Live");
    match button_paint(&button) {
        KeyPaint::Text { label, fg, bg } => {
            assert_eq!(label, "Live");
            assert_eq!(fg, [0xFF, 0xFF, 0xFF]);
            assert_eq!(bg, [0x14, 0x14, 0x14]);
        }
        other => panic!("expected text, got {other:?}"),
    }
    button.label = Some(String::new());
    assert_eq!(button_paint(&button), KeyPaint::Fill([0x14, 0x14, 0x14]));
    button.label = None;
    button.color = [1, 2, 3];
    assert_eq!(button_paint(&button), KeyPaint::Fill([1, 2, 3]));
}

#[test]
fn page_paints_cover_every_lcd_key() {
    let mut cfg = Config::default();
    cfg.profiles[0].pages[0].set_button(1, Button::labelled("A"));
    cfg.profiles[0].pages[0].set_button(7, Button::labelled("Plain"));
    let paints = page_paints(cfg.active_page(), 6);
    assert_eq!(paints.len(), 6);
    assert_eq!(paints[0], KeyPaint::Blank);
    assert!(matches!(paints[1], KeyPaint::Text { .. }));
    assert!(paints[2..].iter().all(|p| *p == KeyPaint::Blank));
    assert!(page_paints(None, 6).iter().all(|p| *p == KeyPaint::Blank));
}

#[test]
fn only_key_downs_are_dispatched_in_order() {
    let events = [
        InputEvent::KeyDown(3),
        InputEvent::KeyUp(3),
        InputEvent::EncoderTwist(0, -1),
        InputEvent::EncoderDown(1),
        InputEvent::KeyDown(0),
        InputEvent::EncoderUp(1),
        InputEvent::KeyDown(3),
    ];
    assert_eq!(key_downs(&events), vec![3, 0, 3]);
    assert!(key_downs(&[]).is_empty());
}

#[test]
fn a_key_press_runs_the_active_pages_button_action() {
    let mut cfg = Config::default();
    let mut button = Button::labelled("Mute");
    button.action = Action::Hotkey {
        keys: vec!["ctrl".into(), "m".into()],
    };
    cfg.add_profile("Streaming");
    cfg.profiles[1].pages[0].set_button(4, button.clone());
    assert!(pressed_action(&cfg, 4).is_none());
    cfg.active_profile = 1;
    assert_eq!(pressed_action(&cfg, 4), Some(&button.action));
    assert!(pressed_action(&cfg, 5).is_none());
}
