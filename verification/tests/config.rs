use soomfon::action::Action;
use soomfon::config::{Button, Config, Page, Profile, CURRENT_VERSION, DEFAULT_BG, DEFAULT_FG};

#[test]
fn default_config_has_one_profile_with_one_page() {
    let cfg = Config::default();
    assert_eq!(cfg.version, CURRENT_VERSION);
    assert_eq!(cfg.profiles.len(), 1);
    assert_eq!(cfg.active_profile().name, "Default");
    assert_eq!(cfg.active_profile().pages.len(), 1);
}

#[test]
fn active_profile_is_clamped_when_index_is_out_of_range() {
    let cfg = Config {
        active_profile: 99,
        ..Config::default()
    };
    // Does not panic; falls back to the last valid profile.
    assert_eq!(cfg.active_profile().name, "Default");
}

#[test]
fn page_button_crud_round_trips() {
    let mut page = Page::new("p");
    assert!(page.button(2).is_none());

    page.set_button(2, Button::labelled("OBS"));
    assert_eq!(page.button(2).unwrap().label.as_deref(), Some("OBS"));

    let removed = page.clear_button(2);
    assert_eq!(removed.unwrap().label.as_deref(), Some("OBS"));
    assert!(page.button(2).is_none());
}

#[test]
fn active_page_is_the_active_profiles_first_page() {
    let mut cfg = Config::default();
    cfg.add_profile("Streaming");
    cfg.profiles[1].pages[0].set_button(0, Button::labelled("Live"));
    cfg.active_profile = 1;

    let page = cfg.active_page().expect("a page exists");
    assert_eq!(page.button(0).unwrap().label.as_deref(), Some("Live"));
}

#[test]
fn active_profile_selects_an_in_range_index() {
    let mut cfg = Config::default();
    assert_eq!(cfg.add_profile("Streaming"), 1);
    assert_eq!(cfg.add_profile("Music"), 2);
    cfg.active_profile = 1;
    assert_eq!(cfg.active_profile().name, "Streaming");
    cfg.active_profile = 7;
    assert_eq!(cfg.active_profile().name, "Music");
}

#[test]
fn active_page_is_none_for_a_profile_without_pages() {
    let cfg = Config {
        version: CURRENT_VERSION,
        active_profile: 0,
        profiles: vec![Profile {
            name: "Hand edited".into(),
            pages: vec![],
        }],
    };
    assert!(cfg.active_page().is_none());
}

#[test]
fn profile_new_has_one_blank_page() {
    let profile = Profile::new("Work");
    assert_eq!(profile.name, "Work");
    assert_eq!(profile.pages.len(), 1);
    assert_eq!(profile.pages[0].name, "Page 1");
    assert!(profile.pages[0].buttons.is_empty());
}

#[test]
fn add_page_appends_and_returns_its_index() {
    let mut profile = Profile::new("Work");
    assert_eq!(profile.add_page("Scenes"), 1);
    assert_eq!(profile.add_page("Audio"), 2);
    assert_eq!(profile.pages[0].name, "Page 1");
    assert_eq!(profile.pages[1].name, "Scenes");
    assert_eq!(profile.pages[2].name, "Audio");
    assert!(profile.pages[2].buttons.is_empty());
}

#[test]
fn set_button_replaces_and_leaves_other_keys_alone() {
    let mut page = Page::new("p");
    page.set_button(1, Button::labelled("A"));
    page.set_button(4, Button::labelled("B"));
    page.set_button(1, Button::labelled("C"));
    assert_eq!(page.button(1).unwrap().label.as_deref(), Some("C"));
    assert_eq!(page.button(4).unwrap().label.as_deref(), Some("B"));
    assert!(page.clear_button(3).is_none());
    assert_eq!(page.buttons.len(), 2);
}

#[test]
fn labelled_button_uses_default_colours_and_no_action() {
    let button = Button::labelled("Mute");
    assert_eq!(button.label.as_deref(), Some("Mute"));
    assert_eq!(button.color, [0x14, 0x14, 0x14]);
    assert_eq!(button.text_color, [0xFF, 0xFF, 0xFF]);
    assert_eq!(button.action, Action::Noop);
    let blank = Button::default();
    assert_eq!(blank.label, None);
    assert_eq!(blank.color, DEFAULT_BG);
    assert_eq!(blank.text_color, DEFAULT_FG);
}
