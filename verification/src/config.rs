//! User configuration: profiles, pages and buttons.
//!
//! A [`Config`] is the whole persisted document. It holds one or more
//! [`Profile`]s; each profile is an ordered list of [`Page`]s; each page maps a
//! key index to a [`Button`]. Only configured keys are stored — an absent entry
//! means that key is blank.
//!
//! The model is decoupled from the hardware: a button describes what to show
//! (a label and colours) and what to do when pressed (an [`Action`]).

use crate::action::Action;
use std::collections::BTreeMap;
use vstd::prelude::*;

verus! {

/// Schema version of the persisted config document. Bumped when the on-disk
/// shape changes so older files can be recognised.
pub const CURRENT_VERSION: u32 = 1;

/// Default key background: a dark grey that text reads well on.
pub const DEFAULT_BG: [u8; 3] = [0x14, 0x14, 0x14];
/// Default label colour.
pub const DEFAULT_FG: [u8; 3] = [0xFF, 0xFF, 0xFF];

/// One configurable key: what it shows on its LCD and what it does when
/// pressed.
#[derive(Debug, Clone, PartialEq, Eq)]
pub struct Button {
    /// Text drawn on the key. `None` (or empty) leaves the key a solid fill.
    pub label: Option<String>,
    /// Background colour, RGB.
    pub color: [u8; 3],
    /// Label colour, RGB.
    pub text_color: [u8; 3],
    /// What pressing the key does.
    pub action: Action,
}

impl Default for Button {
    /// An unlabelled button in the default colours that does nothing.
    fn default() -> (r: Self)
        ensures
            r.label is None,
            r.color == DEFAULT_BG,
            r.text_color == DEFAULT_FG,
            r.action == Action::Noop,
    {
        Button { label: None, color: DEFAULT_BG, text_color: DEFAULT_FG, action: Action::Noop }
    }
}

impl Button {
    /// A labelled button using the default colours.
    pub fn labelled(label: &str) -> (r: Self)
        ensures
            r.label matches Some(l) && l@ == label@,
            r.color == DEFAULT_BG,
            r.text_color == DEFAULT_FG,
            r.action == Action::Noop,
    {
        Button {
            label: Some(label.to_owned()),
            color: DEFAULT_BG,
            text_color: DEFAULT_FG,
            action: Action::Noop,
        }
    }
}

/// One screenful of keys, addressed by key index (row-major).
#[derive(Debug, Clone, PartialEq, Eq)]
pub struct Page {
    /// Display name, shown in the editor.
    pub name: String,
    /// Configured keys. Missing indices are blank.
    pub buttons: BTreeMap<u8, Button>,
}

/// Whether `page` is a page named `name` with no configured key.
pub open spec fn is_blank_page(page: Page, name: Seq<char>) -> bool {
    page.name@ == name && page.buttons@ == Map::<u8, Button>::empty()
}

/// What reading `key` from a page gives: its button, or nothing when the key
/// is blank.
pub open spec fn button_at(buttons: Map<u8, Button>, key: u8) -> Option<Button> {
    if buttons.contains_key(key) {
        Some(buttons[key])
    } else {
        None
    }
}

impl Page {
    /// An empty page with the given name.
    pub fn new(name: &str) -> (r: Self)
        ensures
            is_blank_page(r, name@),
    {
        Page { name: name.to_owned(), buttons: BTreeMap::new() }
    }

    /// The button at `key`, if one is configured.
    pub fn button(&self, key: u8) -> (r: Option<&Button>)
        ensures
            match r {
                Some(b) => button_at(self.buttons@, key) == Some(*b),
                None => button_at(self.buttons@, key) is None,
            },
    {
        self.buttons.get(&key)
    }

    /// Assign `button` to `key`, replacing any existing one.
    pub fn set_button(&mut self, key: u8, button: Button)
        ensures
            final(self).name == old(self).name,
            final(self).buttons@ == old(self).buttons@.insert(key, button),
    {
        self.buttons.insert(key, button);
    }

    /// Blank `key`. Returns the button that was there, if any.
    pub fn clear_button(&mut self, key: u8) -> (r: Option<Button>)
        ensures
            final(self).name == old(self).name,
            final(self).buttons@ == old(self).buttons@.remove(key),
            r == button_at(old(self).buttons@, key),
    {
        self.buttons.remove(&key)
    }
}

/// A named set of pages the user switches between.
#[derive(Debug, Clone, PartialEq, Eq)]
pub struct Profile {
    /// Display name, shown in the editor.
    pub name: String,
    /// Ordered pages; always at least one.
    pub pages: Vec<Page>,
}

impl Profile {
    /// A profile with the given name and a single empty page, "Page 1".
    pub fn new(name: &str) -> (r: Self)
        ensures
            r.name@ == name@,
            r.pages@.len() == 1,
            is_blank_page(r.pages@[0], "Page 1"@),
    {
        let mut pages: Vec<Page> = Vec::new();
        pages.push(Page::new("Page 1"));
        Profile { name: name.to_owned(), pages }
    }

    /// Append a new empty page and return its index.
    pub fn add_page(&mut self, name: &str) -> (r: usize)
        ensures
            final(self).name == old(self).name,
            final(self).pages@.len() == old(self).pages@.len() + 1,
            r == old(self).pages@.len(),
            final(self).pages@.subrange(0, r as int) == old(self).pages@,
            is_blank_page(final(self).pages@[r as int], name@),
    {
        self.pages.push(Page::new(name));
        assert(self.pages@.subrange(0, self.pages@.len() - 1) =~= old(self).pages@);
        self.pages.len() - 1
    }
}

/// The whole persisted document: every profile the user has defined.
#[derive(Debug, Clone, PartialEq, Eq)]
pub struct Config {
    /// Schema version of this document; see [`CURRENT_VERSION`].
    pub version: u32,
    /// Index into `profiles` of the profile currently in use.
    pub active_profile: usize,
    /// All profiles; always at least one.
    pub profiles: Vec<Profile>,
}

impl Default for Config {
    /// The first-run document: one profile, "Default", with one empty page.
    fn default() -> (r: Self)
        ensures
            r.version == CURRENT_VERSION,
            r.active_profile == 0,
            r.profiles@.len() == 1,
            r.profiles@[0].name@ == "Default"@,
            r.profiles@[0].pages@.len() == 1,
            is_blank_page(r.profiles@[0].pages@[0], "Page 1"@),
    {
        let mut profiles: Vec<Profile> = Vec::new();
        profiles.push(Profile::new("Default"));
        Config { version: CURRENT_VERSION, active_profile: 0, profiles }
    }
}

/// The index of the profile in use: `active_profile`, clamped to the last
/// profile when it points past the end.
pub open spec fn active_index(active_profile: usize, profile_count: nat) -> int {
    if active_profile < profile_count {
        active_profile as int
    } else {
        profile_count - 1
    }
}

impl Config {
    /// The active profile, clamped so it is always valid even if
    /// `active_profile` points past the end of a hand-edited file.
    pub fn active_profile(&self) -> (r: &Profile)
        requires
            self.profiles@.len() > 0,
        ensures
            *r == self.profiles@[active_index(self.active_profile, self.profiles@.len())],
    {
        let idx = self.active_profile.min(self.profiles.len().saturating_sub(1));
        &self.profiles[idx]
    }

    /// Append a profile (with one empty page) and return its index.
    pub fn add_profile(&mut self, name: &str) -> (r: usize)
        ensures
            final(self).version == old(self).version,
            final(self).active_profile == old(self).active_profile,
            final(self).profiles@.len() == old(self).profiles@.len() + 1,
            r == old(self).profiles@.len(),
            final(self).profiles@.subrange(0, r as int) == old(self).profiles@,
            final(self).profiles@[r as int].name@ == name@,
            final(self).profiles@[r as int].pages@.len() == 1,
            is_blank_page(final(self).profiles@[r as int].pages@[0], "Page 1"@),
    {
        self.profiles.push(Profile::new(name));
        assert(self.profiles@.subrange(0, self.profiles@.len() - 1) =~= old(self).profiles@);
        self.profiles.len() - 1
    }

    /// The page the device currently shows: the first page of the active
    /// profile. Returns `None` only for a hand-edited profile with no pages.
    pub fn active_page(&self) -> (r: Option<&Page>)
        requires
            self.profiles@.len() > 0,
        ensures
            ({
                let pages = self.profiles@[active_index(
                    self.active_profile,
                    self.profiles@.len(),
                )].pages@;
                match r {
                    Some(p) => pages.len() > 0 && *p == pages[0],
                    None => pages.len() == 0,
                }
            }),
    {
        self.active_profile().pages.first()
    }
}

/// The active profile is always one of the profiles: the selected one when
/// the index is in range, the last one otherwise.
pub proof fn law_active_profile_in_range(active_profile: usize, profile_count: nat)
    requires
        profile_count > 0,
    ensures
        0 <= active_index(active_profile, profile_count) < profile_count,
        active_profile < profile_count ==> active_index(active_profile, profile_count)
            == active_profile,
        active_profile >= profile_count ==> active_index(active_profile, profile_count)
            == profile_count - 1,
{
}

/// A key reads back the button last assigned to it, reads as blank once
/// cleared, and assigning or clearing one key leaves every other key as it
/// was.
pub proof fn law_page_read_after_write(
    buttons: Map<u8, Button>,
    key: u8,
    other: u8,
    button: Button,
)
    requires
        other != key,
    ensures
        button_at(buttons.insert(key, button), key) == Some(button),
        button_at(buttons.remove(key), key) is None,
        button_at(buttons.insert(key, button), other) == button_at(buttons, other),
        button_at(buttons.remove(key), other) == button_at(buttons, other),
{
}

} // verus!
