//! The decisions of a device session: what to paint on each key of the deck,
//! which keys an input batch pressed, and which action a key press runs.
//!
//! The session itself (connecting, waiting for input, drawing) is I/O; it
//! carries out the plans computed here.

use crate::action::Action;
use crate::config::{active_index, button_at, Button, Config, Page};
use crate::input::InputEvent;
use vstd::prelude::*;

verus! {

/// What to put on one LCD key.
#[derive(Debug, Clone, Copy, PartialEq, Eq)]
pub enum KeyPaint<'a> {
    /// Draw `label` in colour `fg` on a background of colour `bg`.
    Text {
        /// The text to draw.
        label: &'a String,
        /// Label colour, RGB.
        fg: [u8; 3],
        /// Background colour, RGB.
        bg: [u8; 3],
    },
    /// Fill the key with a solid colour.
    Fill([u8; 3]),
    /// Clear the key: no button is configured there.
    Blank,
}

/// Whether `paint` is how `button` is drawn: its label in its text colour on
/// its colour when it has a non-empty label, otherwise a solid fill of its
/// colour.
pub open spec fn paints_button(paint: KeyPaint, button: Button) -> bool {
    if button.label matches Some(l) && l@.len() > 0 {
        paint matches KeyPaint::Text { label, fg, bg } && *label == button.label->0 && fg
            == button.text_color && bg == button.color
    } else {
        paint matches KeyPaint::Fill(c) && c == button.color
    }
}

/// Whether `paint` is how key `key` of an (optional) page is drawn: its
/// button when one is configured, otherwise blank.
pub open spec fn paints_key(paint: KeyPaint, page: Option<Page>, key: u8) -> bool {
    match page {
        Some(p) => match button_at(p.buttons@, key) {
            Some(b) => paints_button(paint, b),
            None => paint matches KeyPaint::Blank,
        },
        None => paint matches KeyPaint::Blank,
    }
}

/// Draw a single configured button: its label if it has one, else a solid
/// fill.
pub fn button_paint(button: &Button) -> (r: KeyPaint<'_>)
    ensures
        paints_button(r, *button),
{
    match &button.label {
        Some(label) => {
            if !label.as_str().is_empty() {
                KeyPaint::Text { label, fg: button.text_color, bg: button.color }
            } else {
                KeyPaint::Fill(button.color)
            }
        },
        None => KeyPaint::Fill(button.color),
    }
}

/// How to paint each of the first `lcd_keys` keys from a page: entry `k` is
/// key `k`'s button, or blank when the key has none (or there is no page).
pub fn page_paints<'a>(page: Option<&'a Page>, lcd_keys: u8) -> (r: Vec<KeyPaint<'a>>)
    ensures
        r@.len() == lcd_keys,
        forall|k: int|
            0 <= k < lcd_keys ==> paints_key(
                #[trigger] r@[k],
                match page {
                    Some(p) => Some(*p),
                    None => None,
                },
                k as u8,
            ),
{
    let ghost pg = match page {
        Some(p) => Some(*p),
        None => None,
    };
    let mut out: Vec<KeyPaint<'a>> = Vec::new();
    let mut key: u8 = 0;
    while key < lcd_keys
        invariant
            key <= lcd_keys,
            out@.len() == key,
            pg == match page {
                Some(p) => Some(*p),
                None => None,
            },
            forall|k: int| 0 <= k < key ==> paints_key(#[trigger] out@[k], pg, k as u8),
        decreases lcd_keys - key,
    {
        let paint = match page {
            Some(p) => match p.button(key) {
                Some(button) => button_paint(button),
                None => KeyPaint::Blank,
            },
            None => KeyPaint::Blank,
        };
        out.push(paint);
        key = key + 1;
    }
    out
}

/// The keys pressed down in a batch of input events, in order.
pub open spec fn pressed_keys(events: Seq<InputEvent>) -> Seq<u8>
    decreases events.len(),
{
    if events.len() == 0 {
        Seq::empty()
    } else {
        let rest = pressed_keys(events.drop_last());
        match events.last() {
            InputEvent::KeyDown(k) => rest.push(k),
            _ => rest,
        }
    }
}

/// The keys that a batch of input events pressed down, in order; releases,
/// encoder presses and twists are ignored.
pub fn key_downs(events: &[InputEvent]) -> (r: Vec<u8>)
    ensures
        r@ == pressed_keys(events@),
{
    let mut out: Vec<u8> = Vec::new();
    let mut i: usize = 0;
    while i < events.len()
        invariant
            i <= events@.len(),
            out@ == pressed_keys(events@.subrange(0, i as int)),
        decreases events@.len() - i,
    {
        assert(events@.subrange(0, i + 1).drop_last() =~= events@.subrange(0, i as int));
        if let InputEvent::KeyDown(key) = events[i] {
            out.push(key);
        }
        i = i + 1;
    }
    assert(events@.subrange(0, events@.len() as int) =~= events@);
    out
}

/// The action a press of `key` runs under `config`: that of the button
/// configured at `key` on the active page, if there is one.
pub fn pressed_action(config: &Config, key: u8) -> (r: Option<&Action>)
    requires
        config.profiles@.len() > 0,
    ensures
        ({
            let pages = config.profiles@[active_index(
                config.active_profile,
                config.profiles@.len(),
            )].pages@;
            match r {
                Some(a) => pages.len() > 0 && (button_at(pages[0].buttons@, key) matches Some(
                    b,
                ) && *a == b.action),
                None => pages.len() == 0 || button_at(pages[0].buttons@, key) is None,
            }
        }),
{
    match config.active_page() {
        Some(page) => match page.button(key) {
            Some(button) => Some(&button.action),
            None => None,
        },
        None => None,
    }
}

/// Key presses are picked out in batch order: a press appended to a batch
/// is appended to its presses, any other event adds none, and the presses
/// of two batches one after the other are those of the first followed by
/// those of the second.
pub proof fn law_pressed_keys_in_batch_order(a: Seq<InputEvent>, b: Seq<InputEvent>, e: InputEvent)
    ensures
        pressed_keys(Seq::empty()) == Seq::<u8>::empty(),
        pressed_keys(a.push(e)) == (match e {
            InputEvent::KeyDown(k) => pressed_keys(a).push(k),
            _ => pressed_keys(a),
        }),
        pressed_keys(a + b) == pressed_keys(a) + pressed_keys(b),
    decreases b.len(),
{
    assert(a.push(e).drop_last() =~= a);
    if b.len() == 0 {
        assert(a + b =~= a);
        assert(pressed_keys(a) + pressed_keys(b) =~= pressed_keys(a));
    } else {
        let b0 = b.drop_last();
        law_pressed_keys_in_batch_order(a, b0, e);
        assert((a + b).drop_last() =~= a + b0);
        assert((a + b).last() == b.last());
        match b.last() {
            InputEvent::KeyDown(k) => {
                assert(pressed_keys(a) + pressed_keys(b0).push(k) =~= (pressed_keys(a)
                    + pressed_keys(b0)).push(k));
            },
            _ => {},
        }
    }
}

/// Presses are kept in order: when the event at index `i` presses key `k`,
/// the `k` is the press numbered by the presses before `i`, so a press at a
/// smaller index comes earlier in the result.
pub proof fn law_press_position(events: Seq<InputEvent>, i: int, k: u8)
    requires
        0 <= i < events.len(),
        events[i] == InputEvent::KeyDown(k),
    ensures
        pressed_keys(events.subrange(0, i)).len() < pressed_keys(events).len(),
        pressed_keys(events)[pressed_keys(events.subrange(0, i)).len() as int] == k,
{
    let a = events.subrange(0, i);
    let b = events.subrange(i, events.len() as int);
    assert(events =~= a + b);
    law_pressed_keys_in_batch_order(a, b, events[i]);
    let one = seq![events[i]];
    let rest = events.subrange(i + 1, events.len() as int);
    assert(b =~= one + rest);
    law_pressed_keys_in_batch_order(one, rest, events[i]);
    assert(one =~= Seq::<InputEvent>::empty().push(events[i]));
    law_pressed_keys_in_batch_order(Seq::<InputEvent>::empty(), rest, events[i]);
    assert(pressed_keys(one) =~= seq![k]);
}

} // verus!
