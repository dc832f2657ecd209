//! Hotkey names and their resolution to Linux key codes.
//!
//! A hotkey is written as a list of key names such as `["ctrl", "shift", "m"]`.
//! Each name is trimmed and matched case-insensitively against a fixed table
//! of names; the table maps each name to its Linux input event code, which
//! the virtual keyboard then injects.

use evdev::KeyCode;
use vstd::prelude::*;
use vstd::string::StrSliceExecFns;

verus! {

/// Declares `std::io::Error`, carried opaque inside the error types.
#[verifier::external_type_specification]
#[verifier::external_body]
pub struct ExIoError(std::io::Error);

/// Declares `evdev::KeyCode`, the key codes a combo resolves to.
#[verifier::external_type_specification]
#[verifier::external_body]
pub struct ExKeyCode(KeyCode);

/// A failure while setting up or using the virtual keyboard.
#[derive(Debug)]
pub enum KeyboardError {
    /// The uinput virtual device could not be created — usually missing write
    /// permission on `/dev/uinput`.
    Open(std::io::Error),
    /// Writing the key events to the virtual device failed.
    Emit(std::io::Error),
    /// A combo referenced a key name that is not in the key table.
    UnknownKey(String),
}

/// What `evdev::KeyCode::new` returns for a numeric code.
pub uninterp spec fn key_code(code: u16) -> KeyCode;

/// Wraps a Linux input event code as an `evdev::KeyCode`.
///
/// Trusted: the result is `KeyCode::new(code)`, which only wraps the code
/// in the newtype `KeyCode(pub u16)`, so the same code gives the same key
/// code and different codes give different key codes.
#[verifier::external_body]
fn new_key_code(code: u16) -> (k: KeyCode)
    ensures
        k == key_code(code),
        forall|other: u16| #[trigger] key_code(other) == k ==> other == code,
{
    KeyCode::new(code)
}

/// Whether a character has the Unicode `White_Space` property (the 25 code
/// points of the Unicode Character Database's `PropList.txt`): the controls
/// U+0009 to U+000D, U+0020, U+0085, U+00A0, U+1680, U+2000 to U+200A,
/// U+2028, U+2029, U+202F, U+205F and U+3000.
pub open spec fn is_unicode_white_space(c: char) -> bool {
    let u = c as u32;
    ||| 0x09 <= u <= 0x0D
    ||| u == 0x20
    ||| u == 0x85
    ||| u == 0xA0
    ||| u == 0x1680
    ||| 0x2000 <= u <= 0x200A
    ||| u == 0x2028
    ||| u == 0x2029
    ||| u == 0x202F
    ||| u == 0x205F
    ||| u == 0x3000
}

/// Calls `char::is_whitespace`.
///
/// Trusted: as documented, the answer is whether the character has the
/// Unicode `White_Space` property, whose members are listed above.
#[verifier::external_body]
fn char_is_whitespace(c: char) -> (r: bool)
    ensures
        r == is_unicode_white_space(c),
{
    c.is_whitespace()
}

/// ASCII lowercasing of one character: `'A'..='Z'` map to `'a'..='z'`,
/// every other character is unchanged.
pub open spec fn ascii_lower(c: char) -> char {
    if 'A' <= c <= 'Z' {
        ((c as int) + 32) as char
    } else {
        c
    }
}

/// Calls `char::to_ascii_lowercase`.
///
/// Trusted: as documented, ASCII upper-case letters map to their lower-case
/// counterpart and every other character is returned unchanged.
#[verifier::external_body]
fn char_to_ascii_lowercase(c: char) -> (r: char)
    ensures
        r == ascii_lower(c),
{
    c.to_ascii_lowercase()
}

/// `s` without its leading white space.
pub open spec fn trim_start(s: Seq<char>) -> Seq<char>
    decreases s.len(),
{
    if s.len() > 0 && is_unicode_white_space(s[0]) {
        trim_start(s.drop_first())
    } else {
        s
    }
}

/// `s` without its trailing white space.
pub open spec fn trim_end(s: Seq<char>) -> Seq<char>
    decreases s.len(),
{
    if s.len() > 0 && is_unicode_white_space(s.last()) {
        trim_end(s.drop_last())
    } else {
        s
    }
}

/// `s` without leading and trailing white space.
pub open spec fn trimmed(s: Seq<char>) -> Seq<char> {
    trim_end(trim_start(s))
}

/// The form in which a key name is looked up: trimmed, then ASCII-lowercased.
pub open spec fn normalized_key_name(s: Seq<char>) -> Seq<char> {
    trimmed(s).map_values(|c: char| ascii_lower(c))
}

/// The key table: the Linux input event code of each accepted (normalized)
/// key name. Modifiers use their left-hand variant, and several names are
/// aliases of one key.
pub open spec fn keymap_code(name: Seq<char>) -> Option<u16> {
    if name == "ctrl"@ {
        Some(29u16)
    } else if name == "control"@ {
        Some(29u16)
    } else if name == "shift"@ {
        Some(42u16)
    } else if name == "alt"@ {
        Some(56u16)
    } else if name == "super"@ {
        Some(125u16)
    } else if name == "meta"@ {
        Some(125u16)
    } else if name == "win"@ {
        Some(125u16)
    } else if name == "a"@ {
        Some(30u16)
    } else if name == "b"@ {
        Some(48u16)
    } else if name == "c"@ {
        Some(46u16)
    } else if name == "d"@ {
        Some(32u16)
    } else if name == "e"@ {
        Some(18u16)
    } else if name == "f"@ {
        Some(33u16)
    } else if name == "g"@ {
        Some(34u16)
    } else if name == "h"@ {
        Some(35u16)
    } else if name == "i"@ {
        Some(23u16)
    } else if name == "j"@ {
        Some(36u16)
    } else if name == "k"@ {
        Some(37u16)
    } else if name == "l"@ {
        Some(38u16)
    } else if name == "m"@ {
        Some(50u16)
    } else if name == "n"@ {
        Some(49u16)
    } else if name == "o"@ {
        Some(24u16)
    } else if name == "p"@ {
        Some(25u16)
    } else if name == "q"@ {
        Some(16u16)
    } else if name == "r"@ {
        Some(19u16)
    } else if name == "s"@ {
        Some(31u16)
    } else if name == "t"@ {
        Some(20u16)
    } else if name == "u"@ {
        Some(22u16)
    } else if name == "v"@ {
        Some(47u16)
    } else if name == "w"@ {
        Some(17u16)
    } else if name == "x"@ {
        Some(45u16)
    } else if name == "y"@ {
        Some(21u16)
    } else if name == "z"@ {
        Some(44u16)
    } else if name == "0"@ {
        Some(11u16)
    } else if name == "1"@ {
        Some(2u16)
    } else if name == "2"@ {
        Some(3u16)
    } else if name == "3"@ {
        Some(4u16)
    } else if name == "4"@ {
        Some(5u16)
    } else if name == "5"@ {
        Some(6u16)
    } else if name == "6"@ {
        Some(7u16)
    } else if name == "7"@ {
        Some(8u16)
    } else if name == "8"@ {
        Some(9u16)
    } else if name == "9"@ {
        Some(10u16)
    } else if name == "f1"@ {
        Some(59u16)
    } else if name == "f2"@ {
        Some(60u16)
    } else if name == "f3"@ {
        Some(61u16)
    } else if name == "f4"@ {
        Some(62u16)
    } else if name == "f5"@ {
        Some(63u16)
    } else if name == "f6"@ {
        Some(64u16)
    } else if name == "f7"@ {
        Some(65u16)
    } else if name == "f8"@ {
        Some(66u16)
    } else if name == "f9"@ {
        Some(67u16)
    } else if name == "f10"@ {
        Some(68u16)
    } else if name == "f11"@ {
        Some(87u16)
    } else if name == "f12"@ {
        Some(88u16)
    } else if name == "enter"@ {
        Some(28u16)
    } else if name == "return"@ {
        Some(28u16)
    } else if name == "space"@ {
        Some(57u16)
    } else if name == "tab"@ {
        Some(15u16)
    } else if name == "esc"@ {
        Some(1u16)
    } else if name == "escape"@ {
        Some(1u16)
    } else if name == "backspace"@ {
        Some(14u16)
    } else if name == "delete"@ {
        Some(111u16)
    } else if name == "del"@ {
        Some(111u16)
    } else if name == "insert"@ {
        Some(110u16)
    } else if name == "up"@ {
        Some(103u16)
    } else if name == "down"@ {
        Some(108u16)
    } else if name == "left"@ {
        Some(105u16)
    } else if name == "right"@ {
        Some(106u16)
    } else if name == "home"@ {
        Some(102u16)
    } else if name == "end"@ {
        Some(107u16)
    } else if name == "pageup"@ {
        Some(104u16)
    } else if name == "pagedown"@ {
        Some(109u16)
    } else {
        None
    }
}

/// Whether a key name, as written in a combo, names a key of the table.
pub open spec fn names_a_key(name: Seq<char>) -> bool {
    keymap_code(normalized_key_name(name)) is Some
}

/// The code a key name, as written in a combo, resolves to.
pub open spec fn code_of_name(name: Seq<char>) -> u16 {
    keymap_code(normalized_key_name(name))->0
}

proof fn lemma_trim_start_at(s: Seq<char>, k: int)
    requires
        0 <= k <= s.len(),
        forall|i: int| 0 <= i < k ==> is_unicode_white_space(#[trigger] s[i]),
        k == s.len() || !is_unicode_white_space(s[k]),
    ensures
        trim_start(s) == s.subrange(k, s.len() as int),
    decreases k,
{
    if k == 0 {
        assert(s.subrange(0, s.len() as int) =~= s);
    } else {
        let t = s.drop_first();
        assert forall|i: int| 0 <= i < k - 1 implies is_unicode_white_space(#[trigger] t[i]) by {
            assert(t[i] == s[i + 1]);
        }
        lemma_trim_start_at(t, k - 1);
        assert(t.subrange(k - 1, t.len() as int) =~= s.subrange(k, s.len() as int));
    }
}

proof fn lemma_trim_end_at(s: Seq<char>, e: int)
    requires
        0 <= e <= s.len(),
        forall|i: int| e <= i < s.len() ==> is_unicode_white_space(#[trigger] s[i]),
        e == 0 || !is_unicode_white_space(s[e - 1]),
    ensures
        trim_end(s) == s.subrange(0, e),
    decreases s.len() - e,
{
    if e == s.len() {
        assert(s.subrange(0, e) =~= s);
    } else {
        let t = s.drop_last();
        assert forall|i: int| e <= i < t.len() implies is_unicode_white_space(#[trigger] t[i]) by {
            assert(t[i] == s[i]);
        }
        lemma_trim_end_at(t, e);
        assert(t.subrange(0, e) =~= s.subrange(0, e));
    }
}

/// The characters of a string slice, in order.
pub fn chars_of(s: &str) -> (v: Vec<char>)
    ensures
        v@ == s@,
{
    let n = s.unicode_len();
    let mut v: Vec<char> = Vec::new();
    let mut i: usize = 0;
    while i < n
        invariant
            n == s@.len(),
            i <= n,
            v@ == s@.subrange(0, i as int),
        decreases n - i,
    {
        v.push(s.get_char(i));
        i = i + 1;
        assert(v@ =~= s@.subrange(0, i as int));
    }
    assert(v@ =~= s@);
    v
}

/// Whether a character buffer spells exactly the string `s`.
pub fn chars_equal(v: &Vec<char>, s: &str) -> (r: bool)
    ensures
        r == (v@ == s@),
{
    let n = s.unicode_len();
    if n != v.len() {
        return false;
    }
    let mut i: usize = 0;
    while i < n
        invariant
            n == s@.len(),
            n == v@.len(),
            i <= n,
            forall|j: int| 0 <= j < i ==> v@[j] == s@[j],
        decreases n - i,
    {
        if s.get_char(i) != v[i] {
            return false;
        }
        i = i + 1;
    }
    assert(v@ =~= s@);
    true
}

/// The normalized form of a key name: trimmed of Unicode white space at both
/// ends, then ASCII-lowercased.
pub fn normalize_key_name(name: &str) -> (needle: Vec<char>)
    ensures
        needle@ == normalized_key_name(name@),
{
    let v = chars_of(name);
    let len = v.len();
    let mut start: usize = 0;
    while start < len && char_is_whitespace(v[start])
        invariant
            len == v@.len(),
            start <= len,
            forall|i: int| 0 <= i < start ==> is_unicode_white_space(#[trigger] v@[i]),
        decreases len - start,
    {
        start = start + 1;
    }
    let mut end: usize = len;
    while end > start && char_is_whitespace(v[end - 1])
        invariant
            len == v@.len(),
            start <= end <= len,
            forall|i: int| end <= i < len ==> is_unicode_white_space(#[trigger] v@[i]),
        decreases end - start,
    {
        end = end - 1;
    }
    let ghost s = v@;
    let ghost t = s.subrange(start as int, len as int);
    proof {
        lemma_trim_start_at(s, start as int);
        assert forall|i: int| end - start <= i < t.len() implies is_unicode_white_space(
            #[trigger] t[i],
        ) by {
            assert(t[i] == s[i + start]);
        }
        if end > start {
            assert(t[end - start - 1] == s[end - 1]);
        }
        lemma_trim_end_at(t, end - start);
        assert(t.subrange(0, end - start) =~= s.subrange(start as int, end as int));
    }
    let mut needle: Vec<char> = Vec::new();
    let mut i: usize = start;
    while i < end
        invariant
            len == v@.len(),
            s == v@,
            start <= i <= end <= len,
            needle@ == s.subrange(start as int, i as int).map_values(|c: char| ascii_lower(c)),
        decreases end - i,
    {
        needle.push(char_to_ascii_lowercase(v[i]));
        i = i + 1;
        assert(needle@ =~= s.subrange(start as int, i as int).map_values(
            |c: char| ascii_lower(c),
        ));
    }
    needle
}

/// Looks a normalized key name up in the key table.
pub fn keymap_lookup(needle: &Vec<char>) -> (r: Option<u16>)
    ensures
        r == keymap_code(needle@),
{
    if chars_equal(needle, "ctrl") {
        return Some(29);
    }
    if chars_equal(needle, "control") {
        return Some(29);
    }
    if chars_equal(needle, "shift") {
        return Some(42);
    }
    if chars_equal(needle, "alt") {
        return Some(56);
    }
    if chars_equal(needle, "super") {
        return Some(125);
    }
    if chars_equal(needle, "meta") {
        return Some(125);
    }
    if chars_equal(needle, "win") {
        return Some(125);
    }
    if chars_equal(needle, "a") {
        return Some(30);
    }
    if chars_equal(needle, "b") {
        return Some(48);
    }
    if chars_equal(needle, "c") {
        return Some(46);
    }
    if chars_equal(needle, "d") {
        return Some(32);
    }
    if chars_equal(needle, "e") {
        return Some(18);
    }
    if chars_equal(needle, "f") {
        return Some(33);
    }
    if chars_equal(needle, "g") {
        return Some(34);
    }
    if chars_equal(needle, "h") {
        return Some(35);
    }
    if chars_equal(needle, "i") {
        return Some(23);
    }
    if chars_equal(needle, "j") {
        return Some(36);
    }
    if chars_equal(needle, "k") {
        return Some(37);
    }
    if chars_equal(needle, "l") {
        return Some(38);
    }
    if chars_equal(needle, "m") {
        return Some(50);
    }
    if chars_equal(needle, "n") {
        return Some(49);
    }
    if chars_equal(needle, "o") {
        return Some(24);
    }
    if chars_equal(needle, "p") {
        return Some(25);
    }
    if chars_equal(needle, "q") {
        return Some(16);
    }
    if chars_equal(needle, "r") {
        return Some(19);
    }
    if chars_equal(needle, "s") {
        return Some(31);
    }
    if chars_equal(needle, "t") {
        return Some(20);
    }
    if chars_equal(needle, "u") {
        return Some(22);
    }
    if chars_equal(needle, "v") {
        return Some(47);
    }
    if chars_equal(needle, "w") {
        return Some(17);
    }
    if chars_equal(needle, "x") {
        return Some(45);
    }
    if chars_equal(needle, "y") {
        return Some(21);
    }
    if chars_equal(needle, "z") {
        return Some(44);
    }
    if chars_equal(needle, "0") {
        return Some(11);
    }
    if chars_equal(needle, "1") {
        return Some(2);
    }
    if chars_equal(needle, "2") {
        return Some(3);
    }
    if chars_equal(needle, "3") {
        return Some(4);
    }
    if chars_equal(needle, "4") {
        return Some(5);
    }
    if chars_equal(needle, "5") {
        return Some(6);
    }
    if chars_equal(needle, "6") {
        return Some(7);
    }
    if chars_equal(needle, "7") {
        return Some(8);
    }
    if chars_equal(needle, "8") {
        return Some(9);
    }
    if chars_equal(needle, "9") {
        return Some(10);
    }
    if chars_equal(needle, "f1") {
        return Some(59);
    }
    if chars_equal(needle, "f2") {
        return Some(60);
    }
    if chars_equal(needle, "f3") {
        return Some(61);
    }
    if chars_equal(needle, "f4") {
        return Some(62);
    }
    if chars_equal(needle, "f5") {
        return Some(63);
    }
    if chars_equal(needle, "f6") {
        return Some(64);
    }
    if chars_equal(needle, "f7") {
        return Some(65);
    }
    if chars_equal(needle, "f8") {
        return Some(66);
    }
    if chars_equal(needle, "f9") {
        return Some(67);
    }
    if chars_equal(needle, "f10") {
        return Some(68);
    }
    if chars_equal(needle, "f11") {
        return Some(87);
    }
    if chars_equal(needle, "f12") {
        return Some(88);
    }
    if chars_equal(needle, "enter") {
        return Some(28);
    }
    if chars_equal(needle, "return") {
        return Some(28);
    }
    if chars_equal(needle, "space") {
        return Some(57);
    }
    if chars_equal(needle, "tab") {
        return Some(15);
    }
    if chars_equal(needle, "esc") {
        return Some(1);
    }
    if chars_equal(needle, "escape") {
        return Some(1);
    }
    if chars_equal(needle, "backspace") {
        return Some(14);
    }
    if chars_equal(needle, "delete") {
        return Some(111);
    }
    if chars_equal(needle, "del") {
        return Some(111);
    }
    if chars_equal(needle, "insert") {
        return Some(110);
    }
    if chars_equal(needle, "up") {
        return Some(103);
    }
    if chars_equal(needle, "down") {
        return Some(108);
    }
    if chars_equal(needle, "left") {
        return Some(105);
    }
    if chars_equal(needle, "right") {
        return Some(106);
    }
    if chars_equal(needle, "home") {
        return Some(102);
    }
    if chars_equal(needle, "end") {
        return Some(107);
    }
    if chars_equal(needle, "pageup") {
        return Some(104);
    }
    if chars_equal(needle, "pagedown") {
        return Some(109);
    }
    None
}

/// Resolves a single key name (trimmed, case-insensitive) to its Linux input
/// event code.
pub fn key_code_for(name: &str) -> (r: Result<u16, KeyboardError>)
    ensures
        match r {
            Ok(c) => keymap_code(normalized_key_name(name@)) == Some(c),
            Err(KeyboardError::UnknownKey(n)) => !names_a_key(name@) && n@ == name@,
            Err(_) => false,
        },
{
    let needle = normalize_key_name(name);
    match keymap_lookup(&needle) {
        Some(code) => Ok(code),
        None => Err(KeyboardError::UnknownKey(name.to_owned())),
    }
}

/// Looks a single key name (trimmed, case-insensitive) up in the key table.
///
/// Returns [`KeyboardError::UnknownKey`] with the name as written when it is
/// not in the table.
pub fn key_for(name: &str) -> (r: Result<KeyCode, KeyboardError>)
    ensures
        match r {
            Ok(k) => names_a_key(name@) && k == key_code(code_of_name(name@)) && forall|
                other: u16,
            | #[trigger] key_code(other) == k ==> other == code_of_name(name@),
            Err(KeyboardError::UnknownKey(n)) => !names_a_key(name@) && n@ == name@,
            Err(_) => false,
        },
{
    match key_code_for(name) {
        Ok(code) => Ok(new_key_code(code)),
        Err(e) => Err(e),
    }
}

/// Whether `r` is what resolving the combo `names` gives: every name's key
/// code, in order, when every name is in the key table; otherwise
/// [`KeyboardError::UnknownKey`] carrying the first name, as written, that
/// is not.
pub open spec fn is_combo_resolution(
    names: Seq<String>,
    r: Result<Vec<KeyCode>, KeyboardError>,
) -> bool {
    match r {
        Ok(v) => {
            &&& v@.len() == names.len()
            &&& forall|i: int|
                0 <= i < names.len() ==> names_a_key(#[trigger] names[i]@) && v@[i] == key_code(
                    code_of_name(names[i]@),
                )
            &&& forall|i: int, other: u16|
                #![trigger key_code(other), v@[i]]
                0 <= i < names.len() && key_code(other) == v@[i] ==> other
                    == code_of_name(names[i]@)
        },
        Err(KeyboardError::UnknownKey(n)) => exists|i: int|
            0 <= i < names.len() && !names_a_key(#[trigger] names[i]@) && n@ == names[i]@
                && forall|j: int| 0 <= j < i ==> names_a_key(#[trigger] names[j]@),
        Err(_) => false,
    }
}

/// Resolve a combo of key names to their key codes, in order.
///
/// Each name is trimmed and matched case-insensitively. Returns
/// [`KeyboardError::UnknownKey`] for the first name that isn't recognised.
pub fn parse_combo(names: &[String]) -> (r: Result<Vec<KeyCode>, KeyboardError>)
    ensures
        is_combo_resolution(names@, r),
{
    let mut out: Vec<KeyCode> = Vec::new();
    let mut i: usize = 0;
    while i < names.len()
        invariant
            i <= names@.len(),
            out@.len() == i,
            forall|j: int|
                0 <= j < i ==> names_a_key(#[trigger] names@[j]@) && out@[j] == key_code(
                    code_of_name(names@[j]@),
                ),
            forall|j: int, other: u16|
                #![trigger key_code(other), out@[j]]
                0 <= j < i && key_code(other) == out@[j] ==> other == code_of_name(
                    names@[j]@,
                ),
        decreases names@.len() - i,
    {
        match key_for(names[i].as_str()) {
            Ok(k) => out.push(k),
            Err(e) => {
                assert(!names_a_key(names@[i as int]@));
                return Err(e);
            },
        }
        i = i + 1;
    }
    Ok(out)
}

/// The two event batches that tap a combo: every key pressed (value `1`) in
/// order, then every key released (value `0`) in reverse order, so that every
/// modifier is still held when the last key lands.
pub fn tap_batches(keys: &[KeyCode]) -> (r: (Vec<(KeyCode, i32)>, Vec<(KeyCode, i32)>))
    ensures
        r.0@.len() == keys@.len(),
        r.1@.len() == keys@.len(),
        forall|i: int| 0 <= i < keys@.len() ==> #[trigger] r.0@[i] == (keys@[i], 1i32),
        forall|i: int|
            0 <= i < keys@.len() ==> #[trigger] r.1@[i] == (keys@[keys@.len() - 1 - i], 0i32),
{
    let n = keys.len();
    let mut down: Vec<(KeyCode, i32)> = Vec::new();
    let mut up: Vec<(KeyCode, i32)> = Vec::new();
    let mut i: usize = 0;
    while i < n
        invariant
            n == keys@.len(),
            i <= n,
            down@.len() == i,
            up@.len() == i,
            forall|j: int| 0 <= j < i ==> #[trigger] down@[j] == (keys@[j], 1i32),
            forall|j: int| 0 <= j < i ==> #[trigger] up@[j] == (keys@[n - 1 - j], 0i32),
        decreases n - i,
    {
        down.push((keys[i], 1));
        up.push((keys[n - 1 - i], 0));
        i = i + 1;
    }
    (down, up)
}

/// Key names are looked up in normalized form: two names that trim and
/// lowercase to the same text resolve to the same key, or are both unknown.
pub proof fn law_lookup_ignores_case_and_padding(a: Seq<char>, b: Seq<char>)
    requires
        normalized_key_name(a) == normalized_key_name(b),
    ensures
        names_a_key(a) == names_a_key(b),
        code_of_name(a) == code_of_name(b),
{
}

/// The code of every entry of the key table, in table order (aliases repeat
/// their key's code).
pub open spec fn keymap_code_list() -> Seq<u16> {
    seq![29u16, 29u16, 42u16, 56u16, 125u16, 125u16, 125u16, 30u16, 48u16, 46u16, 32u16, 18u16, 33u16, 34u16, 35u16, 23u16, 36u16, 37u16, 38u16, 50u16, 49u16, 24u16, 25u16, 16u16, 19u16, 31u16, 20u16, 22u16, 47u16, 17u16, 45u16, 21u16, 44u16, 11u16, 2u16, 3u16, 4u16, 5u16, 6u16, 7u16, 8u16, 9u16, 10u16, 59u16, 60u16, 61u16, 62u16, 63u16, 64u16, 65u16, 66u16, 67u16, 68u16, 87u16, 88u16, 28u16, 28u16, 57u16, 15u16, 1u16, 1u16, 14u16, 111u16, 111u16, 110u16, 103u16, 108u16, 105u16, 106u16, 102u16, 107u16, 104u16, 109u16]
}

/// Every code of the key table, so that a virtual keyboard can advertise
/// them all up front and emit any combo later.
pub fn keymap_codes() -> (r: Vec<u16>)
    ensures
        r@ == keymap_code_list(),
{
    vec![29, 29, 42, 56, 125, 125, 125, 30, 48, 46, 32, 18, 33, 34, 35, 23, 36, 37, 38, 50, 49, 24, 25, 16, 19, 31, 20, 22, 47, 17, 45, 21, 44, 11, 2, 3, 4, 5, 6, 7, 8, 9, 10, 59, 60, 61, 62, 63, 64, 65, 66, 67, 68, 87, 88, 28, 28, 57, 15, 1, 1, 14, 111, 111, 110, 103, 108, 105, 106, 102, 107, 104, 109]
}

/// Every key a name can resolve to is among the advertised codes.
pub proof fn law_resolvable_keys_are_advertised(name: Seq<char>)
    requires
        keymap_code(name) is Some,
    ensures
        keymap_code_list().contains(keymap_code(name)->0),
{
    assert(keymap_code_list()[59] == 1u16);
    assert(keymap_code_list()[34] == 2u16);
    assert(keymap_code_list()[35] == 3u16);
    assert(keymap_code_list()[36] == 4u16);
    assert(keymap_code_list()[37] == 5u16);
    assert(keymap_code_list()[38] == 6u16);
    assert(keymap_code_list()[39] == 7u16);
    assert(keymap_code_list()[40] == 8u16);
    assert(keymap_code_list()[41] == 9u16);
    assert(keymap_code_list()[42] == 10u16);
    assert(keymap_code_list()[33] == 11u16);
    assert(keymap_code_list()[61] == 14u16);
    assert(keymap_code_list()[58] == 15u16);
    assert(keymap_code_list()[23] == 16u16);
    assert(keymap_code_list()[29] == 17u16);
    assert(keymap_code_list()[11] == 18u16);
    assert(keymap_code_list()[24] == 19u16);
    assert(keymap_code_list()[26] == 20u16);
    assert(keymap_code_list()[31] == 21u16);
    assert(keymap_code_list()[27] == 22u16);
    assert(keymap_code_list()[15] == 23u16);
    assert(keymap_code_list()[21] == 24u16);
    assert(keymap_code_list()[22] == 25u16);
    assert(keymap_code_list()[55] == 28u16);
    assert(keymap_code_list()[0] == 29u16);
    assert(keymap_code_list()[7] == 30u16);
    assert(keymap_code_list()[25] == 31u16);
    assert(keymap_code_list()[10] == 32u16);
    assert(keymap_code_list()[12] == 33u16);
    assert(keymap_code_list()[13] == 34u16);
    assert(keymap_code_list()[14] == 35u16);
    assert(keymap_code_list()[16] == 36u16);
    assert(keymap_code_list()[17] == 37u16);
    assert(keymap_code_list()[18] == 38u16);
    assert(keymap_code_list()[2] == 42u16);
    assert(keymap_code_list()[32] == 44u16);
    assert(keymap_code_list()[30] == 45u16);
    assert(keymap_code_list()[9] == 46u16);
    assert(keymap_code_list()[28] == 47u16);
    assert(keymap_code_list()[8] == 48u16);
    assert(keymap_code_list()[20] == 49u16);
    assert(keymap_code_list()[19] == 50u16);
    assert(keymap_code_list()[3] == 56u16);
    assert(keymap_code_list()[57] == 57u16);
    assert(keymap_code_list()[43] == 59u16);
    assert(keymap_code_list()[44] == 60u16);
    assert(keymap_code_list()[45] == 61u16);
    assert(keymap_code_list()[46] == 62u16);
    assert(keymap_code_list()[47] == 63u16);
    assert(keymap_code_list()[48] == 64u16);
    assert(keymap_code_list()[49] == 65u16);
    assert(keymap_code_list()[50] == 66u16);
    assert(keymap_code_list()[51] == 67u16);
    assert(keymap_code_list()[52] == 68u16);
    assert(keymap_code_list()[53] == 87u16);
    assert(keymap_code_list()[54] == 88u16);
    assert(keymap_code_list()[69] == 102u16);
    assert(keymap_code_list()[65] == 103u16);
    assert(keymap_code_list()[71] == 104u16);
    assert(keymap_code_list()[67] == 105u16);
    assert(keymap_code_list()[68] == 106u16);
    assert(keymap_code_list()[70] == 107u16);
    assert(keymap_code_list()[66] == 108u16);
    assert(keymap_code_list()[72] == 109u16);
    assert(keymap_code_list()[64] == 110u16);
    assert(keymap_code_list()[62] == 111u16);
    assert(keymap_code_list()[4] == 125u16);
}

} // verus!
