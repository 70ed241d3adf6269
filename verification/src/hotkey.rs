//! The recording hotkey: parsing a text such as `Cmd+Shift+V` into modifier
//! keys and one key.

use vstd::prelude::*;
use crate::config::default_record_hotkey;
use crate::error::AppError;
use crate::text::{all_white_space, append_str, trim_ignores_surrounding_white_space, chars_eq_str, chars_of, lowercase, string_of, to_lowercase, trim, trim_string};

verus! {

broadcast use vstd::string::group_string_axioms;

/// The modifier keys of a hotkey.
#[derive(Debug, Clone, Copy, PartialEq, Eq, Structural)]
pub struct Modifiers {
    pub control: bool,
    pub shift: bool,
    pub alt: bool,
    pub super_key: bool,
}

/// The keys a hotkey can be bound to.
#[derive(Debug, Clone, Copy, PartialEq, Eq, Structural)]
pub enum KeyCode {
    Space,
    KeyA,
    KeyB,
    KeyC,
    KeyD,
    KeyE,
    KeyF,
    KeyG,
    KeyH,
    KeyI,
    KeyJ,
    KeyK,
    KeyL,
    KeyM,
    KeyN,
    KeyO,
    KeyP,
    KeyQ,
    KeyR,
    KeyS,
    KeyT,
    KeyU,
    KeyV,
    KeyW,
    KeyX,
    KeyY,
    KeyZ,
}

/// A parsed hotkey: modifiers and one key.
#[derive(Debug, Clone, Copy, PartialEq, Eq, Structural)]
pub struct Hotkey {
    pub modifiers: Modifiers,
    pub key: KeyCode,
}

/// The letter printed on a key, for the letter keys.
pub open spec fn key_letter(k: KeyCode) -> Option<char> {
    match k {
        KeyCode::Space => None,
        KeyCode::KeyA => Some('a'),
        KeyCode::KeyB => Some('b'),
        KeyCode::KeyC => Some('c'),
        KeyCode::KeyD => Some('d'),
        KeyCode::KeyE => Some('e'),
        KeyCode::KeyF => Some('f'),
        KeyCode::KeyG => Some('g'),
        KeyCode::KeyH => Some('h'),
        KeyCode::KeyI => Some('i'),
        KeyCode::KeyJ => Some('j'),
        KeyCode::KeyK => Some('k'),
        KeyCode::KeyL => Some('l'),
        KeyCode::KeyM => Some('m'),
        KeyCode::KeyN => Some('n'),
        KeyCode::KeyO => Some('o'),
        KeyCode::KeyP => Some('p'),
        KeyCode::KeyQ => Some('q'),
        KeyCode::KeyR => Some('r'),
        KeyCode::KeyS => Some('s'),
        KeyCode::KeyT => Some('t'),
        KeyCode::KeyU => Some('u'),
        KeyCode::KeyV => Some('v'),
        KeyCode::KeyW => Some('w'),
        KeyCode::KeyX => Some('x'),
        KeyCode::KeyY => Some('y'),
        KeyCode::KeyZ => Some('z'),
    }
}

/// The key named by a single lowercase letter.
pub open spec fn letter_code(c: char) -> Option<KeyCode> {
    match c {
        'a' => Some(KeyCode::KeyA),
        'b' => Some(KeyCode::KeyB),
        'c' => Some(KeyCode::KeyC),
        'd' => Some(KeyCode::KeyD),
        'e' => Some(KeyCode::KeyE),
        'f' => Some(KeyCode::KeyF),
        'g' => Some(KeyCode::KeyG),
        'h' => Some(KeyCode::KeyH),
        'i' => Some(KeyCode::KeyI),
        'j' => Some(KeyCode::KeyJ),
        'k' => Some(KeyCode::KeyK),
        'l' => Some(KeyCode::KeyL),
        'm' => Some(KeyCode::KeyM),
        'n' => Some(KeyCode::KeyN),
        'o' => Some(KeyCode::KeyO),
        'p' => Some(KeyCode::KeyP),
        'q' => Some(KeyCode::KeyQ),
        'r' => Some(KeyCode::KeyR),
        's' => Some(KeyCode::KeyS),
        't' => Some(KeyCode::KeyT),
        'u' => Some(KeyCode::KeyU),
        'v' => Some(KeyCode::KeyV),
        'w' => Some(KeyCode::KeyW),
        'x' => Some(KeyCode::KeyX),
        'y' => Some(KeyCode::KeyY),
        'z' => Some(KeyCode::KeyZ),
        _ => None,
    }
}

/// The key named by `k`: `space` or `spacebar`, or one lowercase letter.
pub open spec fn key_code_of(k: Seq<char>) -> Option<KeyCode> {
    if k == "space"@ || k == "spacebar"@ {
        Some(KeyCode::Space)
    } else if k.len() == 1 {
        letter_code(k[0])
    } else {
        None
    }
}

/// The key named by a single character.
fn letter_code_exec(c: char) -> (res: Option<KeyCode>)
    ensures
        res == letter_code(c),
        res matches Some(k) ==> key_letter(k) == Some(c),
        res is Some <==> ('a' <= c && c <= 'z'),
{
    match c {
        'a' => Some(KeyCode::KeyA),
        'b' => Some(KeyCode::KeyB),
        'c' => Some(KeyCode::KeyC),
        'd' => Some(KeyCode::KeyD),
        'e' => Some(KeyCode::KeyE),
        'f' => Some(KeyCode::KeyF),
        'g' => Some(KeyCode::KeyG),
        'h' => Some(KeyCode::KeyH),
        'i' => Some(KeyCode::KeyI),
        'j' => Some(KeyCode::KeyJ),
        'k' => Some(KeyCode::KeyK),
        'l' => Some(KeyCode::KeyL),
        'm' => Some(KeyCode::KeyM),
        'n' => Some(KeyCode::KeyN),
        'o' => Some(KeyCode::KeyO),
        'p' => Some(KeyCode::KeyP),
        'q' => Some(KeyCode::KeyQ),
        'r' => Some(KeyCode::KeyR),
        's' => Some(KeyCode::KeyS),
        't' => Some(KeyCode::KeyT),
        'u' => Some(KeyCode::KeyU),
        'v' => Some(KeyCode::KeyV),
        'w' => Some(KeyCode::KeyW),
        'x' => Some(KeyCode::KeyX),
        'y' => Some(KeyCode::KeyY),
        'z' => Some(KeyCode::KeyZ),
        _ => None,
    }
}

/// The message of the error for a key name that names no key.
pub open spec fn unsupported_key_message(k: Seq<char>) -> Seq<char> {
    "Неподдерживаемая клавиша: "@ + k
}

fn key_code_of_chars(k: &Vec<char>) -> (res: Option<KeyCode>)
    ensures
        res == key_code_of(k@),
{
    if chars_eq_str(k, "space") || chars_eq_str(k, "spacebar") {
        Some(KeyCode::Space)
    } else if k.len() == 1 {
        letter_code_exec(k[0])
    } else {
        None
    }
}

/// The key named by `key`, or the `HOTKEY` error naming it.
pub fn parse_key_code(key: &str) -> (res: Result<KeyCode, AppError>)
    ensures
        match key_code_of(key@) {
            Some(code) => res == Ok::<KeyCode, AppError>(code),
            None => res matches Err(e) && e.is("HOTKEY"@, unsupported_key_message(key@)),
        },
{
    let k = chars_of(key);
    match key_code_of_chars(&k) {
        Some(code) => Ok(code),
        None => {
            let mut message = "Неподдерживаемая клавиша: ".to_string();
            append_str(&mut message, key);
            Err(AppError::new("HOTKEY", message.as_str()))
        },
    }
}

/// `+` and `-` both separate the parts of a hotkey.
pub open spec fn is_separator(c: char) -> bool {
    c == '+' || c == '-'
}

/// The parts of `s` between separators, empty ones included, as `str::split`
/// gives them.
pub open spec fn split_parts(s: Seq<char>) -> Seq<Seq<char>>
    decreases s.len(),
{
    if s.len() == 0 {
        seq![Seq::<char>::empty()]
    } else {
        let p = split_parts(s.drop_last());
        if is_separator(s.last()) {
            p.push(Seq::<char>::empty())
        } else {
            p.update(p.len() - 1, p.last().push(s.last()))
        }
    }
}

proof fn lemma_split_parts_len(s: Seq<char>)
    ensures
        split_parts(s).len() >= 1,
    decreases s.len(),
{
    if s.len() > 0 {
        lemma_split_parts_len(s.drop_last());
    }
}

/// No modifier pressed.
pub open spec fn no_modifiers() -> Modifiers {
    Modifiers { control: false, shift: false, alt: false, super_key: false }
}

/// The modifiers and key named so far, then the effect of one more part:
/// an empty part is skipped, a modifier name adds that modifier, anything
/// else becomes the key (replacing an earlier one).
pub open spec fn apply_part(acc: (Modifiers, Option<Seq<char>>), part: Seq<char>) -> (
    Modifiers,
    Option<Seq<char>>,
) {
    let m = acc.0;
    if part.len() == 0 {
        acc
    } else if part == "ctrl"@ || part == "control"@ {
        (Modifiers { control: true, shift: m.shift, alt: m.alt, super_key: m.super_key }, acc.1)
    } else if part == "shift"@ {
        (Modifiers { control: m.control, shift: true, alt: m.alt, super_key: m.super_key }, acc.1)
    } else if part == "alt"@ || part == "option"@ {
        (Modifiers { control: m.control, shift: m.shift, alt: true, super_key: m.super_key }, acc.1)
    } else if part == "cmd"@ || part == "command"@ || part == "meta"@ || part == "super"@ {
        (Modifiers { control: m.control, shift: m.shift, alt: m.alt, super_key: true }, acc.1)
    } else {
        (m, Some(part))
    }
}

/// The modifiers and key named by a list of parts, read left to right.
pub open spec fn fold_parts(ps: Seq<Seq<char>>) -> (Modifiers, Option<Seq<char>>)
    decreases ps.len(),
{
    if ps.len() == 0 {
        (no_modifiers(), None)
    } else {
        apply_part(fold_parts(ps.drop_last()), ps.last())
    }
}

/// What a normalised hotkey text denotes: the hotkey, or the message of the
/// error it is refused with.
pub open spec fn hotkey_of(s: Seq<char>) -> Result<Hotkey, Seq<char>> {
    if s.len() == 0 {
        Err("Пустая горячая клавиша"@)
    } else {
        let (mods, key) = fold_parts(split_parts(s));
        match key {
            None => Err("Не задана клавиша"@),
            Some(k) => match key_code_of(k) {
                Some(code) => Ok(Hotkey { modifiers: mods, key: code }),
                None => Err(unsupported_key_message(k)),
            },
        }
    }
}

/// `res` is the outcome `expected`: the same hotkey, or a `HOTKEY` error with
/// the same message.
pub open spec fn is_outcome(res: Result<Hotkey, AppError>, expected: Result<Hotkey, Seq<char>>) -> bool {
    match (res, expected) {
        (Ok(h), Ok(g)) => h == g,
        (Err(e), Err(m)) => e.is("HOTKEY"@, m),
        _ => false,
    }
}

/// The key held so far, as characters.
pub open spec fn key_view(k: Option<Vec<char>>) -> Option<Seq<char>> {
    match k {
        Some(v) => Some(v@),
        None => None,
    }
}

fn apply_part_exec(mods: Modifiers, key: Option<Vec<char>>, part: Vec<char>) -> (res: (
    Modifiers,
    Option<Vec<char>>,
))
    ensures
        (res.0, key_view(res.1)) == apply_part((mods, key_view(key)), part@),
{
    if part.len() == 0 {
        (mods, key)
    } else if chars_eq_str(&part, "ctrl") || chars_eq_str(&part, "control") {
        (Modifiers { control: true, ..mods }, key)
    } else if chars_eq_str(&part, "shift") {
        (Modifiers { shift: true, ..mods }, key)
    } else if chars_eq_str(&part, "alt") || chars_eq_str(&part, "option") {
        (Modifiers { alt: true, ..mods }, key)
    } else if chars_eq_str(&part, "cmd") || chars_eq_str(&part, "command") || chars_eq_str(
        &part,
        "meta",
    ) || chars_eq_str(&part, "super") {
        (Modifiers { super_key: true, ..mods }, key)
    } else {
        (mods, Some(part))
    }
}

/// Parses a hotkey text that is already trimmed and in lowercase.
pub fn parse_normalized_hotkey(s: &str) -> (res: Result<Hotkey, AppError>)
    ensures
        is_outcome(res, hotkey_of(s@)),
{
    let cs = chars_of(s);
    if cs.len() == 0 {
        return Err(AppError::new("HOTKEY", "Пустая горячая клавиша"));
    }
    let mut mods = Modifiers { control: false, shift: false, alt: false, super_key: false };
    let mut key: Option<Vec<char>> = None;
    let mut cur: Vec<char> = Vec::new();
    let mut i: usize = 0;
    proof {
        assert(cs@.take(0) == Seq::<char>::empty());
        assert(split_parts(cs@.take(0)).drop_last() == Seq::<Seq<char>>::empty());
    }
    while i < cs.len()
        invariant
            i <= cs.len(),
            cs@ == s@,
            split_parts(cs@.take(i as int)).len() >= 1,
            cur@ == split_parts(cs@.take(i as int)).last(),
            (mods, key_view(key)) == fold_parts(split_parts(cs@.take(i as int)).drop_last()),
        decreases cs.len() - i,
    {
        let c = cs[i];
        let ghost t = cs@.take(i as int);
        let ghost p = split_parts(t);
        proof {
            assert(cs@.take(i + 1).drop_last() == t);
            assert(cs@.take(i + 1).last() == c);
        }
        if c == '+' || c == '-' {
            let (m2, k2) = apply_part_exec(mods, key, cur);
            mods = m2;
            key = k2;
            cur = Vec::new();
            proof {
                assert(split_parts(cs@.take(i + 1)) == p.push(Seq::<char>::empty()));
                assert(p.push(Seq::<char>::empty()).drop_last() == p);
            }
        } else {
            cur.push(c);
            proof {
                let q = p.update(p.len() - 1, p.last().push(c));
                assert(split_parts(cs@.take(i + 1)) == q);
                assert(q.drop_last() == p.drop_last());
            }
        }
        i = i + 1;
    }
    let (mods, key) = apply_part_exec(mods, key, cur);
    proof {
        assert(cs@.take(cs.len() as int) == cs@);
    }
    match key {
        None => Err(AppError::new("HOTKEY", "Не задана клавиша")),
        Some(k) => {
            let name = string_of(&k);
            match parse_key_code(name.as_str()) {
                Ok(code) => Ok(Hotkey { modifiers: mods, key: code }),
                Err(e) => Err(e),
            }
        },
    }
}

/// Parses the recording hotkey from user text: surrounding white space is
/// ignored, letters are compared in lowercase, parts are separated by `+` or
/// `-`, empty parts are skipped, `ctrl`/`control`, `shift`, `alt`/`option`
/// and `cmd`/`command`/`meta`/`super` name modifiers and the last other part
/// names the key.
pub fn parse_record_hotkey(input: &str) -> (res: Result<Hotkey, AppError>)
    ensures
        is_outcome(res, hotkey_of(lowercase(trim(input@)))),
{
    let trimmed = trim_string(input);
    let normalized = to_lowercase(trimmed.as_str());
    parse_normalized_hotkey(normalized.as_str())
}

/// White space around a hotkey text does not matter: a text with white
/// space added at either end denotes what the text itself denotes.
pub proof fn surrounding_white_space_is_ignored(w1: Seq<char>, s: Seq<char>, w2: Seq<char>)
    requires
        all_white_space(w1),
        all_white_space(w2),
    ensures
        record_hotkey_of(w1 + s + w2) == record_hotkey_of(s),
{
    trim_ignores_surrounding_white_space(w1, s, w2);
}

/// The hotkey to bind, and the error of the configured text when it was
/// refused.
#[derive(Debug)]
pub struct HotkeyChoice {
    pub hotkey: Result<Hotkey, AppError>,
    pub rejected: Option<AppError>,
}

/// What a hotkey text denotes once trimmed and lowercased.
pub open spec fn record_hotkey_of(text: Seq<char>) -> Result<Hotkey, Seq<char>> {
    hotkey_of(lowercase(trim(text)))
}

/// The hotkey to bind for the configured text: the configured hotkey when it
/// parses; otherwise the default hotkey, with the error of the configured
/// text handed back so that it can be reported.
pub fn select_record_hotkey(configured: &str) -> (res: HotkeyChoice)
    ensures
        record_hotkey_of(configured@) is Ok ==> is_outcome(res.hotkey, record_hotkey_of(configured@))
            && res.rejected is None,
        record_hotkey_of(configured@) is Err ==> (res.rejected matches Some(e) && is_outcome(
            Err(e),
            record_hotkey_of(configured@),
        ) && is_outcome(res.hotkey, record_hotkey_of("Cmd+Shift+V"@))),
{
    match parse_record_hotkey(configured) {
        Ok(h) => HotkeyChoice { hotkey: Ok(h), rejected: None },
        Err(e) => {
            let fallback = default_record_hotkey();
            HotkeyChoice { hotkey: parse_record_hotkey(fallback.as_str()), rejected: Some(e) }
        },
    }
}

/// `s` with every `-` written as `+`.
pub open spec fn dashes_as_plus(s: Seq<char>) -> Seq<char> {
    s.map_values(|c: char| if c == '-' { '+' } else { c })
}

proof fn lemma_split_parts_dashes(s: Seq<char>)
    ensures
        split_parts(dashes_as_plus(s)) == split_parts(s),
    decreases s.len(),
{
    if s.len() > 0 {
        assert(dashes_as_plus(s).drop_last() == dashes_as_plus(s.drop_last()));
        lemma_split_parts_dashes(s.drop_last());
    }
}

/// `+` and `-` are interchangeable as separators: writing every `-` as `+`
/// does not change what a hotkey text denotes.
pub proof fn dash_and_plus_separate_alike(s: Seq<char>)
    ensures
        hotkey_of(dashes_as_plus(s)) == hotkey_of(s),
{
    lemma_split_parts_dashes(s);
}

/// A separator at the end is ignored: `ctrl+v+` denotes what `ctrl+v` does.
pub proof fn trailing_separator_is_ignored(s: Seq<char>)
    requires
        s.len() > 0,
    ensures
        hotkey_of(s.push('+')) == hotkey_of(s),
{
    let t = s.push('+');
    assert(t.drop_last() == s);
    lemma_split_parts_len(s);
    assert(split_parts(t) == split_parts(s).push(Seq::<char>::empty()));
    assert(split_parts(t).drop_last() == split_parts(s));
}

proof fn lemma_split_parts_leading_separator(s: Seq<char>)
    ensures
        split_parts(seq!['+'] + s) == seq![Seq::<char>::empty()] + split_parts(s),
    decreases s.len(),
{
    let t = seq!['+'] + s;
    if s.len() == 0 {
        assert(t.drop_last() == Seq::<char>::empty());
        assert(t.last() == '+');
        assert(split_parts(Seq::<char>::empty()) == seq![Seq::<char>::empty()]);
        assert(split_parts(t.drop_last()) == seq![Seq::<char>::empty()]);
        assert(split_parts(t) == seq![Seq::<char>::empty()].push(Seq::<char>::empty()));
        assert(s == Seq::<char>::empty());
        assert(split_parts(s) == seq![Seq::<char>::empty()]);
        assert(seq![Seq::<char>::empty()] + split_parts(s) == seq![Seq::<char>::empty()].push(Seq::<char>::empty()));
    } else {
        assert(t.drop_last() == seq!['+'] + s.drop_last());
        assert(t.last() == s.last());
        lemma_split_parts_leading_separator(s.drop_last());
        lemma_split_parts_len(s.drop_last());
        let p = split_parts(s.drop_last());
        let e = seq![Seq::<char>::empty()];
        assert(split_parts(t.drop_last()) == e + p);
        assert((e + p).last() == p.last());
        assert((e + p).len() == p.len() + 1);
        if is_separator(s.last()) {
            assert(split_parts(t) == (e + p).push(Seq::<char>::empty()));
            assert(split_parts(s) == p.push(Seq::<char>::empty()));
            assert((e + p).push(Seq::<char>::empty()) == e + p.push(Seq::<char>::empty()));
        } else {
            assert(split_parts(t) == (e + p).update(p.len() as int, p.last().push(s.last())));
            assert(split_parts(s) == p.update(p.len() - 1, p.last().push(s.last())));
            assert((e + p).update(p.len() as int, p.last().push(s.last())) == e + p.update(
                p.len() - 1,
                p.last().push(s.last()),
            ));
        }
    }
}

proof fn lemma_fold_skips_leading_empty(ps: Seq<Seq<char>>)
    ensures
        fold_parts(seq![Seq::<char>::empty()] + ps) == fold_parts(ps),
    decreases ps.len(),
{
    let e = seq![Seq::<char>::empty()];
    if ps.len() == 0 {
        assert((e + ps).drop_last() == Seq::<Seq<char>>::empty());
        assert((e + ps).last() == Seq::<char>::empty());
        assert(fold_parts(e + ps) == apply_part(fold_parts(Seq::<Seq<char>>::empty()), Seq::<char>::empty()));
    } else {
        assert((e + ps).drop_last() == e + ps.drop_last());
        assert((e + ps).last() == ps.last());
        lemma_fold_skips_leading_empty(ps.drop_last());
        assert(fold_parts(e + ps) == apply_part(fold_parts(e + ps.drop_last()), ps.last()));
    }
}

/// A separator at the start is ignored: `+ctrl+v` denotes what `ctrl+v`
/// does.
pub proof fn leading_separator_is_ignored(s: Seq<char>)
    requires
        s.len() > 0,
    ensures
        hotkey_of(seq!['+'] + s) == hotkey_of(s),
{
    lemma_split_parts_leading_separator(s);
    lemma_fold_skips_leading_empty(split_parts(s));
}

/// The non-empty parts of a list of parts, in order.
pub open spec fn nonempty_parts(ps: Seq<Seq<char>>) -> Seq<Seq<char>>
    decreases ps.len(),
{
    if ps.len() == 0 {
        ps
    } else if ps.last().len() == 0 {
        nonempty_parts(ps.drop_last())
    } else {
        nonempty_parts(ps.drop_last()).push(ps.last())
    }
}

proof fn lemma_fold_nonempty(ps: Seq<Seq<char>>)
    ensures
        fold_parts(ps) == fold_parts(nonempty_parts(ps)),
    decreases ps.len(),
{
    if ps.len() > 0 {
        lemma_fold_nonempty(ps.drop_last());
        if ps.last().len() != 0 {
            let q = nonempty_parts(ps.drop_last()).push(ps.last());
            assert(q.drop_last() == nonempty_parts(ps.drop_last()));
        }
    }
}

/// Empty parts do not matter: two non-empty hotkey texts whose non-empty
/// parts are the same, in the same order, denote the same hotkey (or are
/// refused alike), however many separators stand between, before or after
/// the parts.
pub proof fn only_nonempty_parts_matter(s: Seq<char>, t: Seq<char>)
    requires
        s.len() > 0,
        t.len() > 0,
        nonempty_parts(split_parts(s)) == nonempty_parts(split_parts(t)),
    ensures
        hotkey_of(s) == hotkey_of(t),
{
    lemma_fold_nonempty(split_parts(s));
    lemma_fold_nonempty(split_parts(t));
}

/// A part that names a modifier.
pub open spec fn is_modifier_name(p: Seq<char>) -> bool {
    p == "ctrl"@ || p == "control"@ || p == "shift"@ || p == "alt"@ || p == "option"@ || p
        == "cmd"@ || p == "command"@ || p == "meta"@ || p == "super"@
}

/// No separator occurs in `p`.
pub open spec fn free_of_separators(p: Seq<char>) -> bool {
    forall|i: int| 0 <= i < p.len() ==> !is_separator(p[i])
}

/// Parts joined by `+`.
pub open spec fn join_parts(ps: Seq<Seq<char>>) -> Seq<char>
    decreases ps.len(),
{
    if ps.len() == 0 {
        Seq::<char>::empty()
    } else if ps.len() == 1 {
        ps[0]
    } else {
        join_parts(ps.drop_last()) + seq!['+'] + ps.last()
    }
}

/// The modifiers and key named by `ps`, starting from `acc`.
pub open spec fn fold_from(acc: (Modifiers, Option<Seq<char>>), ps: Seq<Seq<char>>) -> (
    Modifiers,
    Option<Seq<char>>,
)
    decreases ps.len(),
{
    if ps.len() == 0 {
        acc
    } else {
        apply_part(fold_from(acc, ps.drop_last()), ps.last())
    }
}

proof fn lemma_fold_parts_from(ps: Seq<Seq<char>>)
    ensures
        fold_parts(ps) == fold_from((no_modifiers(), None), ps),
    decreases ps.len(),
{
    if ps.len() > 0 {
        lemma_fold_parts_from(ps.drop_last());
    }
}

proof fn lemma_fold_from_concat(acc: (Modifiers, Option<Seq<char>>), x: Seq<Seq<char>>, y: Seq<Seq<char>>)
    ensures
        fold_from(acc, x + y) == fold_from(fold_from(acc, x), y),
    decreases y.len(),
{
    if y.len() == 0 {
        assert(x + y == x);
    } else {
        assert((x + y).drop_last() == x + y.drop_last());
        assert((x + y).last() == y.last());
        lemma_fold_from_concat(acc, x, y.drop_last());
    }
}

proof fn lemma_modifier_names()
    ensures
        "ctrl"@.len() == 4,
        "control"@.len() == 7,
        "shift"@.len() == 5,
        "alt"@.len() == 3,
        "option"@.len() == 6,
        "cmd"@.len() == 3,
        "command"@.len() == 7,
        "meta"@.len() == 4,
        "super"@.len() == 5,
        "ctrl"@ != "shift"@ && "ctrl"@ != "alt"@ && "ctrl"@ != "option"@ && "ctrl"@ != "cmd"@
            && "ctrl"@ != "command"@ && "ctrl"@ != "meta"@ && "ctrl"@ != "super"@,
        "control"@ != "shift"@ && "control"@ != "alt"@ && "control"@ != "option"@ && "control"@
            != "cmd"@ && "control"@ != "command"@ && "control"@ != "meta"@ && "control"@
            != "super"@,
        "shift"@ != "alt"@ && "shift"@ != "option"@ && "shift"@ != "cmd"@ && "shift"@
            != "command"@ && "shift"@ != "meta"@ && "shift"@ != "super"@,
        "alt"@ != "cmd"@ && "alt"@ != "command"@ && "alt"@ != "meta"@ && "alt"@ != "super"@,
        "option"@ != "cmd"@ && "option"@ != "command"@ && "option"@ != "meta"@ && "option"@
            != "super"@,
        forall|p: Seq<char>| is_modifier_name(p) ==> #[trigger] free_of_separators(p),
{
    reveal_strlit("ctrl");
    reveal_strlit("control");
    reveal_strlit("shift");
    reveal_strlit("alt");
    reveal_strlit("option");
    reveal_strlit("cmd");
    reveal_strlit("command");
    reveal_strlit("meta");
    reveal_strlit("super");
    assert("ctrl"@[0] != "shift"@[0]);
    assert("ctrl"@[0] != "alt"@[0]);
    assert("ctrl"@[0] != "option"@[0]);
    assert("ctrl"@[1] != "cmd"@[1]);
    assert("ctrl"@[1] != "command"@[1]);
    assert("ctrl"@[0] != "meta"@[0]);
    assert("ctrl"@[0] != "super"@[0]);
    assert("control"@[0] != "shift"@[0]);
    assert("control"@[0] != "alt"@[0]);
    assert("control"@[0] != "option"@[0]);
    assert("control"@[1] != "cmd"@[1]);
    assert("control"@[2] != "command"@[2]);
    assert("control"@[0] != "meta"@[0]);
    assert("control"@[0] != "super"@[0]);
    assert("shift"@[0] != "alt"@[0]);
    assert("shift"@[0] != "option"@[0]);
    assert("shift"@[0] != "cmd"@[0]);
    assert("shift"@[0] != "command"@[0]);
    assert("shift"@[0] != "meta"@[0]);
    assert("shift"@[1] != "super"@[1]);
    assert("alt"@[0] != "cmd"@[0]);
    assert("alt"@[0] != "command"@[0]);
    assert("alt"@[0] != "meta"@[0]);
    assert("alt"@[0] != "super"@[0]);
    assert("option"@[0] != "cmd"@[0]);
    assert("option"@[0] != "command"@[0]);
    assert("option"@[0] != "meta"@[0]);
    assert("option"@[0] != "super"@[0]);
}

proof fn lemma_modifiers_commute(acc: (Modifiers, Option<Seq<char>>), a: Seq<char>, b: Seq<char>)
    requires
        is_modifier_name(a),
        is_modifier_name(b),
    ensures
        apply_part(apply_part(acc, a), b) == apply_part(apply_part(acc, b), a),
        apply_part(apply_part(acc, a), a) == apply_part(acc, a),
        apply_part(acc, a).1 == acc.1,
{
    lemma_modifier_names();
}

proof fn lemma_split_single(p: Seq<char>)
    requires
        free_of_separators(p),
    ensures
        split_parts(p) == seq![p],
    decreases p.len(),
{
    if p.len() > 0 {
        lemma_split_single(p.drop_last());
        assert(p.drop_last().push(p.last()) == p);
        assert(!is_separator(p.last()));
        assert(seq![p.drop_last()].update(0, p.drop_last().push(p.last())) == seq![p]);
    } else {
        assert(p == Seq::<char>::empty());
    }
}

proof fn lemma_split_append(s: Seq<char>, p: Seq<char>)
    requires
        free_of_separators(p),
    ensures
        split_parts(s + seq!['+'] + p) == split_parts(s).push(p),
    decreases p.len(),
{
    let t = s + seq!['+'] + p;
    if p.len() == 0 {
        assert(t == s.push('+'));
        assert(t.drop_last() == s);
        assert(p == Seq::<char>::empty());
    } else {
        lemma_split_append(s, p.drop_last());
        assert(t.drop_last() == s + seq!['+'] + p.drop_last());
        assert(t.last() == p.last());
        lemma_split_parts_len(s);
        let q = split_parts(s).push(p.drop_last());
        assert(p.drop_last().push(p.last()) == p);
        assert(!is_separator(p.last()));
        assert(q.last() == p.drop_last());
        assert(q.update(q.len() - 1, q.last().push(p.last())) == split_parts(s).push(p));
    }
}

proof fn lemma_split_join(ps: Seq<Seq<char>>)
    requires
        ps.len() >= 1,
        forall|k: int| 0 <= k < ps.len() ==> free_of_separators(#[trigger] ps[k]),
    ensures
        split_parts(join_parts(ps)) == ps,
    decreases ps.len(),
{
    if ps.len() == 1 {
        lemma_split_single(ps[0]);
        assert(seq![ps[0]] == ps);
    } else {
        lemma_split_join(ps.drop_last());
        assert(free_of_separators(ps[ps.len() - 1]));
        lemma_split_append(join_parts(ps.drop_last()), ps.last());
        assert(ps.drop_last().push(ps.last()) == ps);
    }
}

proof fn lemma_join_nonempty(ps: Seq<Seq<char>>, k: int)
    requires
        0 <= k < ps.len(),
        ps[k].len() > 0,
    ensures
        join_parts(ps).len() > 0,
    decreases ps.len(),
{
    if ps.len() > 1 && k < ps.len() - 1 {
        lemma_join_nonempty(ps.drop_last(), k);
    }
}

/// Modifiers may be written in any order and more than once: among parts
/// joined by `+`, swapping two adjacent modifier names, or naming a modifier
/// twice in a row, does not change what the text denotes.
pub proof fn modifier_order_and_repetition_do_not_matter(
    x: Seq<Seq<char>>,
    a: Seq<char>,
    b: Seq<char>,
    y: Seq<Seq<char>>,
)
    requires
        is_modifier_name(a),
        is_modifier_name(b),
        forall|k: int| 0 <= k < x.len() ==> free_of_separators(#[trigger] x[k]),
        forall|k: int| 0 <= k < y.len() ==> free_of_separators(#[trigger] y[k]),
    ensures
        hotkey_of(join_parts(x + seq![a, b] + y)) == hotkey_of(join_parts(x + seq![b, a] + y)),
        hotkey_of(join_parts(x + seq![a, a] + y)) == hotkey_of(join_parts(x + seq![a] + y)),
{
    lemma_modifier_names();
    assert(free_of_separators(a));
    assert(free_of_separators(b));
    let init = (no_modifiers(), None::<Seq<char>>);
    let pab = x + seq![a, b] + y;
    let pba = x + seq![b, a] + y;
    let paa = x + seq![a, a] + y;
    let pa = x + seq![a] + y;
    assert forall|k: int| 0 <= k < pab.len() implies free_of_separators(#[trigger] pab[k]) by {
        if k >= x.len() + 2 {
            assert(pab[k] == y[k - x.len() - 2]);
        }
    }
    assert forall|k: int| 0 <= k < pba.len() implies free_of_separators(#[trigger] pba[k]) by {
        if k >= x.len() + 2 {
            assert(pba[k] == y[k - x.len() - 2]);
        }
    }
    assert forall|k: int| 0 <= k < paa.len() implies free_of_separators(#[trigger] paa[k]) by {
        if k >= x.len() + 2 {
            assert(paa[k] == y[k - x.len() - 2]);
        }
    }
    assert forall|k: int| 0 <= k < pa.len() implies free_of_separators(#[trigger] pa[k]) by {
        if k >= x.len() + 1 {
            assert(pa[k] == y[k - x.len() - 1]);
        }
    }
    lemma_split_join(pab);
    lemma_split_join(pba);
    lemma_split_join(paa);
    lemma_split_join(pa);
    assert(pab[x.len() as int] == a);
    assert(pba[x.len() as int] == b);
    assert(paa[x.len() as int] == a);
    assert(pa[x.len() as int] == a);
    lemma_join_nonempty(pab, x.len() as int);
    lemma_join_nonempty(pba, x.len() as int);
    lemma_join_nonempty(paa, x.len() as int);
    lemma_join_nonempty(pa, x.len() as int);
    lemma_fold_parts_from(pab);
    lemma_fold_parts_from(pba);
    lemma_fold_parts_from(paa);
    lemma_fold_parts_from(pa);
    let fx = fold_from(init, x);
    lemma_fold_from_concat(init, x + seq![a, b], y);
    lemma_fold_from_concat(init, x, seq![a, b]);
    lemma_fold_from_concat(init, x + seq![b, a], y);
    lemma_fold_from_concat(init, x, seq![b, a]);
    lemma_fold_from_concat(init, x + seq![a, a], y);
    lemma_fold_from_concat(init, x, seq![a, a]);
    lemma_fold_from_concat(init, x + seq![a], y);
    lemma_fold_from_concat(init, x, seq![a]);
    assert(seq![a, b].drop_last() == seq![a]);
    assert(seq![b, a].drop_last() == seq![b]);
    assert(seq![a, a].drop_last() == seq![a]);
    assert(seq![a].drop_last() == Seq::<Seq<char>>::empty());
    assert(seq![b].drop_last() == Seq::<Seq<char>>::empty());
    lemma_modifiers_commute(fx, a, b);
    assert(seq![a, b].last() == b);
    assert(seq![b, a].last() == a);
    assert(seq![a, a].last() == a);
    assert(seq![a].last() == a);
    assert(seq![b].last() == b);
    assert(fold_from(fx, Seq::<Seq<char>>::empty()) == fx);
    assert(fold_from(fx, seq![a]) == apply_part(fx, a));
    assert(fold_from(fx, seq![b]) == apply_part(fx, b));
    assert(fold_from(fx, seq![a, b]) == apply_part(apply_part(fx, a), b));
    assert(fold_from(fx, seq![b, a]) == apply_part(apply_part(fx, b), a));
    assert(fold_from(fx, seq![a, a]) == apply_part(apply_part(fx, a), a));
    assert(fold_from(fx, seq![a, b]) == fold_from(fx, seq![b, a]));
    assert(fold_from(fx, seq![a, a]) == fold_from(fx, seq![a]));
}

/// Each single lowercase letter names the key of that same letter, and no
/// other single character names a key: for every character `c`, the text
/// made of `c` alone names a key exactly when `c` is in `a..=z`, and then the
/// key's letter is `c`.
pub proof fn letter_names_its_own_key(c: char)
    ensures
        key_code_of(seq![c]) is Some <==> ('a' <= c && c <= 'z'),
        key_code_of(seq![c]) matches Some(k) ==> key_letter(k) == Some(c),
{
    reveal_strlit("space");
    reveal_strlit("spacebar");
    assert("space"@.len() == 5);
    assert("spacebar"@.len() == 8);
    assert(seq![c].len() == 1);
    assert(seq![c] != "space"@);
    assert(seq![c] != "spacebar"@);
    assert(seq![c][0] == c);
}

/// Every key name names its own key: a name that names a key is `space` or
/// `spacebar` exactly when the key is the space bar, and is otherwise the one
/// letter printed on the key.
pub proof fn key_names_agree_with_keys(k: Seq<char>)
    ensures
        key_code_of(k) matches Some(code) ==> ((code == KeyCode::Space) <==> (k == "space"@ || k
            == "spacebar"@)),
        key_code_of(k) matches Some(code) ==> (code != KeyCode::Space ==> k.len() == 1
            && key_letter(code) == Some(k[0])),
        (k == "space"@ || k == "spacebar"@) ==> key_code_of(k) == Some(KeyCode::Space),
{
    reveal_strlit("space");
    reveal_strlit("spacebar");
    assert("space"@.len() == 5);
    assert("spacebar"@.len() == 8);
}

/// Each modifier name adds its own modifier and nothing else: after a part
/// that is a modifier name, exactly the flag that the name stands for is set
/// in addition to those set before, and the key named so far is kept.
pub proof fn modifier_names_set_their_flag(m: Modifiers, key: Option<Seq<char>>)
    ensures
        apply_part((m, key), "ctrl"@) == (Modifiers { control: true, ..m }, key),
        apply_part((m, key), "control"@) == (Modifiers { control: true, ..m }, key),
        apply_part((m, key), "shift"@) == (Modifiers { shift: true, ..m }, key),
        apply_part((m, key), "alt"@) == (Modifiers { alt: true, ..m }, key),
        apply_part((m, key), "option"@) == (Modifiers { alt: true, ..m }, key),
        apply_part((m, key), "cmd"@) == (Modifiers { super_key: true, ..m }, key),
        apply_part((m, key), "command"@) == (Modifiers { super_key: true, ..m }, key),
        apply_part((m, key), "meta"@) == (Modifiers { super_key: true, ..m }, key),
        apply_part((m, key), "super"@) == (Modifiers { super_key: true, ..m }, key),
{
    lemma_modifier_names();
}

/// An empty part changes nothing, and any other part that is no modifier
/// name becomes the key, replacing the one named before, with the modifiers
/// kept.
pub proof fn other_parts_name_the_key(m: Modifiers, key: Option<Seq<char>>, p: Seq<char>)
    ensures
        p.len() == 0 ==> apply_part((m, key), p) == (m, key),
        p.len() > 0 && !is_modifier_name(p) ==> apply_part((m, key), p) == (m, Some(p)),
{
}

} // verus!
