//! Keyboard key triggers: a keycode plus a modifier mask, written
//! `[mod+]*key`, e.g. `"f1"` or `"shift+cmd+f5"`.

use vstd::prelude::*;

use crate::chars::{
    chars_eq_str, is_first_index, is_whitespace, leading_whitespace, lemma_split_on_step,
    lemma_split_once_concat, split_on, split_once, split_once_chars, trailing_whitespace, trim, trim_chars,
};
use crate::text::{chars_of, decimal, digit_char, lower_seq, push_str, string_from_chars, to_ascii_lowercase};

verus! {

/// Detectable modifier state for a keyboard trigger. `Fn` is absent: it is
/// firmware-internal and unusable as a trigger.
#[derive(Debug, Clone, Copy, Default, PartialEq, Eq, Hash, PartialOrd, Ord, Structural)]
pub struct KeyModifiers {
    /// Shift held.
    pub shift: bool,
    /// Control held.
    pub control: bool,
    /// Option/Alt held.
    pub option: bool,
    /// Command held.
    pub command: bool,
}

/// No modifier held.
pub open spec fn no_modifiers() -> KeyModifiers {
    KeyModifiers { shift: false, control: false, option: false, command: false }
}

impl KeyModifiers {
    /// True when no modifiers are held.
    pub fn is_empty(&self) -> (b: bool)
        ensures
            b == (*self == no_modifiers()),
    {
        !self.shift && !self.control && !self.option && !self.command
    }
}

/// A keyboard trigger: a platform virtual keycode plus the modifiers that
/// must also be held.
#[derive(Debug, Clone, Copy, PartialEq, Eq, Hash, PartialOrd, Ord, Structural)]
pub struct KeyTrigger {
    /// Platform virtual keycode (macOS `kVK_*`).
    pub keycode: u16,
    /// Modifier mask that must also be held.
    pub modifiers: KeyModifiers,
}

/// The top-level `[keyboard]` table: function-key trigger to action.
#[derive(Debug, Clone, Default)]
pub struct KeyboardConfig {
    /// Function-key trigger → action map for the remapper.
    pub bindings: std::collections::BTreeMap<KeyTrigger, crate::binding::action::Action>,
}

/// Error returned when a key trigger does not parse, with its reason.
#[derive(Debug)]
pub struct ParseTriggerError(pub String);

/// The keycode a key name stands for: `esc` and `f1` to `f19`.
pub open spec fn key_code(name: Seq<char>) -> Option<u16> {
    if name == "esc"@ { Some(0x35) }
    else if name == "f1"@ { Some(0x7A) }
    else if name == "f2"@ { Some(0x78) }
    else if name == "f3"@ { Some(0x63) }
    else if name == "f4"@ { Some(0x76) }
    else if name == "f5"@ { Some(0x60) }
    else if name == "f6"@ { Some(0x61) }
    else if name == "f7"@ { Some(0x62) }
    else if name == "f8"@ { Some(0x64) }
    else if name == "f9"@ { Some(0x65) }
    else if name == "f10"@ { Some(0x6D) }
    else if name == "f11"@ { Some(0x67) }
    else if name == "f12"@ { Some(0x6F) }
    else if name == "f13"@ { Some(0x69) }
    else if name == "f14"@ { Some(0x6B) }
    else if name == "f15"@ { Some(0x71) }
    else if name == "f16"@ { Some(0x6A) }
    else if name == "f17"@ { Some(0x40) }
    else if name == "f18"@ { Some(0x4F) }
    else if name == "f19"@ { Some(0x50) }
    else { None }
}

/// The canonical name of a keycode, when it has one.
pub open spec fn key_name(code: u16) -> Option<Seq<char>> {
    if code == 0x35 { Some("esc"@) }
    else if code == 0x7A { Some("f1"@) }
    else if code == 0x78 { Some("f2"@) }
    else if code == 0x63 { Some("f3"@) }
    else if code == 0x76 { Some("f4"@) }
    else if code == 0x60 { Some("f5"@) }
    else if code == 0x61 { Some("f6"@) }
    else if code == 0x62 { Some("f7"@) }
    else if code == 0x64 { Some("f8"@) }
    else if code == 0x65 { Some("f9"@) }
    else if code == 0x6D { Some("f10"@) }
    else if code == 0x67 { Some("f11"@) }
    else if code == 0x6F { Some("f12"@) }
    else if code == 0x69 { Some("f13"@) }
    else if code == 0x6B { Some("f14"@) }
    else if code == 0x71 { Some("f15"@) }
    else if code == 0x6A { Some("f16"@) }
    else if code == 0x40 { Some("f17"@) }
    else if code == 0x4F { Some("f18"@) }
    else if code == 0x50 { Some("f19"@) }
    else { None }
}

/// The macOS virtual keycode of function key F`n` (`kVK_F1` to `kVK_F19` in
/// Carbon's `Events.h`), for `n` from 1 to 19.
pub open spec fn mac_function_keycode(n: nat) -> u16 {
    if n == 1 { 0x7A }
    else if n == 2 { 0x78 }
    else if n == 3 { 0x63 }
    else if n == 4 { 0x76 }
    else if n == 5 { 0x60 }
    else if n == 6 { 0x61 }
    else if n == 7 { 0x62 }
    else if n == 8 { 0x64 }
    else if n == 9 { 0x65 }
    else if n == 10 { 0x6D }
    else if n == 11 { 0x67 }
    else if n == 12 { 0x6F }
    else if n == 13 { 0x69 }
    else if n == 14 { 0x6B }
    else if n == 15 { 0x71 }
    else if n == 16 { 0x6A }
    else if n == 17 { 0x40 }
    else if n == 18 { 0x4F }
    else { 0x50 }
}

/// The name a trigger gives function key F`n`: `f` and the number.
pub open spec fn function_key_name(n: nat) -> Seq<char> {
    seq!['f'] + decimal(n)
}

/// Function-key names follow the platform: `f<n>` is F`n`'s macOS virtual
/// keycode, and that keycode is written back as `f<n>`, for every function
/// key from F1 to F19.
pub proof fn lemma_function_keys_follow_platform(n: nat)
    requires
        1 <= n <= 19,
    ensures
        key_code(function_key_name(n)) == Some(mac_function_keycode(n)),
        key_name(mac_function_keycode(n)) == Some(function_key_name(n)),
{
    reveal_strlit("esc");
    reveal_strlit("f1");
    reveal_strlit("f2");
    reveal_strlit("f3");
    reveal_strlit("f4");
    reveal_strlit("f5");
    reveal_strlit("f6");
    reveal_strlit("f7");
    reveal_strlit("f8");
    reveal_strlit("f9");
    reveal_strlit("f10");
    reveal_strlit("f11");
    reveal_strlit("f12");
    reveal_strlit("f13");
    reveal_strlit("f14");
    reveal_strlit("f15");
    reveal_strlit("f16");
    reveal_strlit("f17");
    reveal_strlit("f18");
    reveal_strlit("f19");
    reveal_with_fuel(decimal, 2);
    let name = function_key_name(n);
    if n < 10 {
        assert(name =~= seq!['f', digit_char(n as int)]);
    } else {
        assert(decimal(n / 10) =~= seq!['1']);
        assert(name =~= seq!['f', '1', digit_char((n % 10) as int)]);
    }
    assert(name.len() >= 2 && name[0] == 'f');
    assert("esc"@ != name);
    if n == 1 { assert(name =~= "f1"@); }
    else if n == 2 { assert(name =~= "f2"@); }
    else if n == 3 { assert(name =~= "f3"@); }
    else if n == 4 { assert(name =~= "f4"@); }
    else if n == 5 { assert(name =~= "f5"@); }
    else if n == 6 { assert(name =~= "f6"@); }
    else if n == 7 { assert(name =~= "f7"@); }
    else if n == 8 { assert(name =~= "f8"@); }
    else if n == 9 { assert(name =~= "f9"@); }
    else if n == 10 { assert(name =~= "f10"@); }
    else if n == 11 { assert(name =~= "f11"@); }
    else if n == 12 { assert(name =~= "f12"@); }
    else if n == 13 { assert(name =~= "f13"@); }
    else if n == 14 { assert(name =~= "f14"@); }
    else if n == 15 { assert(name =~= "f15"@); }
    else if n == 16 { assert(name =~= "f16"@); }
    else if n == 17 { assert(name =~= "f17"@); }
    else if n == 18 { assert(name =~= "f18"@); }
    else { assert(name =~= "f19"@); }
}

/// `esc` is the Escape key, macOS virtual keycode `kVK_Escape` (0x35), and
/// that keycode is written back as `esc`.
pub proof fn lemma_escape_follows_platform()
    ensures
        key_code("esc"@) == Some(0x35u16),
        key_name(0x35) == Some("esc"@),
{
}

/// `m` with the modifier called `name` added: `shift`, `control`/`ctrl`,
/// `option`/`alt` or `command`/`cmd`.
pub open spec fn with_modifier(m: KeyModifiers, name: Seq<char>) -> Option<KeyModifiers> {
    if name == "shift"@ {
        Some(KeyModifiers { shift: true, ..m })
    } else if name == "control"@ || name == "ctrl"@ {
        Some(KeyModifiers { control: true, ..m })
    } else if name == "option"@ || name == "alt"@ {
        Some(KeyModifiers { option: true, ..m })
    } else if name == "command"@ || name == "cmd"@ {
        Some(KeyModifiers { command: true, ..m })
    } else {
        None
    }
}

/// The modifiers named by `parts`, added to `m` in order, or the message for
/// the first unknown one.
pub open spec fn apply_modifiers(parts: Seq<Seq<char>>, m: KeyModifiers) -> Result<KeyModifiers, Seq<char>>
    decreases parts.len(),
{
    if parts.len() == 0 {
        Ok(m)
    } else {
        let name = lower_seq(parts[0]);
        match with_modifier(m, name) {
            Some(next) => apply_modifiers(parts.drop_first(), next),
            None => Err("unknown modifier '"@ + name + "'"@),
        }
    }
}

/// The trimmed `+`-separated segments of a trigger.
pub open spec fn trigger_segments(s: Seq<char>) -> Seq<Seq<char>> {
    split_on(s, '+').map_values(|p: Seq<char>| trim(p))
}

/// What parsing `s` yields: the trigger, or the error message. Every segment
/// must be non-empty; all but the last are modifiers, the last is the key;
/// names are matched case-insensitively.
pub open spec fn parse_trigger(s: Seq<char>) -> Result<KeyTrigger, Seq<char>> {
    let parts = trigger_segments(s);
    if parts.len() == 0 || exists|i: int| 0 <= i < parts.len() && (#[trigger] parts[i]).len() == 0 {
        Err("empty segment"@)
    } else {
        match apply_modifiers(parts.drop_last(), no_modifiers()) {
            Err(e) => Err(e),
            Ok(m) => {
                let name = lower_seq(parts.last());
                match key_code(name) {
                    Some(k) => Ok(KeyTrigger { keycode: k, modifiers: m }),
                    None => Err("unknown key '"@ + name + "'"@),
                }
            },
        }
    }
}

/// The canonical text of a trigger: each held modifier by its full name,
/// then the key, joined by `+`.
pub open spec fn trigger_text(t: KeyTrigger) -> Seq<char> {
    (if t.modifiers.shift { "shift+"@ } else { Seq::empty() })
        + (if t.modifiers.control { "control+"@ } else { Seq::empty() })
        + (if t.modifiers.option { "option+"@ } else { Seq::empty() })
        + (if t.modifiers.command { "command+"@ } else { Seq::empty() })
        + key_name(t.keycode).unwrap()
}

/// The keycode of a lower-case key name.
fn key_code_exec(name: &[char]) -> (k: Option<u16>)
    ensures
        k == key_code(name@),
{
    if chars_eq_str(name, "esc") { Some(0x35) }
    else if chars_eq_str(name, "f1") { Some(0x7A) }
    else if chars_eq_str(name, "f2") { Some(0x78) }
    else if chars_eq_str(name, "f3") { Some(0x63) }
    else if chars_eq_str(name, "f4") { Some(0x76) }
    else if chars_eq_str(name, "f5") { Some(0x60) }
    else if chars_eq_str(name, "f6") { Some(0x61) }
    else if chars_eq_str(name, "f7") { Some(0x62) }
    else if chars_eq_str(name, "f8") { Some(0x64) }
    else if chars_eq_str(name, "f9") { Some(0x65) }
    else if chars_eq_str(name, "f10") { Some(0x6D) }
    else if chars_eq_str(name, "f11") { Some(0x67) }
    else if chars_eq_str(name, "f12") { Some(0x6F) }
    else if chars_eq_str(name, "f13") { Some(0x69) }
    else if chars_eq_str(name, "f14") { Some(0x6B) }
    else if chars_eq_str(name, "f15") { Some(0x71) }
    else if chars_eq_str(name, "f16") { Some(0x6A) }
    else if chars_eq_str(name, "f17") { Some(0x40) }
    else if chars_eq_str(name, "f18") { Some(0x4F) }
    else if chars_eq_str(name, "f19") { Some(0x50) }
    else { None }
}

/// The canonical name of a keycode, when it has one.
pub fn keycode_to_name(code: u16) -> (n: Option<&'static str>)
    ensures
        n matches Some(s) ==> key_name(code) == Some(s@),
        n is None ==> key_name(code) is None,
{
    if code == 0x35 { Some("esc") }
    else if code == 0x7A { Some("f1") }
    else if code == 0x78 { Some("f2") }
    else if code == 0x63 { Some("f3") }
    else if code == 0x76 { Some("f4") }
    else if code == 0x60 { Some("f5") }
    else if code == 0x61 { Some("f6") }
    else if code == 0x62 { Some("f7") }
    else if code == 0x64 { Some("f8") }
    else if code == 0x65 { Some("f9") }
    else if code == 0x6D { Some("f10") }
    else if code == 0x67 { Some("f11") }
    else if code == 0x6F { Some("f12") }
    else if code == 0x69 { Some("f13") }
    else if code == 0x6B { Some("f14") }
    else if code == 0x71 { Some("f15") }
    else if code == 0x6A { Some("f16") }
    else if code == 0x40 { Some("f17") }
    else if code == 0x4F { Some("f18") }
    else if code == 0x50 { Some("f19") }
    else { None }
}

/// `m` with the modifier called `name` (lower-case) added.
fn with_modifier_exec(m: KeyModifiers, name: &[char]) -> (r: Option<KeyModifiers>)
    ensures
        r == with_modifier(m, name@),
{
    if chars_eq_str(name, "shift") {
        Some(KeyModifiers { shift: true, ..m })
    } else if chars_eq_str(name, "control") || chars_eq_str(name, "ctrl") {
        Some(KeyModifiers { control: true, ..m })
    } else if chars_eq_str(name, "option") || chars_eq_str(name, "alt") {
        Some(KeyModifiers { option: true, ..m })
    } else if chars_eq_str(name, "command") || chars_eq_str(name, "cmd") {
        Some(KeyModifiers { command: true, ..m })
    } else {
        None
    }
}

/// The views of a list of character vectors.
pub open spec fn views(v: Seq<Vec<char>>) -> Seq<Seq<char>> {
    v.map_values(|p: Vec<char>| p@)
}

/// The trimmed `+`-separated segments of `s`.
fn segments(s: &[char]) -> (parts: Vec<Vec<char>>)
    ensures
        views(parts@) == trigger_segments(s@),
{
    let mut parts: Vec<Vec<char>> = Vec::new();
    let mut rest: Vec<char> = sub_all(s);
    loop
        invariant
            views(parts@) + split_on(rest@, '+').map_values(|p: Seq<char>| trim(p)) == trigger_segments(s@),
        decreases rest@.len(),
    {
        proof { lemma_split_on_step(rest@, '+'); }
        match split_once_chars(rest.as_slice(), '+') {
            Some((a, b)) => {
                let ghost before = parts@;
                parts.push(trim_chars(a.as_slice()));
                proof {
                    assert(views(parts@) =~= views(before).push(trim(a@)));
                    assert(split_on(rest@, '+').map_values(|p: Seq<char>| trim(p))
                        =~= seq![trim(a@)] + split_on(b@, '+').map_values(|p: Seq<char>| trim(p)));
                    assert(views(parts@) + split_on(b@, '+').map_values(|p: Seq<char>| trim(p))
                        =~= views(before) + split_on(rest@, '+').map_values(|p: Seq<char>| trim(p)));
                    let i = choose|i: int| crate::chars::is_first_index(rest@, '+', i);
                    assert(b@.len() < rest@.len());
                }
                rest = b;
            },
            None => {
                let ghost before = parts@;
                parts.push(trim_chars(rest.as_slice()));
                proof {
                    assert(views(parts@) =~= views(before).push(trim(rest@)));
                    assert(split_on(rest@, '+').map_values(|p: Seq<char>| trim(p)) =~= seq![trim(rest@)]);
                    assert(views(parts@) =~= trigger_segments(s@));
                }
                return parts;
            },
        }
    }
}

/// A copy of all of `s`.
fn sub_all(s: &[char]) -> (r: Vec<char>)
    ensures
        r@ == s@,
{
    let r = crate::chars::sub_chars(s, 0, s.len());
    assert(r@ =~= s@);
    r
}

/// The ASCII lower-cased copy of `s`.
fn lower_chars(s: &[char]) -> (r: Vec<char>)
    ensures
        r@ == lower_seq(s@),
{
    let mut r: Vec<char> = Vec::new();
    let mut i: usize = 0;
    while i < s.len()
        invariant
            i <= s@.len(),
            r@ == lower_seq(s@).subrange(0, i as int),
        decreases s@.len() - i,
    {
        r.push(crate::text::lower_char_exec(s[i]));
        assert(r@ =~= lower_seq(s@).subrange(0, i + 1));
        i = i + 1;
    }
    assert(r@ =~= lower_seq(s@));
    r
}

/// The error message `prefix + name + "'"`.
fn quoted_error(prefix: &str, name: &[char]) -> (e: ParseTriggerError)
    ensures
        e.0@ == prefix@ + name@ + "'"@,
{
    let mut m = String::new();
    push_str(&mut m, prefix);
    let n = string_from_chars(name);
    push_str(&mut m, n.as_str());
    push_str(&mut m, "'");
    ParseTriggerError(m)
}

impl KeyTrigger {
    /// Parse `[mod+]*key`. Modifier names: `shift`, `control` (alias
    /// `ctrl`), `option` (alias `alt`), `command` (alias `cmd`); key names:
    /// `esc`, `f1`..`f19`; case-insensitive, with whitespace around each
    /// segment ignored.
    pub fn parse(s: &str) -> (r: Result<KeyTrigger, ParseTriggerError>)
        ensures
            parse_trigger(s@) matches Ok(t) ==> r == Ok::<KeyTrigger, ParseTriggerError>(t),
            parse_trigger(s@) matches Err(m) ==> r matches Err(e) && e.0@ == m,
    {
        let chars = chars_of(s);
        let parts = segments(chars.as_slice());
        let ghost segs = trigger_segments(s@);
        let n = parts.len();
        let mut i: usize = 0;
        while i < n
            invariant
                n == parts@.len(),
                views(parts@) == segs,
                segs == trigger_segments(s@),
                i <= n,
                forall|j: int| 0 <= j < i ==> (#[trigger] segs[j]).len() > 0,
            decreases n - i,
        {
            assert(segs[i as int] == parts@[i as int]@);
            if parts[i].len() == 0 {
                let mut m = String::new();
                push_str(&mut m, "empty segment");
                return Err(ParseTriggerError(m));
            }
            i = i + 1;
        }
        if n == 0 {
            let mut m = String::new();
            push_str(&mut m, "empty segment");
            return Err(ParseTriggerError(m));
        }
        let ghost mods_parts = segs.drop_last();
        let mut mods = KeyModifiers { shift: false, control: false, option: false, command: false };
        let mut i: usize = 0;
        assert(mods_parts.subrange(0, mods_parts.len() as int) =~= mods_parts);
        while i < n - 1
            invariant
                n == parts@.len(),
                n >= 1,
                views(parts@) == segs,
                mods_parts == segs.drop_last(),
                segs == trigger_segments(s@),
                segs.len() == n,
                forall|j: int| 0 <= j < n ==> (#[trigger] segs[j]).len() > 0,
                i <= n - 1,
                apply_modifiers(mods_parts, no_modifiers())
                    == apply_modifiers(mods_parts.subrange(i as int, mods_parts.len() as int), mods),
            decreases n - 1 - i,
        {
            assert(mods_parts.subrange(i as int, mods_parts.len() as int).drop_first()
                =~= mods_parts.subrange(i + 1, mods_parts.len() as int));
            assert(mods_parts[i as int] == parts@[i as int]@);
            let name = lower_chars(parts[i].as_slice());
            match with_modifier_exec(mods, name.as_slice()) {
                Some(next) => mods = next,
                None => return Err(quoted_error("unknown modifier '", name.as_slice())),
            }
            i = i + 1;
        }
        assert(segs.last() == parts@[n - 1]@);
        let key = lower_chars(parts[n - 1].as_slice());
        match key_code_exec(key.as_slice()) {
            Some(keycode) => Ok(KeyTrigger { keycode, modifiers: mods }),
            None => Err(quoted_error("unknown key '", key.as_slice())),
        }
    }

    /// The canonical text of this trigger. A keycode without a name has no
    /// text.
    pub fn to_string(&self) -> (s: String)
        requires
            key_name(self.keycode) is Some,
        ensures
            s@ == trigger_text(*self),
    {
        let mut s = String::new();
        if self.modifiers.shift {
            push_str(&mut s, "shift+");
        }
        if self.modifiers.control {
            push_str(&mut s, "control+");
        }
        if self.modifiers.option {
            push_str(&mut s, "option+");
        }
        if self.modifiers.command {
            push_str(&mut s, "command+");
        }
        match keycode_to_name(self.keycode) {
            Some(name) => push_str(&mut s, name),
            None => {},
        }
        assert(s@ =~= trigger_text(*self));
        s
    }
}

impl std::str::FromStr for KeyTrigger {
    type Err = ParseTriggerError;

    fn from_str(s: &str) -> (r: Result<Self, Self::Err>)
        ensures
            parse_trigger(s@) matches Ok(t) ==> r == Ok::<KeyTrigger, ParseTriggerError>(t),
            parse_trigger(s@) matches Err(m) ==> r matches Err(e) && e.0@ == m,
    {
        KeyTrigger::parse(s)
    }
}

/// Whether every character of `s` is a lower-case ASCII letter or a digit.
pub open spec fn is_plain_word(s: Seq<char>) -> bool {
    s.len() > 0 && forall|i: int| 0 <= i < s.len() ==> ('a' <= #[trigger] s[i] <= 'z' || '0' <= s[i] <= '9')
}

proof fn lemma_plain_word(s: Seq<char>)
    requires
        is_plain_word(s),
    ensures
        lower_seq(s) == s,
        trim(s) == s,
        split_on(s, '+') == seq![s],
{
    assert(lower_seq(s) =~= s);
    assert(leading_whitespace(s) == 0);
    assert(trailing_whitespace(s) == 0);
    assert(s.subrange(0, s.len() as int) =~= s);
    assert(!exists|i: int| is_first_index(s, '+', i));
}

proof fn lemma_split_after_word(a: Seq<char>, rest: Seq<char>)
    requires
        is_plain_word(a),
    ensures
        split_on(a + seq!['+'] + rest, '+') == seq![a] + split_on(rest, '+'),
{
    lemma_split_once_concat(a, '+', rest);
    lemma_split_on_step(a + seq!['+'] + rest, '+');
}

/// `rest`, preceded by `name` and a `+` when `held`.
pub open spec fn with_prefix(held: bool, name: Seq<char>, rest: Seq<char>) -> Seq<char> {
    if held { name + seq!['+'] + rest } else { rest }
}

/// `rest`, preceded by `name` when `held`.
pub open spec fn with_part(held: bool, name: Seq<char>, rest: Seq<Seq<char>>) -> Seq<Seq<char>> {
    if held { seq![name] + rest } else { rest }
}

proof fn lemma_apply_concat(p1: Seq<Seq<char>>, p2: Seq<Seq<char>>, m: KeyModifiers)
    ensures
        apply_modifiers(p1 + p2, m) == (match apply_modifiers(p1, m) {
            Ok(m1) => apply_modifiers(p2, m1),
            Err(e) => Err(e),
        }),
    decreases p1.len(),
{
    if p1.len() > 0 {
        assert((p1 + p2).drop_first() =~= p1.drop_first() + p2);
        assert((p1 + p2)[0] == p1[0]);
        let name = lower_seq(p1[0]);
        match with_modifier(m, name) {
            Some(next) => lemma_apply_concat(p1.drop_first(), p2, next),
            None => {},
        }
    } else {
        assert(p1 + p2 =~= p2);
    }
}

proof fn lemma_key_name(c: u16)
    requires
        key_name(c) is Some,
    ensures
        is_plain_word(key_name(c).unwrap()),
        key_code(key_name(c).unwrap()) == Some(c),
{
    reveal_strlit("esc");
    reveal_strlit("f1");
    reveal_strlit("f2");
    reveal_strlit("f3");
    reveal_strlit("f4");
    reveal_strlit("f5");
    reveal_strlit("f6");
    reveal_strlit("f7");
    reveal_strlit("f8");
    reveal_strlit("f9");
    reveal_strlit("f10");
    reveal_strlit("f11");
    reveal_strlit("f12");
    reveal_strlit("f13");
    reveal_strlit("f14");
    reveal_strlit("f15");
    reveal_strlit("f16");
    reveal_strlit("f17");
    reveal_strlit("f18");
    reveal_strlit("f19");
    assert("esc"@[0] == 'e');
    assert("f1"@[1] == '1' && "f2"@[1] == '2' && "f3"@[1] == '3' && "f4"@[1] == '4' && "f5"@[1] == '5');
    assert("f6"@[1] == '6' && "f7"@[1] == '7' && "f8"@[1] == '8' && "f9"@[1] == '9');
    assert("f10"@[0] == 'f' && "f11"@[0] == 'f' && "f12"@[0] == 'f' && "f13"@[0] == 'f' && "f14"@[0] == 'f');
    assert("f15"@[0] == 'f' && "f16"@[0] == 'f' && "f17"@[0] == 'f' && "f18"@[0] == 'f' && "f19"@[0] == 'f');
    assert("f10"@[2] == '0' && "f11"@[2] == '1' && "f12"@[2] == '2' && "f13"@[2] == '3' && "f14"@[2] == '4');
    assert("f15"@[2] == '5' && "f16"@[2] == '6' && "f17"@[2] == '7' && "f18"@[2] == '8' && "f19"@[2] == '9');
    let n = key_name(c).unwrap();
    assert(is_plain_word(n));
}

proof fn lemma_modifier_word(m: KeyModifiers)
    ensures
        is_plain_word("shift"@),
        is_plain_word("control"@),
        is_plain_word("option"@),
        is_plain_word("command"@),
        with_modifier(m, "shift"@) == Some(KeyModifiers { shift: true, ..m }),
        with_modifier(m, "control"@) == Some(KeyModifiers { control: true, ..m }),
        with_modifier(m, "option"@) == Some(KeyModifiers { option: true, ..m }),
        with_modifier(m, "command"@) == Some(KeyModifiers { command: true, ..m }),
        "shift+"@ == "shift"@ + seq!['+'],
        "control+"@ == "control"@ + seq!['+'],
        "option+"@ == "option"@ + seq!['+'],
        "command+"@ == "command"@ + seq!['+'],
{
    reveal_strlit("shift");
    reveal_strlit("control");
    reveal_strlit("ctrl");
    reveal_strlit("option");
    reveal_strlit("alt");
    reveal_strlit("command");
    reveal_strlit("cmd");
    reveal_strlit("shift+");
    reveal_strlit("control+");
    reveal_strlit("option+");
    reveal_strlit("command+");
    assert(is_plain_word("shift"@));
    assert(is_plain_word("control"@));
    assert(is_plain_word("option"@));
    assert(is_plain_word("command"@));
    assert("command"@[2] == 'm' && "control"@[2] == 'n');
    assert("shift+"@ =~= "shift"@ + seq!['+']);
    assert("control+"@ =~= "control"@ + seq!['+']);
    assert("option+"@ =~= "option"@ + seq!['+']);
    assert("command+"@ =~= "command"@ + seq!['+']);
}

proof fn lemma_apply_one(name: Seq<char>, m: KeyModifiers)
    requires
        is_plain_word(name),
        with_modifier(m, name) is Some,
    ensures
        apply_modifiers(seq![name], m) == Ok::<KeyModifiers, Seq<char>>(with_modifier(m, name).unwrap()),
{
    reveal_with_fuel(apply_modifiers, 2);
    lemma_plain_word(name);
    assert(seq![name].drop_first() =~= Seq::<Seq<char>>::empty());
    assert(seq![name][0] == name);
}

proof fn lemma_split_with_prefix(held: bool, name: Seq<char>, rest: Seq<char>)
    requires
        is_plain_word(name),
    ensures
        split_on(with_prefix(held, name, rest), '+') == with_part(held, name, split_on(rest, '+')),
{
    if held {
        lemma_split_after_word(name, rest);
    }
}

proof fn lemma_apply_with_part(held: bool, name: Seq<char>, rest: Seq<Seq<char>>, m: KeyModifiers)
    requires
        is_plain_word(name),
        with_modifier(m, name) is Some,
    ensures
        apply_modifiers(with_part(held, name, rest), m)
            == apply_modifiers(rest, if held { with_modifier(m, name).unwrap() } else { m }),
{
    if held {
        lemma_apply_one(name, m);
        lemma_apply_concat(seq![name], rest, m);
    }
}

/// The names of the modifiers held in `m`, in canonical order.
pub open spec fn modifier_names(m: KeyModifiers) -> Seq<Seq<char>> {
    with_part(m.shift, "shift"@, with_part(m.control, "control"@,
        with_part(m.option, "option"@, with_part(m.command, "command"@, Seq::<Seq<char>>::empty()))))
}

proof fn lemma_text_splits(t: KeyTrigger)
    requires
        key_name(t.keycode) is Some,
    ensures
        split_on(trigger_text(t), '+') == modifier_names(t.modifiers).push(key_name(t.keycode).unwrap()),
{
    let m = t.modifiers;
    let key = key_name(t.keycode).unwrap();
    lemma_key_name(t.keycode);
    lemma_plain_word(key);
    lemma_modifier_word(m);
    let t4 = with_prefix(m.command, "command"@, key);
    let t3 = with_prefix(m.option, "option"@, t4);
    let t2 = with_prefix(m.control, "control"@, t3);
    let t1 = with_prefix(m.shift, "shift"@, t2);
    assert(trigger_text(t) =~= t1);
    lemma_split_with_prefix(m.command, "command"@, key);
    lemma_split_with_prefix(m.option, "option"@, t4);
    lemma_split_with_prefix(m.control, "control"@, t3);
    lemma_split_with_prefix(m.shift, "shift"@, t2);
    assert(split_on(t1, '+') =~= modifier_names(m).push(key));
}

proof fn lemma_names_apply(m: KeyModifiers)
    ensures
        apply_modifiers(modifier_names(m), no_modifiers()) == Ok::<KeyModifiers, Seq<char>>(m),
{
    let e = Seq::<Seq<char>>::empty();
    let m0 = no_modifiers();
    let m1 = if m.shift { KeyModifiers { shift: true, ..m0 } } else { m0 };
    let m2 = if m.control { KeyModifiers { control: true, ..m1 } } else { m1 };
    let m3 = if m.option { KeyModifiers { option: true, ..m2 } } else { m2 };
    let m4 = if m.command { KeyModifiers { command: true, ..m3 } } else { m3 };
    lemma_modifier_word(m0);
    lemma_modifier_word(m1);
    lemma_modifier_word(m2);
    lemma_modifier_word(m3);
    let p4 = with_part(m.command, "command"@, e);
    let p3 = with_part(m.option, "option"@, p4);
    let p2 = with_part(m.control, "control"@, p3);
    lemma_apply_with_part(m.shift, "shift"@, p2, m0);
    lemma_apply_with_part(m.control, "control"@, p3, m1);
    lemma_apply_with_part(m.option, "option"@, p4, m2);
    lemma_apply_with_part(m.command, "command"@, e, m3);
    assert(m4 == m);
}

/// Rendering a trigger with a named key and parsing the text back yields the
/// same trigger.
pub proof fn lemma_trigger_text_round_trip(t: KeyTrigger)
    requires
        key_name(t.keycode) is Some,
    ensures
        parse_trigger(trigger_text(t)) == Ok::<KeyTrigger, Seq<char>>(t),
{
    let m = t.modifiers;
    let key = key_name(t.keycode).unwrap();
    lemma_key_name(t.keycode);
    lemma_plain_word(key);
    lemma_modifier_word(m);
    lemma_text_splits(t);
    let names = modifier_names(m);
    let parts = names.push(key);
    assert forall|i: int| 0 <= i < parts.len() implies is_plain_word(#[trigger] parts[i]) by {}
    assert forall|i: int| 0 <= i < parts.len() implies trim(#[trigger] parts[i]) == parts[i] by {
        lemma_plain_word(parts[i]);
    }
    let segs = trigger_segments(trigger_text(t));
    assert(segs =~= parts);
    assert(segs.drop_last() =~= names);
    lemma_names_apply(m);
}

} // verus!
