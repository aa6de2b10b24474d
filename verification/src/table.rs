//! Character-substitution tables: each maps plain characters, by code point,
//! to Unicode lookalikes, and leaves every character it does not know
//! unchanged.

use vstd::prelude::*;
use std::collections::HashMap;
use crate::codec::push_char;

verus! {

broadcast use vstd::std_specs::hash::group_hash_axioms;

/// One character put through a substitution table: replaced when the table
/// knows its code point, itself otherwise.
pub open spec fn translate_char(m: Map<u32, char>, c: char) -> char {
    if m.contains_key(c as u32) {
        m[c as u32]
    } else {
        c
    }
}

/// A whole string put through a substitution table, character for character.
pub open spec fn translate_seq(m: Map<u32, char>, s: Seq<char>) -> Seq<char> {
    s.map(|i: int, c: char| translate_char(m, c))
}

/// A type carrying a substitution table.
pub trait Lookup {
    /// The mathematical content of the table.
    spec fn lookup_spec(&self) -> Map<u32, char>;

    /// The table itself.
    fn lookup(&self) -> (m: &HashMap<u32, char>)
        ensures
            m@ == self.lookup_spec(),
    ;
}

/// Translation through a carried substitution table.
pub trait Translate: Lookup {
    /// Replaces every character the table knows and keeps the rest.
    fn translate(&self, string: &str) -> (r: String)
        ensures
            r@ == translate_seq(self.lookup_spec(), string@),
    ;
}

impl<T: Lookup> Translate for T {
    fn translate(&self, string: &str) -> (r: String) {
        substitute(self.lookup(), string)
    }
}

/// The shared substitution loop behind every table's translation.
pub(crate) fn substitute(m: &HashMap<u32, char>, s: &str) -> (r: String)
    ensures
        r@ == translate_seq(m@, s@),
{
    let n = s.unicode_len();
    let mut out = String::new();
    let mut i: usize = 0;
    while i < n
        invariant
            i <= n,
            n == s@.len(),
            out@ == translate_seq(m@, s@.take(i as int)),
        decreases n - i,
    {
        let c = s.get_char(i);
        let key: u32 = c as u32;
        let t = match m.get(&key) {
            Some(v) => *v,
            None => c,
        };
        push_char(&mut out, t);
        proof {
            assert(t == translate_char(m@, c));
            assert(translate_seq(m@, s@.take(i as int + 1)) =~= translate_seq(
                m@,
                s@.take(i as int),
            ).push(translate_char(m@, c)));
        }
        i = i + 1;
    }
    proof {
        assert(s@.take(n as int) =~= s@);
    }
    out
}

/// A character with the given code point, which the caller shows is a
/// Unicode scalar value.
fn scalar(v: u32) -> (c: char)
    requires
        !(0xD800 <= v && v < 0xE000),
        v <= 0x10FFFF,
    ensures
        c as u32 == v,
        c == (v as char),
{
    match char::from_u32(v) {
        Some(c) => c,
        None => {
            proof {
                assert(false);
            }
            '\u{FFFD}'
        },
    }
}

/// The replacement the blackletter table gives one of its code points:
/// letters land on consecutive code points of the chosen Fraktur run.
pub open spec fn blackletter_sub(bold: bool, k: u32) -> char {
    let base: int = if bold {
        0x1D56C
    } else {
        0x1D504
    };
    if 'A' as u32 <= k && k <= 'Z' as u32 {
        (base + (k - 'A' as u32)) as char
    } else {
        (base + 26 + (k - 'a' as u32)) as char
    }
}

/// The blackletter table: the basic Latin letters, and nothing else, each
/// sent to its Fraktur lookalike.
pub open spec fn blackletter_map(bold: bool) -> Map<u32, char> {
    Map::new(
        |k: u32| ('A' as u32 <= k && k <= 'Z' as u32) || ('a' as u32 <= k && k <= 'z' as u32),
        |k: u32| blackletter_sub(bold, k),
    )
}

/// Latin letters dressed as blackletter (Fraktur), regular or bold.
pub struct Blackletter {
    map: HashMap<u32, char>,
}

impl Blackletter {
    /// The mathematical content of the table.
    pub closed spec fn table(&self) -> Map<u32, char> {
        self.map@
    }

    /// Builds the table: 26 capitals and 26 small letters, each on its own
    /// code point of the chosen Fraktur run.
    pub fn new(bold: bool) -> (r: Blackletter)
        ensures
            r.table() == blackletter_map(bold),
    {
        let base: u32 = if bold {
            0x1D56C
        } else {
            0x1D504
        };
        let mut map: HashMap<u32, char> = HashMap::new();
        let mut k: u32 = 0;
        while k < 26
            invariant
                k <= 26,
                base == (if bold {
                    0x1D56C as u32
                } else {
                    0x1D504 as u32
                }),
                forall|key: u32| #[trigger]
                    map@.contains_key(key) <==> (('A' as u32 <= key && key < 'A' as u32 + k) || (
                    'a' as u32 <= key && key < 'a' as u32 + k)),
                forall|key: u32| #[trigger]
                    map@.contains_key(key) ==> map@[key] == blackletter_sub(bold, key),
            decreases 26 - k,
        {
            let cap = scalar(base + k);
            let small = scalar(base + 26 + k);
            map.insert('A' as u32 + k, cap);
            map.insert('a' as u32 + k, small);
            k = k + 1;
        }
        proof {
            assert(map@ =~= blackletter_map(bold));
        }
        Blackletter { map }
    }

    /// Replaces every letter with its blackletter lookalike and keeps the
    /// rest.
    pub fn translate(&self, s: &str) -> (r: String)
        ensures
            r@ == translate_seq(self.table(), s@),
    {
        substitute(&self.map, s)
    }
}

/// One pass of pair replacement: scanning left to right, every occurrence
/// of the two characters `a`, `b` in a row becomes the single character
/// `r`; matches do not overlap.
pub open spec fn replace_pair(s: Seq<char>, a: char, b: char, r: char) -> Seq<char>
    decreases s.len(),
{
    if s.len() < 2 {
        s
    } else if s[0] == a && s[1] == b {
        seq![r] + replace_pair(s.skip(2), a, b, r)
    } else {
        seq![s[0]] + replace_pair(s.skip(1), a, b, r)
    }
}

/// One pass of pair replacement, running left to right without overlap.
fn replace_adjacent(s: &str, a: char, b: char, r: char) -> (t: String)
    ensures
        t@ == replace_pair(s@, a, b, r),
{
    let n = s.unicode_len();
    let mut t = String::new();
    proof {
        assert(s@.skip(0) =~= s@);
    }
    let mut i: usize = 0;
    while i < n
        invariant
            i <= n,
            n == s@.len(),
            replace_pair(s@, a, b, r) == t@ + replace_pair(s@.skip(i as int), a, b, r),
        decreases n - i,
    {
        let c = s.get_char(i);
        proof {
            assert(s@.skip(i as int)[0] == s@[i as int]);
            if i + 1 < n {
                assert(s@.skip(i as int)[1] == s@[i as int + 1]);
            }
        }
        if i + 1 < n && c == a && s.get_char(i + 1) == b {
            proof {
                assert(s@.skip(i as int).skip(2) =~= s@.skip(i as int + 2));
            }
            push_char(&mut t, r);
            proof {
                assert(t@ + replace_pair(s@.skip(i as int + 2), a, b, r) =~= replace_pair(
                    s@,
                    a,
                    b,
                    r,
                ));
            }
            i = i + 2;
        } else {
            proof {
                assert(s@.skip(i as int).skip(1) =~= s@.skip(i as int + 1));
            }
            push_char(&mut t, c);
            proof {
                assert(t@ + replace_pair(s@.skip(i as int + 1), a, b, r) =~= replace_pair(
                    s@,
                    a,
                    b,
                    r,
                ));
            }
            i = i + 1;
        }
    }
    proof {
        assert(s@.skip(n as int) =~= Seq::<char>::empty());
        assert(t@ =~= replace_pair(s@, a, b, r));
    }
    t
}

/// The space-squeezing passes run before full-width translation: spaces
/// beside punctuation and brackets are folded away, pass after pass, in
/// this order.
pub open spec fn squeeze_spaces(s: Seq<char>) -> Seq<char> {
    let s1 = replace_pair(s, '!', ' ', '!');
    let s2 = replace_pair(s1, ' ', '(', '(');
    let s3 = replace_pair(s2, ')', ' ', ')');
    let s4 = replace_pair(s3, ',', ' ', ',');
    let s5 = replace_pair(s4, '.', ' ', '.');
    let s6 = replace_pair(s5, ':', ' ', ':');
    let s7 = replace_pair(s6, ';', ' ', ';');
    let s8 = replace_pair(s7, '?', ' ', '?');
    let s9 = replace_pair(s8, ' ', '[', '[');
    let s10 = replace_pair(s9, ']', ' ', ']');
    let s11 = replace_pair(s10, ' ', '{', '{');
    replace_pair(s11, '}', ' ', '}')
}

/// The replacement the full-width table gives one of its code points: the
/// space becomes an en space, every other printable ASCII character its
/// full-width form.
pub open spec fn fullwidth_sub(k: u32) -> char {
    if k == ' ' as u32 {
        '\u{2002}'
    } else {
        ((k + 0xFEE0) as int) as char
    }
}

/// The full-width table: the printable ASCII characters, and nothing else.
pub open spec fn fullwidth_map() -> Map<u32, char> {
    Map::new(|k: u32| ' ' as u32 <= k && k <= '~' as u32, |k: u32| fullwidth_sub(k))
}

/// Printable ASCII dressed in full-width forms, with spaces around
/// punctuation squeezed away first.
pub struct FullWidth {
    lookup: HashMap<u32, char>,
}

impl FullWidth {
    /// Folds away spaces beside punctuation and brackets, one replacement
    /// pass after another.
    pub fn sub(&self, s: &str) -> (r: String)
        ensures
            r@ == squeeze_spaces(s@),
    {
        let s1 = replace_adjacent(s, '!', ' ', '!');
        let s2 = replace_adjacent(s1.as_str(), ' ', '(', '(');
        let s3 = replace_adjacent(s2.as_str(), ')', ' ', ')');
        let s4 = replace_adjacent(s3.as_str(), ',', ' ', ',');
        let s5 = replace_adjacent(s4.as_str(), '.', ' ', '.');
        let s6 = replace_adjacent(s5.as_str(), ':', ' ', ':');
        let s7 = replace_adjacent(s6.as_str(), ';', ' ', ';');
        let s8 = replace_adjacent(s7.as_str(), '?', ' ', '?');
        let s9 = replace_adjacent(s8.as_str(), ' ', '[', '[');
        let s10 = replace_adjacent(s9.as_str(), ']', ' ', ']');
        let s11 = replace_adjacent(s10.as_str(), ' ', '{', '{');
        replace_adjacent(s11.as_str(), '}', ' ', '}')
    }
}

impl Default for FullWidth {
    /// Builds the table: each printable ASCII character on its full-width
    /// form, the space on an en space.
    fn default() -> (r: Self)
        ensures
            r.lookup_spec() == fullwidth_map(),
    {
        let mut map: HashMap<u32, char> = HashMap::new();
        let mut k: u32 = '!' as u32;
        while k <= '~' as u32
            invariant
                '!' as u32 <= k <= '~' as u32 + 1,
                forall|key: u32| #[trigger]
                    map@.contains_key(key) <==> ('!' as u32 <= key && key < k),
                forall|key: u32| #[trigger]
                    map@.contains_key(key) ==> map@[key] == fullwidth_sub(key),
            decreases '~' as u32 + 1 - k,
        {
            let wide = scalar(k + 0xFEE0);
            map.insert(k, wide);
            k = k + 1;
        }
        map.insert(' ' as u32, '\u{2002}');
        proof {
            assert(map@ =~= fullwidth_map());
        }
        FullWidth { lookup: map }
    }
}

impl Lookup for FullWidth {
    closed spec fn lookup_spec(&self) -> Map<u32, char> {
        self.lookup@
    }

    fn lookup(&self) -> (m: &HashMap<u32, char>) {
        &self.lookup
    }
}

/// The replacement the monospace table gives one of its code points:
/// letters and digits land on their mathematical monospace forms, the
/// space on an en space.
pub open spec fn mono_sub(k: u32) -> char {
    if 'A' as u32 <= k && k <= 'Z' as u32 {
        ((0x1D670 + (k - 'A' as u32)) as int) as char
    } else if 'a' as u32 <= k && k <= 'z' as u32 {
        ((0x1D68A + (k - 'a' as u32)) as int) as char
    } else if '0' as u32 <= k && k <= '9' as u32 {
        ((0x1D7F6 + (k - '0' as u32)) as int) as char
    } else {
        '\u{2002}'
    }
}

/// The monospace table: Latin letters, digits and the space, and nothing
/// else.
pub open spec fn mono_map() -> Map<u32, char> {
    Map::new(
        |k: u32| ('A' as u32 <= k && k <= 'Z' as u32) || ('a' as u32 <= k && k <= 'z' as u32) || (
            '0' as u32 <= k && k <= '9' as u32) || k == ' ' as u32,
        |k: u32| mono_sub(k),
    )
}

/// Letters and digits dressed in mathematical monospace.
pub struct Mono {
    lookup: HashMap<u32, char>,
}

impl Default for Mono {
    /// Builds the table: letters and digits on their monospace forms, the
    /// space on an en space.
    fn default() -> (r: Self)
        ensures
            r.lookup_spec() == mono_map(),
    {
        let mut map: HashMap<u32, char> = HashMap::new();
        let mut k: u32 = 0;
        while k < 26
            invariant
                k <= 26,
                forall|key: u32| #[trigger]
                    map@.contains_key(key) <==> (('A' as u32 <= key && key < 'A' as u32 + k) || (
                    'a' as u32 <= key && key < 'a' as u32 + k)),
                forall|key: u32| #[trigger]
                    map@.contains_key(key) ==> map@[key] == mono_sub(key),
            decreases 26 - k,
        {
            let cap = scalar(0x1D670 + k);
            let small = scalar(0x1D68A + k);
            map.insert('A' as u32 + k, cap);
            map.insert('a' as u32 + k, small);
            k = k + 1;
        }
        let mut d: u32 = 0;
        while d < 10
            invariant
                d <= 10,
                forall|key: u32| #[trigger]
                    map@.contains_key(key) <==> (('A' as u32 <= key && key <= 'Z' as u32) || (
                    'a' as u32 <= key && key <= 'z' as u32) || ('0' as u32 <= key && key < '0'
                        as u32 + d)),
                forall|key: u32| #[trigger]
                    map@.contains_key(key) ==> map@[key] == mono_sub(key),
            decreases 10 - d,
        {
            let digit = scalar(0x1D7F6 + d);
            map.insert('0' as u32 + d, digit);
            d = d + 1;
        }
        map.insert(' ' as u32, '\u{2002}');
        proof {
            assert(map@ =~= mono_map());
        }
        Mono { lookup: map }
    }
}

impl Lookup for Mono {
    closed spec fn lookup_spec(&self) -> Map<u32, char> {
        self.lookup@
    }

    fn lookup(&self) -> (m: &HashMap<u32, char>) {
        &self.lookup
    }
}

/// The small-capital lookalike of the letter at the given place of the
/// alphabet.  The run is not contiguous in Unicode, so the table is spelled
/// out; the place of X holds a sans-serif bold small x, the nearest
/// lookalike Unicode offers.
pub open spec fn smol_cap(j: int) -> char {
    if j == 0 {
        '\u{1D00}'
    } else if j == 1 {
        '\u{0299}'
    } else if j == 2 {
        '\u{1D04}'
    } else if j == 3 {
        '\u{1D05}'
    } else if j == 4 {
        '\u{1D07}'
    } else if j == 5 {
        '\u{A730}'
    } else if j == 6 {
        '\u{0262}'
    } else if j == 7 {
        '\u{029C}'
    } else if j == 8 {
        '\u{026A}'
    } else if j == 9 {
        '\u{1D0A}'
    } else if j == 10 {
        '\u{1D0B}'
    } else if j == 11 {
        '\u{029F}'
    } else if j == 12 {
        '\u{1D0D}'
    } else if j == 13 {
        '\u{0274}'
    } else if j == 14 {
        '\u{1D0F}'
    } else if j == 15 {
        '\u{1D18}'
    } else if j == 16 {
        '\u{A7AF}'
    } else if j == 17 {
        '\u{0280}'
    } else if j == 18 {
        '\u{A731}'
    } else if j == 19 {
        '\u{1D1B}'
    } else if j == 20 {
        '\u{1D1C}'
    } else if j == 21 {
        '\u{1D20}'
    } else if j == 22 {
        '\u{1D21}'
    } else if j == 23 {
        '\u{1D605}'
    } else if j == 24 {
        '\u{028F}'
    } else {
        '\u{1D22}'
    }
}

/// The replacement the small-caps table gives one of its code points: the
/// small capital at the letter's place of the alphabet, whatever its case.
pub open spec fn smol_sub(k: u32) -> char {
    if 'a' as u32 <= k && k <= 'z' as u32 {
        smol_cap((k - 'a' as u32) as int)
    } else {
        smol_cap((k - 'A' as u32) as int)
    }
}

/// The small-caps table: the basic Latin letters, and nothing else.
pub open spec fn smol_map() -> Map<u32, char> {
    Map::new(
        |k: u32| ('a' as u32 <= k && k <= 'z' as u32) || ('A' as u32 <= k && k <= 'Z' as u32),
        |k: u32| smol_sub(k),
    )
}

/// The small-capital lookalike at one place of the alphabet.
fn cap_of(j: u32) -> (c: char)
    requires
        j < 26,
    ensures
        c == smol_cap(j as int),
{
    if j == 0 {
        '\u{1D00}'
    } else if j == 1 {
        '\u{0299}'
    } else if j == 2 {
        '\u{1D04}'
    } else if j == 3 {
        '\u{1D05}'
    } else if j == 4 {
        '\u{1D07}'
    } else if j == 5 {
        '\u{A730}'
    } else if j == 6 {
        '\u{0262}'
    } else if j == 7 {
        '\u{029C}'
    } else if j == 8 {
        '\u{026A}'
    } else if j == 9 {
        '\u{1D0A}'
    } else if j == 10 {
        '\u{1D0B}'
    } else if j == 11 {
        '\u{029F}'
    } else if j == 12 {
        '\u{1D0D}'
    } else if j == 13 {
        '\u{0274}'
    } else if j == 14 {
        '\u{1D0F}'
    } else if j == 15 {
        '\u{1D18}'
    } else if j == 16 {
        '\u{A7AF}'
    } else if j == 17 {
        '\u{0280}'
    } else if j == 18 {
        '\u{A731}'
    } else if j == 19 {
        '\u{1D1B}'
    } else if j == 20 {
        '\u{1D1C}'
    } else if j == 21 {
        '\u{1D20}'
    } else if j == 22 {
        '\u{1D21}'
    } else if j == 23 {
        '\u{1D605}'
    } else if j == 24 {
        '\u{028F}'
    } else {
        '\u{1D22}'
    }
}

/// Letters dressed as small capitals, whatever their case.
pub struct Smol {
    lookup: HashMap<u32, char>,
}

impl Default for Smol {
    /// Builds the table: both cases of each letter on the same small
    /// capital.
    fn default() -> (r: Self)
        ensures
            r.lookup_spec() == smol_map(),
    {
        let mut map: HashMap<u32, char> = HashMap::new();
        let mut j: u32 = 0;
        while j < 26
            invariant
                j <= 26,
                forall|key: u32| #[trigger]
                    map@.contains_key(key) <==> (('a' as u32 <= key && key < 'a' as u32 + j) || (
                    'A' as u32 <= key && key < 'A' as u32 + j)),
                forall|key: u32| #[trigger]
                    map@.contains_key(key) ==> map@[key] == smol_sub(key),
            decreases 26 - j,
        {
            let cap = cap_of(j);
            map.insert('a' as u32 + j, cap);
            map.insert('A' as u32 + j, cap);
            j = j + 1;
        }
        proof {
            assert(map@ =~= smol_map());
        }
        Smol { lookup: map }
    }
}

impl Lookup for Smol {
    closed spec fn lookup_spec(&self) -> Map<u32, char> {
        self.lookup@
    }

    fn lookup(&self) -> (m: &HashMap<u32, char>) {
        &self.lookup
    }
}

} // verus!
