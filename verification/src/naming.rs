//! Casing rules shared by the renderers.
//!
//! Source identifiers arrive in `snake_case`. A renderer spells them in the
//! casing its target language expects: `PascalCase` for types, `camelCase`
//! for members and parameters, `SCREAMING_SNAKE_CASE` for enum entries.
//! Each rule is a left-to-right pass over the characters; an underscore is
//! dropped and makes the next character start a new word.

use vstd::prelude::*;
use vstd::string::*;

use crate::text::push_char;

verus! {

/// The ASCII upper-case form of `c`; other characters are unchanged.
pub open spec fn upper_spec(c: char) -> char {
    if 'a' <= c && c <= 'z' {
        ((c as u32) - 32) as char
    } else {
        c
    }
}

/// The ASCII lower-case form of `c`; other characters are unchanged.
pub open spec fn lower_spec(c: char) -> char {
    if 'A' <= c && c <= 'Z' {
        ((c as u32) + 32) as char
    } else {
        c
    }
}

/// ASCII upper case of one character.
pub fn ascii_upper(c: char) -> (res: char)
    ensures
        res == upper_spec(c),
{
    if 'a' <= c && c <= 'z' {
        let code: u32 = c as u32;
        let shifted: u8 = (code - 32) as u8;
        shifted as char
    } else {
        c
    }
}

/// ASCII lower case of one character.
pub fn ascii_lower(c: char) -> (res: char)
    ensures
        res == lower_spec(c),
{
    if 'A' <= c && c <= 'Z' {
        let code: u32 = c as u32;
        let shifted: u8 = (code + 32) as u8;
        shifted as char
    } else {
        c
    }
}

/// The word-casing pass over the first `n` characters of `s`: the text
/// produced so far, and whether the next kept character starts a word.
/// An underscore is dropped and starts a word; the first character of a
/// word is upper-cased when `cap_words` holds, and every other character is
/// kept as it is.
pub open spec fn word_pass(s: Seq<char>, n: nat, first_cap: bool) -> (Seq<char>, bool)
    decreases n,
{
    if n == 0 {
        (Seq::empty(), first_cap)
    } else {
        let (acc, cap) = word_pass(s, (n - 1) as nat, first_cap);
        let c = s[n - 1];
        if c == '_' {
            (acc, true)
        } else if cap {
            (acc.push(upper_spec(c)), false)
        } else {
            (acc.push(c), false)
        }
    }
}

/// `snake_case` spelled as `PascalCase`: `utc_date_time` becomes
/// `UtcDateTime`.
pub open spec fn pascal_case(s: Seq<char>) -> Seq<char> {
    word_pass(s, s.len(), true).0
}

/// `snake_case` spelled as `camelCase`: `next_value` becomes `nextValue`.
pub open spec fn camel_case(s: Seq<char>) -> Seq<char> {
    word_pass(s, s.len(), false).0
}

/// Every character upper-cased; underscores are kept: `not_found` becomes
/// `NOT_FOUND`.
pub open spec fn screaming_case(s: Seq<char>) -> Seq<char> {
    s.map_values(|c: char| upper_spec(c))
}

/// Every character lower-cased.
pub open spec fn lower_case(s: Seq<char>) -> Seq<char> {
    s.map_values(|c: char| lower_spec(c))
}

fn word_case(s: &str, first_cap: bool) -> (res: String)
    ensures
        res@ == word_pass(s@, s@.len(), first_cap).0,
{
    let n = s.unicode_len();
    let mut res = String::new();
    let mut cap = first_cap;
    let mut i: usize = 0;
    while i < n
        invariant
            n == s@.len(),
            i <= n,
            (res@, cap) == word_pass(s@, i as nat, first_cap),
        decreases n - i,
    {
        let c = s.get_char(i);
        if c == '_' {
            cap = true;
        } else if cap {
            let u = ascii_upper(c);
            push_char(&mut res, u);
            cap = false;
        } else {
            push_char(&mut res, c);
            cap = false;
        }
        i = i + 1;
    }
    res
}

/// Spells a `snake_case` identifier in `PascalCase`.
pub fn to_pascal_case(s: &str) -> (res: String)
    ensures
        res@ == pascal_case(s@),
{
    word_case(s, true)
}

/// Spells a `snake_case` identifier in `camelCase`.
pub fn to_camel_case(s: &str) -> (res: String)
    ensures
        res@ == camel_case(s@),
{
    word_case(s, false)
}

/// Spells an identifier in `SCREAMING_SNAKE_CASE`.
pub fn to_screaming_case(s: &str) -> (res: String)
    ensures
        res@ == screaming_case(s@),
{
    let n = s.unicode_len();
    let mut res = String::new();
    let mut i: usize = 0;
    while i < n
        invariant
            n == s@.len(),
            i <= n,
            res@ == s@.take(i as int).map_values(|c: char| upper_spec(c)),
        decreases n - i,
    {
        let c = s.get_char(i);
        let u = ascii_upper(c);
        push_char(&mut res, u);
        assert(s@.take(i + 1).map_values(|c: char| upper_spec(c)) =~= s@.take(i as int).map_values(
            |c: char| upper_spec(c),
        ).push(u));
        i = i + 1;
    }
    assert(s@.take(n as int) =~= s@);
    res
}

/// Lower-cases every ASCII letter of `s`.
pub fn to_lower_case(s: &str) -> (res: String)
    ensures
        res@ == lower_case(s@),
{
    let n = s.unicode_len();
    let mut res = String::new();
    let mut i: usize = 0;
    while i < n
        invariant
            n == s@.len(),
            i <= n,
            res@ == s@.take(i as int).map_values(|c: char| lower_spec(c)),
        decreases n - i,
    {
        let c = s.get_char(i);
        let l = ascii_lower(c);
        push_char(&mut res, l);
        assert(s@.take(i + 1).map_values(|c: char| lower_spec(c)) =~= s@.take(i as int).map_values(
            |c: char| lower_spec(c),
        ).push(l));
        i = i + 1;
    }
    assert(s@.take(n as int) =~= s@);
    res
}

/// Whether two strings are spelled the same.
pub fn str_eq(a: &str, b: &str) -> (res: bool)
    ensures
        res == (a@ == b@),
{
    let n = a.unicode_len();
    let m = b.unicode_len();
    if n != m {
        return false;
    }
    let mut i: usize = 0;
    while i < n
        invariant
            n == a@.len(),
            m == b@.len(),
            n == m,
            i <= n,
            forall|j: int| 0 <= j < i ==> a@[j] == b@[j],
        decreases n - i,
    {
        if a.get_char(i) != b.get_char(i) {
            return false;
        }
        i = i + 1;
    }
    assert(a@ =~= b@);
    true
}

/// Whether `s` starts with `prefix`.
pub fn starts_with(s: &str, prefix: &str) -> (res: bool)
    ensures
        res == (prefix@.len() <= s@.len() && s@.take(prefix@.len() as int) == prefix@),
{
    let n = s.unicode_len();
    let m = prefix.unicode_len();
    if m > n {
        return false;
    }
    let mut i: usize = 0;
    while i < m
        invariant
            n == s@.len(),
            m == prefix@.len(),
            m <= n,
            i <= m,
            forall|j: int| 0 <= j < i ==> s@[j] == prefix@[j],
        decreases m - i,
    {
        if s.get_char(i) != prefix.get_char(i) {
            assert(s@.take(m as int)[i as int] != prefix@[i as int]);
            return false;
        }
        i = i + 1;
    }
    assert(s@.take(m as int) =~= prefix@);
    true
}

/// `s` without `prefix` when it starts with it, and `s` itself otherwise.
pub open spec fn strip_prefix_or_same(s: Seq<char>, prefix: Seq<char>) -> Seq<char> {
    if prefix.len() <= s.len() && s.take(prefix.len() as int) == prefix {
        s.skip(prefix.len() as int)
    } else {
        s
    }
}

/// Removes `prefix` from the front of `s` when it is there.
pub fn strip_prefix_or_same_exec<'a>(s: &'a str, prefix: &str) -> (res: String)
    ensures
        res@ == strip_prefix_or_same(s@, prefix@),
{
    if starts_with(s, prefix) {
        let n = s.unicode_len();
        let m = prefix.unicode_len();
        let rest = s.substring_char(m, n);
        assert(rest@ =~= s@.skip(m as int));
        String::from_str(rest)
    } else {
        String::from_str(s)
    }
}

} // verus!
