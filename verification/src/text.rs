//! Small string helpers shared by the renderers, with their specifications.

use vstd::prelude::*;
use vstd::string::*;

verus! {

/// `parts` joined by `sep`: the empty sequence for no parts, otherwise
/// every part in order with `sep` between neighbours.
pub open spec fn joined(parts: Seq<Seq<char>>, sep: Seq<char>) -> Seq<char>
    decreases parts.len(),
{
    if parts.len() == 0 {
        Seq::empty()
    } else if parts.len() == 1 {
        parts[0]
    } else {
        joined(parts.drop_last(), sep) + sep + parts.last()
    }
}

/// Appends one character to a string.
#[verifier::external_body]
pub(crate) fn push_char(s: &mut String, c: char)
    ensures
        final(s)@ == old(s)@.push(c),
{
    s.push(c);
}

/// Joins `parts` with `sep`, in order.
pub fn join_strings(parts: &Vec<String>, sep: &str) -> (res: String)
    ensures
        res@ == joined(parts@.map_values(|p: String| p@), sep@),
{
    let mut res = String::new();
    let ghost views = parts@.map_values(|p: String| p@);
    let mut i: usize = 0;
    while i < parts.len()
        invariant
            i <= parts.len(),
            views == parts@.map_values(|p: String| p@),
            res@ == joined(views.take(i as int), sep@),
        decreases parts.len() - i,
    {
        if i != 0 {
            res.append(sep);
        }
        res.append(parts[i].as_str());
        assert(views.take(i + 1).drop_last() =~= views.take(i as int));
        i = i + 1;
    }
    assert(views.take(parts.len() as int) =~= views);
    res
}

/// The decimal digit character for `d < 10`.
pub open spec fn digit_char(d: nat) -> char {
    ((d + 48) as u32) as char
}

/// The decimal spelling of `n`, without sign or leading zeros.
pub open spec fn decimal_nat(n: nat) -> Seq<char>
    decreases n,
{
    if n < 10 {
        seq![digit_char(n)]
    } else {
        decimal_nat(n / 10).push(digit_char(n % 10))
    }
}

/// The decimal spelling of `i`, with a leading `-` when it is negative.
pub open spec fn decimal_int(i: int) -> Seq<char> {
    if i < 0 {
        seq!['-'] + decimal_nat((-i) as nat)
    } else {
        decimal_nat(i as nat)
    }
}

/// Appends the decimal spelling of `n`.
pub fn push_decimal(res: &mut String, n: u128)
    ensures
        final(res)@ == old(res)@ + decimal_nat(n as nat),
    decreases n,
{
    if n >= 10 {
        push_decimal(res, n / 10);
    }
    let d: u8 = (n % 10) as u8;
    let c: char = (d + 48) as char;
    push_char(res, c);
    proof {
        if n >= 10 {
            assert(old(res)@ + decimal_nat(n as nat) =~= old(res)@ + decimal_nat((n / 10) as nat) + seq![c]);
        } else {
            assert(old(res)@ + decimal_nat(n as nat) =~= old(res)@ + seq![c]);
        }
    }
}

/// The decimal spelling of a signed 128-bit integer.
pub fn i128_to_decimal(value: i128) -> (res: String)
    ensures
        res@ == decimal_int(value as int),
{
    let mut res = String::new();
    if value < 0 {
        push_char(&mut res, '-');
        let magnitude: u128 = ((-(value + 1)) as u128) + 1;
        push_decimal(&mut res, magnitude);
        assert(res@ =~= seq!['-'] + decimal_nat((-value) as nat));
    } else {
        push_decimal(&mut res, value as u128);
        assert(res@ =~= decimal_nat(value as nat));
    }
    res
}

/// Whether `c` has the Unicode `White_Space` property.
pub open spec fn is_white_space(c: char) -> bool {
    let u = c as u32;
    ||| (0x09 <= u && u <= 0x0D)
    ||| u == 0x20
    ||| u == 0x85
    ||| u == 0xA0
    ||| u == 0x1680
    ||| (0x2000 <= u && u <= 0x200A)
    ||| u == 0x2028
    ||| u == 0x2029
    ||| u == 0x202F
    ||| u == 0x205F
    ||| u == 0x3000
}

/// Whether `c` is white space.
pub fn white_space(c: char) -> (res: bool)
    ensures
        res == is_white_space(c),
{
    let u = c as u32;
    (0x09 <= u && u <= 0x0D) || u == 0x20 || u == 0x85 || u == 0xA0 || u == 0x1680 || (0x2000 <= u && u <= 0x200A)
        || u == 0x2028 || u == 0x2029 || u == 0x202F || u == 0x205F || u == 0x3000
}

/// `s` without its leading and trailing white space.
pub open spec fn trimmed(s: Seq<char>) -> Seq<char> {
    let start = first_non_space(s, 0);
    let end = last_non_space_end(s, s.len() as int);
    if start >= end {
        Seq::empty()
    } else {
        s.subrange(start, end)
    }
}

/// The index of the first character at or after `i` that is not white
/// space, or the length of `s`.
pub open spec fn first_non_space(s: Seq<char>, i: int) -> int
    decreases s.len() - i,
{
    if i >= s.len() || i < 0 {
        s.len() as int
    } else if is_white_space(s[i]) {
        first_non_space(s, i + 1)
    } else {
        i
    }
}

/// One past the index of the last character before `j` that is not white
/// space, or 0.
pub open spec fn last_non_space_end(s: Seq<char>, j: int) -> int
    decreases j,
{
    if j <= 0 || j > s.len() {
        0
    } else if is_white_space(s[j - 1]) {
        last_non_space_end(s, j - 1)
    } else {
        j
    }
}

/// `s` without its leading and trailing white space.
pub fn trim(s: &str) -> (res: String)
    ensures
        res@ == trimmed(s@),
{
    let n = s.unicode_len();
    let mut start: usize = 0;
    while start < n && white_space(s.get_char(start))
        invariant
            n == s@.len(),
            start <= n,
            first_non_space(s@, 0) == first_non_space(s@, start as int),
        decreases n - start,
    {
        start = start + 1;
    }
    let mut end: usize = n;
    while end > 0 && white_space(s.get_char(end - 1))
        invariant
            n == s@.len(),
            end <= n,
            last_non_space_end(s@, n as int) == last_non_space_end(s@, end as int),
        decreases end,
    {
        end = end - 1;
    }
    if start >= end {
        String::new()
    } else {
        String::from_str(s.substring_char(start, end))
    }
}

/// `s` without its trailing white space.
pub open spec fn trimmed_end(s: Seq<char>) -> Seq<char> {
    s.take(last_non_space_end(s, s.len() as int))
}

/// `s` without its trailing white space; see [`trimmed_end`].
pub fn trim_end(s: &str) -> (res: String)
    ensures
        res@ == trimmed_end(s@),
{
    let n = s.unicode_len();
    let mut end: usize = n;
    while end > 0 && white_space(s.get_char(end - 1))
        invariant
            n == s@.len(),
            end <= n,
            last_non_space_end(s@, n as int) == last_non_space_end(s@, end as int),
        decreases end,
    {
        end = end - 1;
    }
    proof {
        if end > 0 {
            assert(last_non_space_end(s@, end as int) == end);
        }
        assert(s@.subrange(0, end as int) =~= s@.take(end as int));
    }
    String::from_str(s.substring_char(0, end))
}

/// The lines of `s`, as `str::lines` gives them: split at each `\n`, a
/// `\r` just before a `\n` dropped, and no final empty line after a
/// closing `\n`; an unterminated last line is kept as it is.
pub open spec fn text_lines(s: Seq<char>) -> Seq<Seq<char>> {
    let pass = line_pass(s, s.len());
    let terminated = pass.0.map_values(|l: Seq<char>| strip_cr(l));
    if pass.1.len() > 0 || (s.len() > 0 && s.last() != '\n') {
        terminated.push(pass.1)
    } else {
        terminated
    }
}

/// `l` without one trailing `\r`.
pub open spec fn strip_cr(l: Seq<char>) -> Seq<char> {
    if l.len() > 0 && l.last() == '\r' {
        l.drop_last()
    } else {
        l
    }
}

/// The lines completed in the first `n` characters of `s`, and the line
/// being read.
pub open spec fn line_pass(s: Seq<char>, n: nat) -> (Seq<Seq<char>>, Seq<char>)
    decreases n,
{
    if n == 0 {
        (Seq::empty(), Seq::empty())
    } else {
        let (done, cur) = line_pass(s, (n - 1) as nat);
        if s[n - 1] == '\n' {
            (done.push(cur), Seq::empty())
        } else {
            (done, cur.push(s[n - 1]))
        }
    }
}

fn strip_cr_string(l: String) -> (res: String)
    ensures
        res@ == strip_cr(l@),
{
    let n = l.as_str().unicode_len();
    if n > 0 && l.as_str().get_char(n - 1) == '\r' {
        let sub = l.as_str().substring_char(0, n - 1);
        assert(sub@ =~= l@.drop_last());
        String::from_str(sub)
    } else {
        l
    }
}

/// The lines of `s`; see [`text_lines`].
pub fn lines(s: &str) -> (res: Vec<String>)
    ensures
        res@.map_values(|l: String| l@) == text_lines(s@),
{
    let n = s.unicode_len();
    let mut done: Vec<String> = Vec::new();
    let mut cur = String::new();
    let mut i: usize = 0;
    while i < n
        invariant
            n == s@.len(),
            i <= n,
            (done@.map_values(|l: String| l@), cur@) == line_pass(s@, i as nat),
        decreases n - i,
    {
        let c = s.get_char(i);
        if c == '\n' {
            let line = cur;
            let ghost v = line@;
            let ghost before = done@.map_values(|l: String| l@);
            done.push(line);
            assert(done@.map_values(|l: String| l@) =~= before.push(v));
            cur = String::new();
        } else {
            push_char(&mut cur, c);
        }
        i = i + 1;
    }
    let keep = cur.as_str().unicode_len() > 0 || (n > 0 && s.get_char(n - 1) != '\n');
    let ghost all = done@.map_values(|l: String| l@);
    let mut res: Vec<String> = Vec::new();
    let mut j: usize = 0;
    while j < done.len()
        invariant
            j <= done@.len(),
            all == done@.map_values(|l: String| l@),
            res@.map_values(|l: String| l@) == all.take(j as int).map_values(|l: Seq<char>| strip_cr(l)),
        decreases done.len() - j,
    {
        let line = done[j].clone();
        let stripped = strip_cr_string(line);
        let ghost before = res@.map_values(|l: String| l@);
        res.push(stripped);
        assert(res@.map_values(|l: String| l@) =~= before.push(strip_cr(all[j as int])));
        assert(all.take(j + 1).map_values(|l: Seq<char>| strip_cr(l)) =~= all.take(j as int).map_values(|l: Seq<char>| strip_cr(l)).push(strip_cr(all[j as int])));
        j = j + 1;
    }
    assert(all.take(done@.len() as int) =~= all);
    if keep {
        let ghost v = cur@;
        let ghost before = res@.map_values(|l: String| l@);
        res.push(cur);
        assert(res@.map_values(|l: String| l@) =~= before.push(v));
    }
    res
}

} // verus!
