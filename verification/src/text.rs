//! Character-level string helpers with exact contracts.
use vstd::prelude::*;
use vstd::string::*;

verus! {

/// Appends one character to a string (`String::push`).
#[verifier::external_body]
pub fn push_char(s: &mut String, c: char)
    ensures
        final(s)@ == old(s)@.push(c),
{
    s.push(c);
}

/// The characters of `s`, in order.
pub fn chars_of(s: &str) -> (v: Vec<char>)
    ensures
        v@ == s@,
{
    let mut v: Vec<char> = Vec::new();
    for c in it: s.chars()
        invariant
            v@ == it.seq().take(it.index() as int),
            it.seq() == s@,
    {
        v.push(c);
    }
    v
}

} // verus!

verus! {

/// Whether two strings hold the same characters.
pub fn str_eq(a: &str, b: &str) -> (r: bool)
    ensures
        r == (a@ == b@),
{
    let va = chars_of(a);
    let vb = chars_of(b);
    if va.len() != vb.len() {
        return false;
    }
    let mut i: usize = 0;
    while i < va.len()
        invariant
            va@ == a@,
            vb@ == b@,
            va@.len() == vb@.len(),
            i <= va@.len(),
            forall|j: int| 0 <= j < i ==> va@[j] == vb@[j],
        decreases va@.len() - i,
    {
        if va[i] != vb[i] {
            return false;
        }
        i = i + 1;
    }
    assert(a@ =~= b@);
    true
}

/// A fresh `String` holding the characters of `s`.
pub fn owned(s: &str) -> (r: String)
    ensures
        r@ == s@,
{
    s.to_owned()
}

/// The concatenation of two strings.
pub fn concat2(a: &str, b: &str) -> (r: String)
    ensures
        r@ == a@ + b@,
{
    let s = a.to_owned();
    s.concat(b)
}

/// The concatenation of three strings.
pub fn concat3(a: &str, b: &str, c: &str) -> (r: String)
    ensures
        r@ == a@ + b@ + c@,
{
    let s = a.to_owned();
    let s = s.concat(b);
    s.concat(c)
}

} // verus!

verus! {

/// The decimal digit character for `d`.
pub open spec fn digit_char(d: nat) -> char {
    if d == 0 { '0' }
    else if d == 1 { '1' }
    else if d == 2 { '2' }
    else if d == 3 { '3' }
    else if d == 4 { '4' }
    else if d == 5 { '5' }
    else if d == 6 { '6' }
    else if d == 7 { '7' }
    else if d == 8 { '8' }
    else { '9' }
}

/// The decimal rendering of `n`, as `n.to_string()` gives it.
pub open spec fn decimal(n: nat) -> Seq<char>
    decreases n,
{
    if n < 10 {
        seq![digit_char(n)]
    } else {
        decimal(n / 10).push(digit_char(n % 10))
    }
}

fn digit(d: u64) -> (c: char)
    requires
        d < 10,
    ensures
        c == digit_char(d as nat),
{
    if d == 0 { '0' }
    else if d == 1 { '1' }
    else if d == 2 { '2' }
    else if d == 3 { '3' }
    else if d == 4 { '4' }
    else if d == 5 { '5' }
    else if d == 6 { '6' }
    else if d == 7 { '7' }
    else if d == 8 { '8' }
    else { '9' }
}

/// `n.to_string()`.
pub fn decimal_text(n: u64) -> (s: String)
    ensures
        s@ == decimal(n as nat),
    decreases n,
{
    if n < 10 {
        let mut s = String::new();
        push_char(&mut s, digit(n));
        proof {
            assert(s@ =~= seq![digit_char(n as nat)]);
        }
        s
    } else {
        let mut s = decimal_text(n / 10);
        push_char(&mut s, digit(n % 10));
        s
    }
}

} // verus!

verus! {

/// Whether `s` begins with `p`.
pub open spec fn has_prefix(s: Seq<char>, p: Seq<char>) -> bool {
    p.len() <= s.len() && s.subrange(0, p.len() as int) == p
}

/// `s.starts_with(p)`.
pub fn starts_with(s: &str, p: &str) -> (r: bool)
    ensures
        r == has_prefix(s@, p@),
{
    let vs = chars_of(s);
    let vp = chars_of(p);
    if vp.len() > vs.len() {
        return false;
    }
    let mut i: usize = 0;
    while i < vp.len()
        invariant
            vs@ == s@,
            vp@ == p@,
            vp@.len() <= vs@.len(),
            i <= vp@.len(),
            forall|j: int| 0 <= j < i ==> vs@[j] == vp@[j],
        decreases vp@.len() - i,
    {
        if vs[i] != vp[i] {
            assert(s@.subrange(0, p@.len() as int)[i as int] != p@[i as int]);
            return false;
        }
        i = i + 1;
    }
    assert(s@.subrange(0, p@.len() as int) =~= p@);
    true
}

/// The characters of `s` from position `from` (in characters) to `to`.
pub fn slice_chars(s: &str, from: usize, to: usize) -> (r: String)
    requires
        from <= to <= s@.len(),
    ensures
        r@ == s@.subrange(from as int, to as int),
{
    owned(s.substring_char(from, to))
}

/// Unicode `White_Space` characters, as `char::is_whitespace` classifies them.
pub open spec fn is_space(c: char) -> bool {
    ||| ('\u{9}' <= c && c <= '\u{d}')
    ||| c == ' '
    ||| c == '\u{85}'
    ||| c == '\u{a0}'
    ||| c == '\u{1680}'
    ||| ('\u{2000}' <= c && c <= '\u{200a}')
    ||| c == '\u{2028}'
    ||| c == '\u{2029}'
    ||| c == '\u{202f}'
    ||| c == '\u{205f}'
    ||| c == '\u{3000}'
}

/// `c.is_whitespace()`.
pub fn char_is_space(c: char) -> (r: bool)
    ensures
        r == is_space(c),
{
    ('\u{9}' <= c && c <= '\u{d}') || c == ' ' || c == '\u{85}' || c == '\u{a0}' || c == '\u{1680}'
        || ('\u{2000}' <= c && c <= '\u{200a}') || c == '\u{2028}' || c == '\u{2029}' || c
        == '\u{202f}' || c == '\u{205f}' || c == '\u{3000}'
}

/// The number of leading characters of `s` satisfying `p`.
pub open spec fn lead_count(s: Seq<char>, p: spec_fn(char) -> bool) -> nat
    decreases s.len(),
{
    if s.len() > 0 && p(s[0]) {
        1 + lead_count(s.drop_first(), p)
    } else {
        0
    }
}

/// The number of trailing characters of `s` satisfying `p`.
pub open spec fn trail_count(s: Seq<char>, p: spec_fn(char) -> bool) -> nat
    decreases s.len(),
{
    if s.len() > 0 && p(s.last()) {
        1 + trail_count(s.drop_last(), p)
    } else {
        0
    }
}

/// The whitespace test as a predicate.
pub open spec fn space_pred() -> spec_fn(char) -> bool {
    |c: char| is_space(c)
}

/// The test for one given character, as a predicate.
pub open spec fn char_pred(c: char) -> spec_fn(char) -> bool {
    |x: char| x == c
}

/// `s` without its leading and trailing whitespace (`str::trim`).
pub open spec fn trimmed(s: Seq<char>) -> Seq<char> {
    let lead = lead_count(s, space_pred());
    let rest = s.skip(lead as int);
    rest.take(rest.len() - trail_count(rest, space_pred()))
}

/// `s` without its trailing `c` characters (`str::trim_end_matches(c)`).
pub open spec fn trimmed_end(s: Seq<char>, c: char) -> Seq<char> {
    s.take(s.len() - trail_count(s, char_pred(c)))
}

proof fn lemma_lead_count_bound(s: Seq<char>, p: spec_fn(char) -> bool)
    ensures
        lead_count(s, p) <= s.len(),
    decreases s.len(),
{
    if s.len() > 0 && p(s[0]) {
        lemma_lead_count_bound(s.drop_first(), p);
    }
}

proof fn lemma_trail_count_bound(s: Seq<char>, p: spec_fn(char) -> bool)
    ensures
        trail_count(s, p) <= s.len(),
    decreases s.len(),
{
    if s.len() > 0 && p(s.last()) {
        lemma_trail_count_bound(s.drop_last(), p);
    }
}

/// Counting leading characters from position `i` on.
proof fn lemma_lead_count_step(s: Seq<char>, p: spec_fn(char) -> bool, i: int)
    requires
        0 <= i <= s.len(),
        forall|j: int| 0 <= j < i ==> p(#[trigger] s[j]),
    ensures
        lead_count(s, p) == i + lead_count(s.skip(i), p),
    decreases i,
{
    if i > 0 {
        assert(s.skip(1).skip(i - 1) =~= s.skip(i));
        lemma_lead_count_step(s.drop_first(), p, i - 1);
        assert(s.drop_first() =~= s.skip(1));
    } else {
        assert(s.skip(0) =~= s);
    }
}

proof fn lemma_trail_count_step(s: Seq<char>, p: spec_fn(char) -> bool, i: int)
    requires
        0 <= i <= s.len(),
        forall|j: int| s.len() - i <= j < s.len() ==> p(#[trigger] s[j]),
    ensures
        trail_count(s, p) == i + trail_count(s.take(s.len() - i), p),
    decreases i,
{
    if i > 0 {
        assert(s.drop_last().take(s.len() - 1 - (i - 1)) =~= s.take(s.len() - i));
        lemma_trail_count_step(s.drop_last(), p, i - 1);
    } else {
        assert(s.take(s.len() as int) =~= s);
    }
}

/// Position of the first character at or after `from` that does not satisfy
/// the whitespace test.
fn skip_spaces(v: &Vec<char>) -> (r: usize)
    ensures
        r == lead_count(v@, space_pred()),
{
    let ghost p = space_pred();
    let mut i: usize = 0;
    while i < v.len() && char_is_space(v[i])
        invariant
            i <= v@.len(),
            p == space_pred(),
            forall|j: int| 0 <= j < i ==> p(#[trigger] v@[j]),
        decreases v@.len() - i,
    {
        i = i + 1;
    }
    proof {
        lemma_lead_count_step(v@, p, i as int);
        assert(lead_count(v@.skip(i as int), p) == 0);
    }
    i
}

fn count_trailing(v: &Vec<char>, c: char) -> (r: usize)
    ensures
        r == trail_count(v@, char_pred(c)),
{
    let ghost p = char_pred(c);
    let mut i: usize = 0;
    while i < v.len() && v[v.len() - 1 - i] == c
        invariant
            i <= v@.len(),
            p == char_pred(c),
            forall|j: int| v@.len() - i <= j < v@.len() ==> p(#[trigger] v@[j]),
        decreases v@.len() - i,
    {
        i = i + 1;
    }
    proof {
        lemma_trail_count_step(v@, p, i as int);
        assert(trail_count(v@.take(v@.len() - i), p) == 0);
    }
    i
}

/// `s.trim()`.
pub fn trim(s: &str) -> (r: String)
    ensures
        r@ == trimmed(s@),
{
    let v = chars_of(s);
    let lead = skip_spaces(&v);
    proof {
        lemma_lead_count_bound(v@, space_pred());
    }
    let ghost rest = v@.skip(lead as int);
    // Trailing whitespace of the rest, counted on the whole vector.
    let mut i: usize = 0;
    while i < v.len() - lead && char_is_space(v[v.len() - 1 - i])
        invariant
            lead <= v@.len(),
            rest == v@.skip(lead as int),
            i <= rest.len(),
            forall|j: int| rest.len() - i <= j < rest.len() ==> is_space(#[trigger] rest[j]),
        decreases v@.len() - lead - i,
    {
        i = i + 1;
    }
    proof {
        lemma_trail_count_step(rest, space_pred(), i as int);
        assert(trail_count(rest.take(rest.len() - i), space_pred()) == 0);
        assert(v@ == s@);
        assert(rest.take(rest.len() - i) =~= s@.subrange(lead as int, v@.len() - i));
    }
    slice_chars(s, lead, v.len() - i)
}

/// `s.trim_end_matches(c)`.
pub fn trim_end_char(s: &str, c: char) -> (r: String)
    ensures
        r@ == trimmed_end(s@, c),
{
    let v = chars_of(s);
    let n = count_trailing(&v, c);
    proof {
        lemma_trail_count_bound(v@, char_pred(c));
        assert(v@ == s@);
    }
    slice_chars(s, 0, v.len() - n)
}

} // verus!

verus! {

/// After trimming trailing `c`s, the text is empty or ends otherwise.
pub proof fn lemma_trimmed_end_last(s: Seq<char>, c: char)
    ensures
        trimmed_end(s, c).len() == 0 || trimmed_end(s, c).last() != c,
    decreases s.len(),
{
    lemma_trail_count_bound(s, char_pred(c));
    if s.len() > 0 && s.last() == c {
        lemma_trimmed_end_last(s.drop_last(), c);
        assert(s.drop_last().take(s.drop_last().len() - trail_count(s.drop_last(), char_pred(c))) =~= s.take(
            s.len() - trail_count(s, char_pred(c)),
        ));
    }
}

} // verus!
