//! Text building blocks shared by the code generators: indentation, decimal numbers, joining,
//! comparison, and the identifier case conversions provided by `heck`.

use heck::{CamelCase, MixedCase, SnakeCase};
use vstd::prelude::*;

verus! {

/// `n` space characters.
pub open spec fn spaces(n: nat) -> Seq<char> {
    Seq::new(n, |i: int| ' ')
}

/// The decimal digit character for `d` (`d < 10`).
pub open spec fn digit_char(d: nat) -> char {
    if d == 0 { '0' }
    else if d == 1 { '1' }
    else if d == 2 { '2' }
    else if d == 3 { '3' }
    else if d == 4 { '4' }
    else if d == 5 { '5' }
    else if d == 6 { '6' }
    else if d == 7 { '7' }
    else if d == 8 { '8' }
    else { '9' }
}

/// The decimal representation of `n`, without leading zeros.
pub open spec fn decimal(n: nat) -> Seq<char>
    decreases n,
{
    if n < 10 {
        seq![digit_char(n)]
    } else {
        decimal(n / 10).push(digit_char(n % 10))
    }
}

/// The elements of `list` joined with `sep` between consecutive elements.
pub open spec fn seq_join(list: Seq<Seq<char>>, sep: Seq<char>) -> Seq<char>
    decreases list.len(),
{
    if list.len() == 0 {
        Seq::empty()
    } else if list.len() == 1 {
        list[0]
    } else {
        seq_join(list.drop_last(), sep) + sep + list.last()
    }
}

/// The views of a vector of strings.
pub open spec fn views(v: Seq<String>) -> Seq<Seq<char>> {
    v.map_values(|s: String| s@)
}

/// A string of `n` spaces.
pub fn indent(n: usize) -> (r: String)
    ensures
        r@ == spaces(n as nat),
{
    let mut r = String::new();
    let mut i: usize = 0;
    proof {
        reveal_strlit(" ");
    }
    while i < n
        invariant
            i <= n,
            r@ == spaces(i as nat),
            " "@ == seq![' '],
        decreases n - i,
    {
        r.append(" ");
        i = i + 1;
        assert(r@ =~= spaces(i as nat));
    }
    r
}

/// The one-character string of the decimal digit `d`.
fn digit_string(d: usize) -> (r: String)
    requires
        d < 10,
    ensures
        r@ == seq![digit_char(d as nat)],
{
    proof {
        reveal_strlit("0");
        reveal_strlit("1");
        reveal_strlit("2");
        reveal_strlit("3");
        reveal_strlit("4");
        reveal_strlit("5");
        reveal_strlit("6");
        reveal_strlit("7");
        reveal_strlit("8");
        reveal_strlit("9");
    }
    if d == 0 {
        String::from_str("0")
    } else if d == 1 {
        String::from_str("1")
    } else if d == 2 {
        String::from_str("2")
    } else if d == 3 {
        String::from_str("3")
    } else if d == 4 {
        String::from_str("4")
    } else if d == 5 {
        String::from_str("5")
    } else if d == 6 {
        String::from_str("6")
    } else if d == 7 {
        String::from_str("7")
    } else if d == 8 {
        String::from_str("8")
    } else {
        String::from_str("9")
    }
}

/// The decimal representation of `n`.
pub fn decimal_string(n: usize) -> (r: String)
    ensures
        r@ == decimal(n as nat),
    decreases n,
{
    if n < 10 {
        digit_string(n)
    } else {
        let mut r = decimal_string(n / 10);
        let d = digit_string(n % 10);
        r.append(d.as_str());
        r
    }
}

/// True exactly when `a` and `b` hold the same characters.
pub fn str_equal(a: &str, b: &str) -> (r: bool)
    ensures
        r == (a@ == b@),
{
    let la = a.unicode_len();
    let lb = b.unicode_len();
    if la != lb {
        return false;
    }
    let mut i: usize = 0;
    while i < la
        invariant
            la == a@.len(),
            lb == b@.len(),
            la == lb,
            i <= la,
            forall|j: int| 0 <= j < i ==> a@[j] == b@[j],
        decreases la - i,
    {
        if a.get_char(i) != b.get_char(i) {
            assert(a@[i as int] != b@[i as int]);
            return false;
        }
        i = i + 1;
    }
    assert(a@ =~= b@);
    true
}

/// A copy of `s`.
pub fn copy_string(s: &String) -> (r: String)
    ensures
        r@ == s@,
{
    String::from_str(s.as_str())
}

/// The strings of `list` joined with `sep` between consecutive elements.
pub fn join(list: &Vec<String>, sep: &str) -> (r: String)
    ensures
        r@ == seq_join(views(list@), sep@),
{
    let mut r = String::new();
    let ghost vs = views(list@);
    let mut i: usize = 0;
    while i < list.len()
        invariant
            vs == views(list@),
            i <= list.len(),
            r@ == seq_join(vs.take(i as int), sep@),
        decreases list.len() - i,
    {
        if i != 0 {
            r.append(sep);
        }
        r.append(list[i].as_str());
        proof {
            assert(vs.take(i + 1).drop_last() =~= vs.take(i as int));
            if i == 0 {
                assert(seq_join(vs.take(0), sep@) =~= Seq::<char>::empty());
                assert(r@ =~= vs[0]);
            }
        }
        i = i + 1;
    }
    assert(vs.take(list.len() as int) =~= vs);
    r
}

/// The text of the character `c` inside a Rust string literal: backslash, double quote, newline,
/// carriage return and tab are escaped.
pub open spec fn escape_char(c: char) -> Seq<char> {
    if c == '\\' {
        seq!['\\', '\\']
    } else if c == '"' {
        seq!['\\', '"']
    } else if c == '\n' {
        seq!['\\', 'n']
    } else if c == '\r' {
        seq!['\\', 'r']
    } else if c == '\t' {
        seq!['\\', 't']
    } else {
        seq![c]
    }
}

/// The text of `s` inside a Rust string literal, each character escaped as `escape_char` says.
pub open spec fn escaped(s: Seq<char>) -> Seq<char>
    decreases s.len(),
{
    if s.len() == 0 {
        Seq::empty()
    } else {
        escaped(s.drop_last()) + escape_char(s.last())
    }
}

/// A Rust string literal whose value is `s`.
pub fn string_literal(s: &str) -> (r: String)
    ensures
        r@ == "\""@ + escaped(s@) + "\""@,
{
    let mut r = String::from_str("\"");
    let n = s.unicode_len();
    let mut i: usize = 0;
    while i < n
        invariant
            n == s@.len(),
            i <= n,
            r@ == "\""@ + escaped(s@.take(i as int)),
        decreases n - i,
    {
        let c = s.get_char(i);
        proof {
            assert(s@.take(i + 1).drop_last() =~= s@.take(i as int));
            assert(s@.take(i + 1).last() == c);
        }
        proof {
            reveal_strlit("\\\\");
            reveal_strlit("\\\"");
            reveal_strlit("\\n");
            reveal_strlit("\\r");
            reveal_strlit("\\t");
        }
        if c == '\\' {
            r.append("\\\\");
        } else if c == '"' {
            r.append("\\\"");
        } else if c == '\n' {
            r.append("\\n");
        } else if c == '\r' {
            r.append("\\r");
        } else if c == '\t' {
            r.append("\\t");
        } else {
            let one = s.substring_char(i, i + 1);
            assert(one@ =~= seq![c]);
            r.append(one);
        }
        proof {
            assert(r@ =~= "\""@ + escaped(s@.take(i + 1)));
        }
        i = i + 1;
    }
    assert(s@.take(n as int) =~= s@);
    r.append("\"");
    r
}

/// `s` without the prefix `p`, when it starts with it.
pub open spec fn strip_prefix_spec(s: Seq<char>, p: Seq<char>) -> Option<Seq<char>> {
    if p.len() <= s.len() && s.take(p.len() as int) == p {
        Some(s.skip(p.len() as int))
    } else {
        None
    }
}

/// `s` without the prefix `p`, when it starts with it.
pub fn strip_prefix(s: &str, p: &str) -> (r: Option<String>)
    ensures
        match r {
            Some(t) => strip_prefix_spec(s@, p@) == Some(t@),
            None => strip_prefix_spec(s@, p@) is None,
        },
{
    let n = s.unicode_len();
    let m = p.unicode_len();
    if m > n {
        return None;
    }
    let head = s.substring_char(0, m);
    if !str_equal(head, p) {
        assert(head@ =~= s@.take(m as int));
        return None;
    }
    assert(head@ =~= s@.take(m as int));
    let tail = s.substring_char(m, n);
    assert(tail@ =~= s@.skip(m as int));
    Some(String::from_str(tail))
}

/// Where the last piece of `s` split at the non-overlapping occurrences of `p` starts, scanning
/// from `i` with the current piece starting at `start`.
pub open spec fn split_scan(s: Seq<char>, p: Seq<char>, i: int, start: int) -> int
    decreases s.len() - i,
{
    if p.len() == 0 || i < 0 || i + p.len() > s.len() {
        start
    } else if s.subrange(i, i + p.len()) == p {
        split_scan(s, p, i + p.len(), i + p.len())
    } else {
        split_scan(s, p, i + 1, start)
    }
}

/// The last piece of `s` split at the occurrences of `p`, found from left to right without
/// overlapping: what follows the last of them, or `s` when `p` does not occur.
pub open spec fn last_piece_spec(s: Seq<char>, p: Seq<char>) -> Seq<char> {
    s.subrange(split_scan(s, p, 0, 0), s.len() as int)
}

/// The last piece of `s` split at the occurrences of the non-empty `p`.
pub fn last_piece(s: &str, p: &str) -> (r: String)
    requires
        p@.len() > 0,
    ensures
        r@ == last_piece_spec(s@, p@),
{
    let n = s.unicode_len();
    let m = p.unicode_len();
    let mut i: usize = 0;
    let mut start: usize = 0;
    while i <= n && m <= n - i
        invariant
            n == s@.len(),
            m == p@.len(),
            m > 0,
            start <= i,
            i <= n + 1,
            start <= n,
            split_scan(s@, p@, 0, 0) == split_scan(s@, p@, i as int, start as int),
        decreases n + 1 - i,
    {
        let piece = s.substring_char(i, i + m);
        if str_equal(piece, p) {
            i = i + m;
            start = i;
        } else {
            i = i + 1;
        }
    }
    let tail = s.substring_char(start, n);
    String::from_str(tail)
}

/// True when `x` occurs in `s`.
pub open spec fn contains_text(s: Seq<char>, x: Seq<char>) -> bool {
    exists|i: int| 0 <= i && i + x.len() <= s.len() && #[trigger] s.subrange(i, i + x.len()) == x
}

/// A text made of `x` followed by `y` occurs where `x` ends a text that `y` follows.
pub proof fn lemma_contains_pair(a: Seq<char>, x: Seq<char>, y: Seq<char>)
    ensures
        contains_text(a + x + y, x + y),
{
    let s = a + x + y;
    let i = a.len() as int;
    assert(s.subrange(i, i + (x + y).len()) =~= x + y);
}

/// A text that occurs in `s` occurs in anything that starts with `s`.
pub proof fn lemma_contains_extend(x: Seq<char>)
    ensures
        forall|s: Seq<char>, y: Seq<char>| contains_text(s, x) ==> #[trigger] contains_text(s + y, x),
{
    assert forall|s: Seq<char>, y: Seq<char>| contains_text(s, x) implies #[trigger] contains_text(s + y, x) by {
        let i = choose|i: int| 0 <= i && i + x.len() <= s.len() && #[trigger] s.subrange(i, i + x.len()) == x;
        assert((s + y).subrange(i, i + x.len()) =~= s.subrange(i, i + x.len()));
    }
}

/// A text that occurs in `s` occurs in anything that ends with `s`.
pub proof fn lemma_contains_prepend(x: Seq<char>)
    ensures
        forall|p: Seq<char>, s: Seq<char>| contains_text(s, x) ==> #[trigger] contains_text(p + s, x),
{
    assert forall|p: Seq<char>, s: Seq<char>| contains_text(s, x) implies #[trigger] contains_text(p + s, x) by {
        let i = choose|i: int| 0 <= i && i + x.len() <= s.len() && #[trigger] s.subrange(i, i + x.len()) == x;
        assert((p + s).subrange(p.len() + i, p.len() + i + x.len()) =~= s.subrange(i, i + x.len()));
    }
}

/// The snake case form of an identifier, as `heck` computes it.
pub uninterp spec fn snake_case(s: Seq<char>) -> Seq<char>;

/// The mixed case (lower camel case) form of an identifier, as `heck` computes it.
pub uninterp spec fn mixed_case(s: Seq<char>) -> Seq<char>;

/// The camel case (upper camel case) form of an identifier, as `heck` computes it.
pub uninterp spec fn camel_case(s: Seq<char>) -> Seq<char>;

/// Calls `heck::SnakeCase::to_snake_case`; its result is taken to depend on `s` alone.
#[verifier::external_body]
pub(crate) fn to_snake_case(s: &str) -> (r: String)
    ensures
        r@ == snake_case(s@),
{
    s.to_snake_case()
}

/// Calls `heck::MixedCase::to_mixed_case`; its result is taken to depend on `s` alone.
#[verifier::external_body]
pub(crate) fn to_mixed_case(s: &str) -> (r: String)
    ensures
        r@ == mixed_case(s@),
{
    s.to_mixed_case()
}

/// Calls `heck::CamelCase::to_camel_case`; its result is taken to depend on `s` alone.
#[verifier::external_body]
pub(crate) fn to_camel_case(s: &str) -> (r: String)
    ensures
        r@ == camel_case(s@),
{
    s.to_camel_case()
}

} // verus!
