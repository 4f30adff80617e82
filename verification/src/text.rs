//! Small text utilities that the rest of the library is built from, each with
//! an exact contract over the character sequence of the strings involved.

use vstd::prelude::*;
use vstd::string::StringSliceAdditionalSpecFns;
use vstd::utf8::*;

verus! {

/// Appends `c` to `s`: std's `String::push`, whose documentation says that it
/// "appends the given char to the end of this String".
#[verifier::external_body]
pub(crate) fn push_char(s: &mut String, c: char)
    ensures
        final(s)@ == old(s)@.push(c),
{
    s.push(c)
}

/// Removes the last character of `s`: std's `String::pop`, documented to
/// remove and return the last character, and to return `None` on an empty string.
#[verifier::external_body]
pub(crate) fn pop_char(s: &mut String) -> (r: Option<char>)
    ensures
        old(s)@.len() == 0 ==> r is None && final(s)@ == old(s)@,
        old(s)@.len() > 0 ==> r == Some(old(s)@.last()) && final(s)@ == old(s)@.drop_last(),
{
    s.pop()
}

/// An owned copy of a string slice.
pub fn owned(s: &str) -> (r: String)
    ensures
        r@ == s@,
{
    s.to_owned()
}

/// Whether `a` holds exactly the characters of `b`.
pub fn same_text(a: &String, b: &str) -> (r: bool)
    ensures
        r == (a@ == b@),
{
    let other = b.to_owned();
    *a == other
}

/// `a` followed by `b`.
pub fn concat2(a: &str, b: &str) -> (r: String)
    ensures
        r@ == a@ + b@,
{
    let mut r = a.to_owned();
    r.append(b);
    r
}

/// `a`, `b` and `c` one after the other.
pub fn concat3(a: &str, b: &str, c: &str) -> (r: String)
    ensures
        r@ == a@ + b@ + c@,
{
    let mut r = a.to_owned();
    r.append(b);
    r.append(c);
    r
}

/// The character of a decimal digit.
pub open spec fn digit_char(d: int) -> char {
    if d == 0 { '0' }
    else if d == 1 { '1' }
    else if d == 2 { '2' }
    else if d == 3 { '3' }
    else if d == 4 { '4' }
    else if d == 5 { '5' }
    else if d == 6 { '6' }
    else if d == 7 { '7' }
    else if d == 8 { '8' }
    else { '9' }
}

/// The decimal notation of `n`, without sign or leading zeros.
pub open spec fn decimal(n: nat) -> Seq<char>
    decreases n,
{
    if n < 10 {
        seq![digit_char(n as int)]
    } else {
        decimal(n / 10).push(digit_char((n % 10) as int))
    }
}

fn digit(d: u32) -> (c: char)
    requires
        d < 10,
    ensures
        c == digit_char(d as int),
{
    if d == 0 { '0' }
    else if d == 1 { '1' }
    else if d == 2 { '2' }
    else if d == 3 { '3' }
    else if d == 4 { '4' }
    else if d == 5 { '5' }
    else if d == 6 { '6' }
    else if d == 7 { '7' }
    else if d == 8 { '8' }
    else { '9' }
}

fn push_decimal(s: &mut String, n: u32)
    ensures
        final(s)@ == old(s)@ + decimal(n as nat),
    decreases n,
{
    if n >= 10 {
        push_decimal(s, n / 10);
    }
    push_char(s, digit(n % 10));
}

/// The decimal notation of `n` (what `n.to_string()` gives).
pub fn decimal_string(n: u32) -> (r: String)
    ensures
        r@ == decimal(n as nat),
{
    let mut r = String::new();
    push_decimal(&mut r, n);
    r
}

/// The texts of `list` with `sep` between each two neighbours.
pub open spec fn seq_join(list: Seq<Seq<char>>, sep: Seq<char>) -> Seq<char>
    decreases list.len(),
{
    if list.len() == 0 {
        seq![]
    } else if list.len() == 1 {
        list[0]
    } else {
        seq_join(list.drop_last(), sep) + sep + list.last()
    }
}

/// The strings of `list` joined by `sep`, as `[String]::join` does.
pub fn join(list: &Vec<String>, sep: &str) -> (r: String)
    ensures
        r@ == seq_join(list.deep_view(), sep@),
{
    let mut r = String::new();
    let ghost items = list.deep_view();
    let mut i: usize = 0;
    while i < list.len()
        invariant
            i <= list.len(),
            items == list.deep_view(),
            r@ == seq_join(items.take(i as int), sep@),
        decreases list.len() - i,
    {
        assert(items.take(i + 1).drop_last() =~= items.take(i as int));
        if i != 0 {
            r.append(sep);
        }
        r.append(list[i].as_str());
        i = i + 1;
    }
    assert(items.take(list.len() as int) =~= items);
    r
}

/// `s` cut into pieces of `n` characters, the last piece holding what is left.
pub open spec fn char_chunks(s: Seq<char>, n: nat) -> Seq<Seq<char>>
    decreases s.len(),
{
    if s.len() == 0 || n == 0 {
        seq![]
    } else if s.len() <= n {
        seq![s]
    } else {
        seq![s.take(n as int)] + char_chunks(s.skip(n as int), n)
    }
}

/// The characters of `s` in consecutive pieces of `n` characters (the last
/// piece may be shorter), as `chars().collect::<Vec<_>>().chunks(n)` gives them.
pub fn chunk_chars(s: &str, n: usize) -> (r: Vec<String>)
    requires
        n > 0,
    ensures
        r.deep_view() == char_chunks(s@, n as nat),
{
    let len = s.unicode_len();
    let mut r: Vec<String> = Vec::new();
    let mut pos: usize = 0;
    assert(s@.skip(0) =~= s@);
    assert(r.deep_view() =~= Seq::<Seq<char>>::empty());
    while pos < len
        invariant
            n > 0,
            len == s@.len(),
            pos <= len,
            r.deep_view() + char_chunks(s@.skip(pos as int), n as nat) == char_chunks(s@, n as nat),
        decreases len - pos,
    {
        let ghost rest = s@.skip(pos as int);
        let end = if len - pos <= n { len } else { pos + n };
        let piece = s.substring_char(pos, end);
        let ghost before = r.deep_view();
        r.push(piece.to_owned());
        assert(r.deep_view() =~= before.push(piece@));
        if len - pos <= n {
            assert(rest =~= s@.subrange(pos as int, end as int));
            assert(s@.skip(end as int) =~= Seq::<char>::empty());
            assert(char_chunks(s@.skip(end as int), n as nat) =~= Seq::<Seq<char>>::empty());
        } else {
            assert(rest.take(n as int) =~= s@.subrange(pos as int, end as int));
            assert(rest.skip(n as int) =~= s@.skip(end as int));
        }
        assert(before + char_chunks(rest, n as nat) == char_chunks(s@, n as nat));
        assert(r.deep_view() + char_chunks(s@.skip(end as int), n as nat) =~= before + char_chunks(rest, n as nat));
        pos = end;
    }
    assert(s@.skip(pos as int) =~= Seq::<char>::empty());
    assert(r.deep_view() + char_chunks(Seq::<char>::empty(), n as nat) =~= r.deep_view());
    r
}

/// What `s.get(..n)` gives: the first `n` bytes of `s` when they end on a
/// character boundary, and nothing otherwise.
pub fn byte_prefix(s: &str, n: usize) -> (r: Option<String>)
    ensures
        r is Some <==> (n <= encode_utf8(s@).len() && is_char_boundary(encode_utf8(s@), n as int)),
        r matches Some(p) ==> encode_utf8(p@) == encode_utf8(s@).subrange(0, n as int),
{
    proof {
        encode_utf8_valid_utf8(s@);
    }
    if s.is_char_boundary(n) {
        let (head, _tail) = s.split_at(n);
        Some(head.to_owned())
    } else {
        None
    }
}

} // verus!
