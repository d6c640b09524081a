//! Text encodings used on the wire: decimal numbers, lowercase hexadecimal,
//! and positional JSON parameter lists.
use vstd::prelude::*;
use vstd::string::*;

verus! {

/// The character that writes the digit `d` (below sixteen) in lowercase hexadecimal.
/// The first ten are also the decimal digits.
pub open spec fn hex_digit(d: nat) -> char {
    if d == 0 { '0' }
    else if d == 1 { '1' }
    else if d == 2 { '2' }
    else if d == 3 { '3' }
    else if d == 4 { '4' }
    else if d == 5 { '5' }
    else if d == 6 { '6' }
    else if d == 7 { '7' }
    else if d == 8 { '8' }
    else if d == 9 { '9' }
    else if d == 10 { 'a' }
    else if d == 11 { 'b' }
    else if d == 12 { 'c' }
    else if d == 13 { 'd' }
    else if d == 14 { 'e' }
    else { 'f' }
}

/// The value of a lowercase hexadecimal digit, if `c` is one.
pub open spec fn hex_value(c: char) -> Option<u8> {
    if c == '0' { Some(0u8) }
    else if c == '1' { Some(1u8) }
    else if c == '2' { Some(2u8) }
    else if c == '3' { Some(3u8) }
    else if c == '4' { Some(4u8) }
    else if c == '5' { Some(5u8) }
    else if c == '6' { Some(6u8) }
    else if c == '7' { Some(7u8) }
    else if c == '8' { Some(8u8) }
    else if c == '9' { Some(9u8) }
    else if c == 'a' { Some(10u8) }
    else if c == 'b' { Some(11u8) }
    else if c == 'c' { Some(12u8) }
    else if c == 'd' { Some(13u8) }
    else if c == 'e' { Some(14u8) }
    else if c == 'f' { Some(15u8) }
    else { None }
}

/// Lowercase hexadecimal text of a byte string: two digits per byte, high nibble first.
pub open spec fn hex_of(b: Seq<u8>) -> Seq<char>
    decreases b.len(),
{
    if b.len() == 0 {
        Seq::empty()
    } else {
        hex_of(b.drop_last()) + seq![hex_digit((b.last() / 16) as nat), hex_digit((b.last() % 16) as nat)]
    }
}

/// The bytes that a hexadecimal text stands for, if it is made of whole pairs of
/// lowercase hexadecimal digits.
pub open spec fn bytes_of_hex(s: Seq<char>) -> Option<Seq<u8>>
    decreases s.len(),
{
    if s.len() == 0 {
        Some(Seq::empty())
    } else if s.len() < 2 {
        None
    } else {
        match (bytes_of_hex(s.subrange(0, s.len() - 2)), hex_value(s[s.len() - 2]), hex_value(s[s.len() - 1])) {
            (Some(front), Some(hi), Some(lo)) => Some(front.push((hi * 16 + lo) as u8)),
            _ => None,
        }
    }
}

/// Decimal text of a natural number, without leading zeros.
pub open spec fn decimal(n: nat) -> Seq<char>
    decreases n,
{
    if n < 10 {
        seq![hex_digit(n)]
    } else {
        decimal(n / 10) + seq![hex_digit(n % 10)]
    }
}

/// A JSON string literal holding `s`, as the backend reads its string parameters.
pub open spec fn quoted(s: Seq<char>) -> Seq<char> {
    seq!['"'] + s + seq!['"']
}

/// Parameters written one after another, separated by a comma and a space.
pub open spec fn joined(ps: Seq<Seq<char>>) -> Seq<char>
    decreases ps.len(),
{
    if ps.len() == 0 {
        Seq::empty()
    } else if ps.len() == 1 {
        ps[0]
    } else {
        joined(ps.drop_last()) + ", "@ + ps.last()
    }
}

/// The views of a list of strings.
pub open spec fn views(v: Seq<String>) -> Seq<Seq<char>> {
    v.map_values(|s: String| s@)
}

/// Every byte string survives writing it as hexadecimal and reading it back.
pub proof fn lemma_hex_round_trip(b: Seq<u8>)
    ensures
        bytes_of_hex(hex_of(b)) == Some(b),
    decreases b.len(),
{
    if b.len() > 0 {
        let h = hex_of(b);
        let front = b.drop_last();
        lemma_hex_round_trip(front);
        let hi = b.last() / 16;
        let lo = b.last() % 16;
        assert(h.len() == hex_of(front).len() + 2);
        assert(h.subrange(0, h.len() - 2) =~= hex_of(front));
        assert(h[h.len() - 2] == hex_digit(hi as nat));
        assert(h[h.len() - 1] == hex_digit(lo as nat));
        assert(hex_value(hex_digit(hi as nat)) == Some(hi));
        assert(hex_value(hex_digit(lo as nat)) == Some(lo));
        assert(front.push((hi * 16 + lo) as u8) =~= b);
    }
}

/// The one-character text of a decimal digit.
fn digit_text(d: u64) -> (r: &'static str)
    requires
        d < 10,
    ensures
        r@ == seq![hex_digit(d as nat)],
{
    if d == 0 { proof { reveal_strlit("0"); } "0" }
    else if d == 1 { proof { reveal_strlit("1"); } "1" }
    else if d == 2 { proof { reveal_strlit("2"); } "2" }
    else if d == 3 { proof { reveal_strlit("3"); } "3" }
    else if d == 4 { proof { reveal_strlit("4"); } "4" }
    else if d == 5 { proof { reveal_strlit("5"); } "5" }
    else if d == 6 { proof { reveal_strlit("6"); } "6" }
    else if d == 7 { proof { reveal_strlit("7"); } "7" }
    else if d == 8 { proof { reveal_strlit("8"); } "8" }
    else { proof { reveal_strlit("9"); } "9" }
}

/// Appends the decimal text of `n` to `s`.
pub fn push_decimal(s: &mut String, n: u64)
    ensures
        final(s)@ == old(s)@ + decimal(n as nat),
    decreases n,
{
    if n >= 10 {
        push_decimal(s, n / 10);
    }
    s.append(digit_text(n % 10));
    assert(final(s)@ =~= old(s)@ + decimal(n as nat));
}

/// Decimal text of `n`.
pub fn decimal_text(n: u64) -> (r: String)
    ensures
        r@ == decimal(n as nat),
{
    let mut s = String::new();
    push_decimal(&mut s, n);
    assert(s@ =~= decimal(n as nat));
    s
}

/// Wraps `s` in double quotes, making it a JSON string parameter.
pub fn quote(s: &str) -> (r: String)
    ensures
        r@ == quoted(s@),
{
    proof { reveal_strlit("\""); }
    let mut r = String::new();
    r.append("\"");
    r.append(s);
    r.append("\"");
    assert(r@ =~= quoted(s@));
    r
}

/// Appends the parameters to `s`, separated by a comma and a space.
pub fn push_joined(s: &mut String, ps: &Vec<String>)
    ensures
        final(s)@ == old(s)@ + joined(views(ps@)),
{
    let ghost start = s@;
    let ghost vs = views(ps@);
    for i in 0..ps.len()
        invariant
            vs == views(ps@),
            s@ == start + joined(vs.take(i as int)),
    {
        if i > 0 {
            s.append(", ");
            assert(vs.take(i + 1).drop_last() =~= vs.take(i as int));
        } else {
            assert(vs.take(1) =~= seq![vs[0]]);
        }
        s.append(ps[i].as_str());
        assert(s@ =~= start + joined(vs.take(i + 1)));
    }
    assert(vs.take(ps.len() as int) =~= vs);
}

/// Lowercase hexadecimal text of a byte string.
/// Relies on `hex::encode`, which writes each byte as its high then its low
/// nibble, taken from the table `0123456789abcdef`.
#[verifier::external_body]
pub(crate) fn to_hex(b: &Vec<u8>) -> (r: String)
    ensures
        r@ == hex_of(b@),
{
    hex::encode(b)
}

} // verus!
