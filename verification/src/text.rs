//! Decimal and hexadecimal text for the numbers that SVG output holds.
use vstd::prelude::*;

verus! {

/// The character of a decimal digit.
pub open spec fn digit_char(d: nat) -> char {
    if d == 0 { '0' } else if d == 1 { '1' } else if d == 2 { '2' } else if d == 3 { '3' }
    else if d == 4 { '4' } else if d == 5 { '5' } else if d == 6 { '6' } else if d == 7 { '7' }
    else if d == 8 { '8' } else { '9' }
}

/// The character of a lowercase hexadecimal digit.
pub open spec fn hex_char(d: nat) -> char {
    if d < 10 { digit_char(d) } else if d == 10 { 'a' } else if d == 11 { 'b' } else if d == 12 { 'c' }
    else if d == 13 { 'd' } else if d == 14 { 'e' } else { 'f' }
}

/// The decimal text of a natural number, without leading zeros.
pub open spec fn nat_text(n: nat) -> Seq<char>
    decreases n,
{
    if n < 10 {
        seq![digit_char(n)]
    } else {
        nat_text(n / 10) + seq![digit_char(n % 10)]
    }
}

/// The fraction part of a number held in thousandths: empty when it is zero,
/// else a point and up to three digits with trailing zeros dropped.
pub open spec fn frac_text(f: nat) -> Seq<char> {
    if f == 0 {
        Seq::empty()
    } else if f % 100 == 0 {
        seq!['.', digit_char(f / 100)]
    } else if f % 10 == 0 {
        seq!['.', digit_char(f / 100), digit_char((f / 10) % 10)]
    } else {
        seq!['.', digit_char(f / 100), digit_char((f / 10) % 10), digit_char(f % 10)]
    }
}

/// The absolute value of an integer.
pub open spec fn abs(v: int) -> nat {
    if v < 0 { (-v) as nat } else { v as nat }
}

/// The decimal text of `v / 1000`, for a length held in thousandths of a pixel:
/// a minus sign for negative values, the integer part, then `frac_text`.
pub open spec fn units_text(v: int) -> Seq<char> {
    (if v < 0 { seq!['-'] } else { Seq::empty() }) + nat_text(abs(v) / 1000) + frac_text(abs(v) % 1000)
}

/// The two lowercase hexadecimal digits of a byte.
pub open spec fn hex_byte_text(b: u8) -> Seq<char> {
    seq![hex_char((b / 16) as nat), hex_char((b % 16) as nat)]
}

/// One character as a string literal.
fn digit_str(d: u64) -> (r: &'static str)
    requires
        d < 16,
    ensures
        r@ == seq![hex_char(d as nat)],
{
    proof {
        reveal_strlit("0"); reveal_strlit("1"); reveal_strlit("2"); reveal_strlit("3");
        reveal_strlit("4"); reveal_strlit("5"); reveal_strlit("6"); reveal_strlit("7");
        reveal_strlit("8"); reveal_strlit("9"); reveal_strlit("a"); reveal_strlit("b");
        reveal_strlit("c"); reveal_strlit("d"); reveal_strlit("e"); reveal_strlit("f");
    }
    if d == 0 { "0" } else if d == 1 { "1" } else if d == 2 { "2" } else if d == 3 { "3" }
    else if d == 4 { "4" } else if d == 5 { "5" } else if d == 6 { "6" } else if d == 7 { "7" }
    else if d == 8 { "8" } else if d == 9 { "9" } else if d == 10 { "a" } else if d == 11 { "b" }
    else if d == 12 { "c" } else if d == 13 { "d" } else if d == 14 { "e" } else { "f" }
}

/// Appends the decimal text of `n`.
pub fn push_nat(s: &mut String, n: u128)
    ensures
        final(s)@ == old(s)@ + nat_text(n as nat),
    decreases n,
{
    if n >= 10 {
        push_nat(s, n / 10);
    }
    let d = digit_str((n % 10) as u64);
    s.append(d);
    assert(final(s)@ =~= old(s)@ + nat_text(n as nat)) by {
        if n >= 10 {
            assert(nat_text(n as nat) == nat_text((n / 10) as nat) + seq![digit_char((n % 10) as nat)]);
        }
    }
}

/// Appends the text of a length held in thousandths (see `units_text`).
pub fn push_units(s: &mut String, v: i128)
    ensures
        final(s)@ == old(s)@ + units_text(v as int),
{
    let a: u128 = if v == i128::MIN {
        0x8000_0000_0000_0000_0000_0000_0000_0000
    } else if v < 0 {
        (-v) as u128
    } else {
        v as u128
    };
    assert(a == abs(v as int));
    let ghost s0 = s@;
    if v < 0 {
        s.append("-");
        proof { reveal_strlit("-"); }
    }
    let ghost s1 = s@;
    assert(s1 == s0 + (if v < 0 { seq!['-'] } else { Seq::<char>::empty() }));
    push_nat(s, a / 1000);
    let f = a % 1000;
    if f != 0 {
        s.append(".");
        proof { reveal_strlit("."); }
        s.append(digit_str((f / 100) as u64));
        if f % 100 != 0 {
            s.append(digit_str(((f / 10) % 10) as u64));
            if f % 10 != 0 {
                s.append(digit_str((f % 10) as u64));
            }
        }
    }
    assert(final(s)@ =~= old(s)@ + units_text(v as int));
}

/// Appends the two lowercase hexadecimal digits of a byte.
pub fn push_hex_byte(s: &mut String, b: u8)
    ensures
        final(s)@ == old(s)@ + hex_byte_text(b),
{
    s.append(digit_str((b / 16) as u64));
    s.append(digit_str((b % 16) as u64));
    assert(final(s)@ =~= old(s)@ + hex_byte_text(b));
}


/// A piece of SVG text: a literal, a number, or a string made elsewhere.
#[derive(Debug, Clone)]
pub enum Piece {
    /// Literal text.
    Lit(&'static str),
    /// A length in thousandths of a pixel, written in pixels (see `units_text`).
    Units(i128),
    /// A natural number in decimal.
    Nat(u64),
    /// A byte as two lowercase hexadecimal digits.
    HexByte(u8),
    /// Text made elsewhere.
    Owned(String),
}

/// The text of one piece.
pub open spec fn piece_text(p: Piece) -> Seq<char> {
    match p {
        Piece::Lit(s) => s@,
        Piece::Units(v) => units_text(v as int),
        Piece::Nat(n) => nat_text(n as nat),
        Piece::HexByte(b) => hex_byte_text(b),
        Piece::Owned(s) => s@,
    }
}

/// The text of a sequence of pieces, one after another.
pub open spec fn pieces_text(ps: Seq<Piece>) -> Seq<char>
    decreases ps.len(),
{
    if ps.len() == 0 {
        Seq::empty()
    } else {
        pieces_text(ps.drop_last()) + piece_text(ps.last())
    }
}

/// The text of two sequences of pieces is the text of the first, then that of the second.
pub proof fn lemma_pieces_text_concat(a: Seq<Piece>, b: Seq<Piece>)
    ensures
        pieces_text(a + b) == pieces_text(a) + pieces_text(b),
    decreases b.len(),
{
    if b.len() == 0 {
        assert(a + b =~= a);
        assert(pieces_text(b) =~= Seq::<char>::empty());
        assert(pieces_text(a) + pieces_text(b) =~= pieces_text(a));
    } else {
        lemma_pieces_text_concat(a, b.drop_last());
        assert((a + b).drop_last() =~= a + b.drop_last());
        assert((a + b).last() == b.last());
        assert(pieces_text(a + b) =~= pieces_text(a) + pieces_text(b));
    }
}

/// Appends the text of one piece.
pub fn push_piece(s: &mut String, p: &Piece)
    ensures
        final(s)@ == old(s)@ + piece_text(*p),
{
    match p {
        Piece::Lit(t) => s.append(t),
        Piece::Units(v) => push_units(s, *v),
        Piece::Nat(n) => push_nat(s, *n as u128),
        Piece::HexByte(b) => push_hex_byte(s, *b),
        Piece::Owned(t) => s.append(t.as_str()),
    }
}

/// The text of a sequence of pieces, as a string.
pub fn pieces_to_string(ps: &Vec<Piece>) -> (s: String)
    ensures
        s@ == pieces_text(ps@),
{
    let mut s = String::new();
    let mut i: usize = 0;
    while i < ps.len()
        invariant
            i <= ps@.len(),
            s@ == pieces_text(ps@.take(i as int)),
        decreases ps@.len() - i,
    {
        push_piece(&mut s, &ps[i]);
        assert(ps@.take(i + 1).drop_last() =~= ps@.take(i as int));
        i = i + 1;
    }
    assert(ps@.take(ps@.len() as int) =~= ps@);
    s
}

} // verus!
