//! Text helpers: string equality, and decimal and hexadecimal text of numbers.
use vstd::prelude::*;
use vstd::string::*;

verus! {

/// The character of a decimal digit.
pub open spec fn digit_char(d: nat) -> char
    recommends
        d < 10,
{
    ((d + 48) as u32) as char
}

/// `n` in decimal, left-padded with zeros to at least `w` digits.
pub open spec fn padded(n: nat, w: nat) -> Seq<char>
    decreases n + w,
{
    if n < 10 && w <= 1 {
        seq![digit_char(n)]
    } else {
        padded(n / 10, if w > 0 { (w - 1) as nat } else { 0 }) + seq![digit_char(n % 10)]
    }
}

/// Relies on `String::push`: the character is appended at the end.
pub assume_specification[ String::push ](s: &mut String, ch: char)
    ensures
        final(s)@ == old(s)@.push(ch),
;

fn digit(d: u64) -> (c: char)
    requires
        d < 10,
    ensures
        c == digit_char(d as nat),
{
    ((d + 48) as u8) as char
}

/// Appends `n` in decimal, left-padded with zeros to at least `w` digits.
pub fn push_padded(out: &mut String, n: u64, w: u64)
    ensures
        final(out)@ == old(out)@ + padded(n as nat, w as nat),
    decreases n + w,
{
    if n < 10 && w <= 1 {
        out.push(digit(n));
    } else {
        push_padded(out, n / 10, if w > 0 { w - 1 } else { 0 });
        out.push(digit(n % 10));
    }
    assert(out@ =~= old(out)@ + padded(n as nat, w as nat));
}

/// Character-wise equality of two strings.
pub fn text_eq(a: &str, b: &str) -> (r: bool)
    ensures
        r == (a@ == b@),
{
    let n = a.unicode_len();
    if n != b.unicode_len() {
        return false;
    }
    let mut i: usize = 0;
    while i < n
        invariant
            n == a@.len(),
            n == b@.len(),
            i <= n,
            forall|j: int| 0 <= j < i ==> a@[j] == b@[j],
        decreases n - i,
    {
        if a.get_char(i) != b.get_char(i) {
            return false;
        }
        i = i + 1;
    }
    assert(a@ =~= b@);
    true
}

/// The lower-case hexadecimal character of a value below 16.
pub open spec fn hex_char(d: nat) -> char
    recommends
        d < 16,
{
    if d < 10 {
        digit_char(d)
    } else {
        ((d - 10 + 97) as u32) as char
    }
}

/// Two lower-case hexadecimal characters for each byte, most significant nibble first.
pub open spec fn hex_text(b: Seq<u8>) -> Seq<char>
    decreases b.len(),
{
    if b.len() == 0 {
        Seq::empty()
    } else {
        hex_text(b.drop_last()) + seq![hex_char(b.last() as nat / 16), hex_char(b.last() as nat % 16)]
    }
}

pub open spec fn is_digit(c: char) -> bool {
    '0' <= c && c <= '9'
}

pub open spec fn is_hex_digit(c: char) -> bool {
    ('0' <= c && c <= '9') || ('a' <= c && c <= 'f')
}

fn hex_digit(d: u8) -> (c: char)
    requires
        d < 16,
    ensures
        c == hex_char(d as nat),
{
    if d < 10 {
        (d + 48) as char
    } else {
        (d - 10 + 97) as char
    }
}

/// Appends the lower-case hexadecimal text of `b`.
pub fn push_hex(out: &mut String, b: &[u8])
    ensures
        final(out)@ == old(out)@ + hex_text(b@),
{
    let ghost start = out@;
    let mut i: usize = 0;
    while i < b.len()
        invariant
            i <= b@.len(),
            out@ == start + hex_text(b@.subrange(0, i as int)),
        decreases b@.len() - i,
    {
        let x = b[i];
        out.push(hex_digit(x / 16));
        out.push(hex_digit(x % 16));
        proof {
            let next = b@.subrange(0, i + 1);
            assert(next.drop_last() =~= b@.subrange(0, i as int));
            assert(next.last() == x);
        }
        i = i + 1;
        assert(out@ =~= start + hex_text(b@.subrange(0, i as int)));
    }
    assert(b@.subrange(0, b@.len() as int) =~= b@);
}

/// The hexadecimal text has two characters per byte, each a hexadecimal digit.
pub proof fn lemma_hex_text_shape(b: Seq<u8>)
    ensures
        hex_text(b).len() == 2 * b.len(),
        forall|i: int| 0 <= i < hex_text(b).len() ==> is_hex_digit(#[trigger] hex_text(b)[i]),
    decreases b.len(),
{
    if b.len() > 0 {
        lemma_hex_text_shape(b.drop_last());
    }
}

/// Hexadecimal text determines the bytes it was made from.
pub proof fn lemma_hex_text_injective(a: Seq<u8>, b: Seq<u8>)
    requires
        hex_text(a) == hex_text(b),
    ensures
        a == b,
    decreases a.len(),
{
    lemma_hex_text_shape(a);
    lemma_hex_text_shape(b);
    if a.len() > 0 {
        let ha = hex_text(a);
        let pa = hex_text(a.drop_last());
        let pb = hex_text(b.drop_last());
        lemma_hex_text_shape(a.drop_last());
        lemma_hex_text_shape(b.drop_last());
        assert(pa =~= ha.subrange(0, ha.len() - 2));
        assert(pb =~= ha.subrange(0, ha.len() - 2));
        lemma_hex_text_injective(a.drop_last(), b.drop_last());
        let x = a.last() as nat;
        let y = b.last() as nat;
        assert(ha[ha.len() - 2] == hex_char(x / 16));
        assert(ha[ha.len() - 1] == hex_char(x % 16));
        assert(hex_text(b)[ha.len() - 2] == hex_char(y / 16));
        assert(hex_text(b)[ha.len() - 1] == hex_char(y % 16));
        assert(x / 16 == y / 16);
        assert(x % 16 == y % 16);
        assert(x == y);
        assert(a =~= a.drop_last().push(a.last()));
        assert(b =~= b.drop_last().push(b.last()));
    }
}

/// Unpadded decimal text of a positive number times ten is its text and a zero.
pub proof fn lemma_padded_times_ten(n: nat)
    requires
        n > 0,
    ensures
        padded(n * 10, 1) == padded(n, 1) + seq!['0'],
{
    assert((n * 10) / 10 == n);
    assert((n * 10) % 10 == 0);
    assert(padded(n, 0) == padded(n, 1));
}

/// Zero-padded decimal text is made of digits and is at least as long as the padding width.
pub proof fn lemma_padded_shape(n: nat, w: nat)
    ensures
        padded(n, w).len() >= 1,
        padded(n, w).len() >= w,
        n < 100 && w == 2 ==> padded(n, w).len() == 2,
        forall|i: int| 0 <= i < padded(n, w).len() ==> is_digit(#[trigger] padded(n, w)[i]),
    decreases n + w,
{
    if !(n < 10 && w <= 1) {
        lemma_padded_shape(n / 10, if w > 0 { (w - 1) as nat } else { 0 });
    }
}

/// Zero-padded decimal text of one width determines the number.
pub proof fn lemma_padded_injective(a: nat, b: nat, w: nat)
    requires
        padded(a, w) == padded(b, w),
    ensures
        a == b,
    decreases a + w,
{
    let pa = padded(a, w);
    lemma_padded_shape(a, w);
    lemma_padded_shape(b, w);
    let w1: nat = if w > 0 { (w - 1) as nat } else { 0 };
    if a < 10 && w <= 1 {
        if !(b < 10) {
            lemma_padded_shape(b / 10, w1);
        }
        assert(pa[0] == digit_char(a));
        assert(padded(b, w)[0] == digit_char(b));
    } else {
        lemma_padded_shape(a / 10, w1);
        if b < 10 && w <= 1 {
        } else {
            lemma_padded_shape(b / 10, w1);
            assert(padded(a / 10, w1) =~= pa.drop_last());
            assert(padded(b / 10, w1) =~= pa.drop_last());
            lemma_padded_injective(a / 10, b / 10, w1);
            assert(pa.last() == digit_char(a % 10));
            assert(padded(b, w).last() == digit_char(b % 10));
        }
    }
}

} // verus!
