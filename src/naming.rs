//! Default output names, derived from the capture time, which the caller reads
//! from the clock.
use vstd::prelude::*;
use vstd::string::*;
use crate::params::{format_text, ImageFormat, ParameterSet};
use crate::text::{hex_text, is_digit, is_hex_digit, padded, push_hex, push_padded};
#[allow(unused_imports)]
use crate::text::{lemma_hex_text_injective, lemma_hex_text_shape, lemma_padded_injective, lemma_padded_shape};

verus! {

/// A local calendar date and time of day, to the second.
#[derive(Clone, Copy, Debug, PartialEq, Eq, Structural)]
pub struct Timestamp {
    pub year: i32,
    pub month: u32,
    pub day: u32,
    pub hour: u32,
    pub minute: u32,
    pub second: u32,
}

impl Timestamp {
    /// Each field lies in its calendar range.
    pub open spec fn wf(&self) -> bool {
        &&& 1 <= self.month <= 12
        &&& 1 <= self.day <= 31
        &&& self.hour < 24
        &&& self.minute < 60
        &&& self.second < 60
    }
}

/// The year in at least four digits; a year outside 0 to 9999 carries its sign.
pub open spec fn year_text(y: int) -> Seq<char> {
    if 0 <= y <= 9999 {
        padded(y as nat, 4)
    } else if y < 0 {
        seq!['-'] + padded((-y) as nat, 4)
    } else {
        seq!['+'] + padded(y as nat, 4)
    }
}

/// The timestamp as year, month, day, hour, minute and second, with no separators
/// and each part after the year in two digits.
pub open spec fn stamp_text(t: Timestamp) -> Seq<char> {
    year_text(t.year as int) + padded(t.month as nat, 2) + padded(t.day as nat, 2) + padded(
        t.hour as nat,
        2,
    ) + padded(t.minute as nat, 2) + padded(t.second as nat, 2)
}

/// The digest of a text, as MD5 computes it over the text's UTF-8 bytes.
pub uninterp spec fn md5_of(text: Seq<char>) -> Seq<u8>;

/// A file name from a digest: the digest in lower-case hexadecimal, a dot, the extension.
pub open spec fn name_text(digest: Seq<u8>, format: ImageFormat) -> Seq<char> {
    hex_text(digest) + seq!['.'] + format_text(format)
}

/// The default name for a capture made at `t`.
pub open spec fn default_name_text(t: Timestamp, format: ImageFormat) -> Seq<char> {
    name_text(md5_of(stamp_text(t)), format)
}

/// The shape of a default name: 32 lower-case hexadecimal digits, a dot, the extension.
pub open spec fn is_default_name(s: Seq<char>, format: ImageFormat) -> bool {
    &&& s.len() == 33 + format_text(format).len()
    &&& forall|i: int| 0 <= i < 32 ==> is_hex_digit(#[trigger] s[i])
    &&& s[32] == '.'
    &&& s.subrange(33, s.len() as int) == format_text(format)
}

/// Relies on `md5::compute`: the sixteen-byte MD5 digest of the text's bytes.
#[verifier::external_body]
fn md5_digest(text: &str) -> (r: [u8; 16])
    ensures
        r@ == md5_of(text@),
{
    md5::compute(text).0
}

/// The timestamp's text, as `stamp_text` gives it.
pub fn timestamp_text(t: &Timestamp) -> (r: String)
    ensures
        r@ == stamp_text(*t),
{
    let mut out = String::new();
    if t.year >= 0 && t.year <= 9999 {
        push_padded(&mut out, t.year as u64, 4);
    } else if t.year < 0 {
        out.push('-');
        push_padded(&mut out, (0i64 - t.year as i64) as u64, 4);
    } else {
        out.push('+');
        push_padded(&mut out, t.year as u64, 4);
    }
    push_padded(&mut out, t.month as u64, 2);
    push_padded(&mut out, t.day as u64, 2);
    push_padded(&mut out, t.hour as u64, 2);
    push_padded(&mut out, t.minute as u64, 2);
    push_padded(&mut out, t.second as u64, 2);
    assert(out@ =~= stamp_text(*t));
    out
}

/// The file name for a digest and a format.
pub fn name_from_digest(digest: &[u8], format: ImageFormat) -> (r: String)
    ensures
        r@ == name_text(digest@, format),
{
    let mut out = String::new();
    push_hex(&mut out, digest);
    out.push('.');
    let ext = format.extension();
    let r = out.concat(ext.as_str());
    assert(r@ =~= name_text(digest@, format));
    r
}

/// The default name of a capture made at `t`: the MD5 digest of the timestamp's
/// text in hexadecimal, then the format's extension.
pub fn default_name(t: &Timestamp, format: ImageFormat) -> (r: String)
    ensures
        r@ == default_name_text(*t, format),
        is_default_name(r@, format),
{
    let stamp = timestamp_text(t);
    let digest = md5_digest(stamp.as_str());
    let r = name_from_digest(&digest, format);
    proof {
        lemma_hex_text_shape(digest@);
        let h = hex_text(digest@);
        assert(r@.subrange(33, r@.len() as int) =~= format_text(format));
        assert forall|i: int| 0 <= i < 32 implies is_hex_digit(#[trigger] r@[i]) by {
            assert(r@[i] == h[i]);
        }
    }
    r
}

/// The path the capture is written to: the one given, or else the default name
/// for a capture made at `now`.
pub fn resolve_output_path(params: &ParameterSet, now: &Timestamp) -> (r: String)
    ensures
        params.output_path is Some ==> r@ == params.output_path.unwrap()@,
        params.output_path is None ==> r@ == default_name_text(*now, params.format),
        params.output_path is None ==> is_default_name(r@, params.format),
{
    match &params.output_path {
        Some(p) => p.clone(),
        None => default_name(now, params.format),
    }
}

/// The year's text determines the year.
pub proof fn lemma_year_text_injective(x: int, y: int)
    requires
        year_text(x) == year_text(y),
    ensures
        x == y,
{
    let tx = year_text(x);
    let ax: nat = if x < 0 { (-x) as nat } else { x as nat };
    let ay: nat = if y < 0 { (-y) as nat } else { y as nat };
    lemma_padded_shape(ax, 4);
    lemma_padded_shape(ay, 4);
    let in_x = 0 <= x <= 9999;
    let in_y = 0 <= y <= 9999;
    if in_x && in_y {
        lemma_padded_injective(ax, ay, 4);
    } else if in_x {
        assert(is_digit(padded(ax, 4)[0]));
        assert(tx[0] == padded(ax, 4)[0]);
        assert(tx[0] == year_text(y)[0]);
    } else if in_y {
        assert(is_digit(padded(ay, 4)[0]));
        assert(tx[0] == padded(ay, 4)[0]);
        assert(tx[0] == year_text(x)[0]);
    } else {
        assert(tx[0] == (if x < 0 { '-' } else { '+' }));
        assert(year_text(y)[0] == (if y < 0 { '-' } else { '+' }));
        assert(padded(ax, 4) =~= tx.drop_first());
        assert(padded(ay, 4) =~= tx.drop_first());
        lemma_padded_injective(ax, ay, 4);
    }
}

/// Two different valid timestamps have different texts, so they are hashed from
/// different inputs.
pub proof fn lemma_stamp_text_injective(a: Timestamp, b: Timestamp)
    requires
        a.wf(),
        b.wf(),
        a != b,
    ensures
        stamp_text(a) != stamp_text(b),
{
    if stamp_text(a) == stamp_text(b) {
        let s = stamp_text(a);
        let n = s.len() as int;
        lemma_padded_shape(a.month as nat, 2);
        lemma_padded_shape(a.day as nat, 2);
        lemma_padded_shape(a.hour as nat, 2);
        lemma_padded_shape(a.minute as nat, 2);
        lemma_padded_shape(a.second as nat, 2);
        lemma_padded_shape(b.month as nat, 2);
        lemma_padded_shape(b.day as nat, 2);
        lemma_padded_shape(b.hour as nat, 2);
        lemma_padded_shape(b.minute as nat, 2);
        lemma_padded_shape(b.second as nat, 2);
        let sb = stamp_text(b);
        assert(year_text(a.year as int) =~= s.subrange(0, n - 10));
        assert(year_text(b.year as int) =~= sb.subrange(0, n - 10));
        assert(padded(a.month as nat, 2) =~= s.subrange(n - 10, n - 8));
        assert(padded(b.month as nat, 2) =~= sb.subrange(n - 10, n - 8));
        assert(padded(a.day as nat, 2) =~= s.subrange(n - 8, n - 6));
        assert(padded(b.day as nat, 2) =~= sb.subrange(n - 8, n - 6));
        assert(padded(a.hour as nat, 2) =~= s.subrange(n - 6, n - 4));
        assert(padded(b.hour as nat, 2) =~= sb.subrange(n - 6, n - 4));
        assert(padded(a.minute as nat, 2) =~= s.subrange(n - 4, n - 2));
        assert(padded(b.minute as nat, 2) =~= sb.subrange(n - 4, n - 2));
        assert(padded(a.second as nat, 2) =~= s.subrange(n - 2, n));
        assert(padded(b.second as nat, 2) =~= sb.subrange(n - 2, n));
        lemma_year_text_injective(a.year as int, b.year as int);
        lemma_padded_injective(a.month as nat, b.month as nat, 2);
        lemma_padded_injective(a.day as nat, b.day as nat, 2);
        lemma_padded_injective(a.hour as nat, b.hour as nat, 2);
        lemma_padded_injective(a.minute as nat, b.minute as nat, 2);
        lemma_padded_injective(a.second as nat, b.second as nat, 2);
    }
}

/// Different digests give different names, whatever the format.
pub proof fn lemma_name_text_injective(d1: Seq<u8>, d2: Seq<u8>, format: ImageFormat)
    requires
        d1 != d2,
    ensures
        name_text(d1, format) != name_text(d2, format),
{
    if name_text(d1, format) == name_text(d2, format) {
        let s = name_text(d1, format);
        let k = format_text(format).len() + 1;
        assert(hex_text(d1) =~= s.subrange(0, s.len() - k));
        assert(hex_text(d2) =~= name_text(d2, format).subrange(0, s.len() - k));
        lemma_hex_text_injective(d1, d2);
    }
}

/// A name ends in a dot and the format's extension.
pub proof fn lemma_name_text_extension(digest: Seq<u8>, format: ImageFormat)
    ensures
        ({
            let s = name_text(digest, format);
            let k = format_text(format).len() + 1;
            s.len() >= k && s.subrange(s.len() - k, s.len() as int) == seq!['.'] + format_text(format)
        }),
{
    let s = name_text(digest, format);
    let k = format_text(format).len() + 1;
    assert(s.subrange(s.len() - k, s.len() as int) =~= seq!['.'] + format_text(format));
}

} // verus!
