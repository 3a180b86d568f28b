//! Slugs: a short, stable identifier derived from the lower-cased URL, and
//! the validator that decides which URLs are accepted.
use vstd::prelude::*;
use crate::grammar::{url_grammar, matches_url_grammar};
use data_encoding::BASE64URL_NOPAD;
use rand::Rng;
use rand_pcg::Pcg64;
use rand_seeder::Seeder;

verus! {

/// What `str::to_lowercase` returns for the given characters.
pub uninterp spec fn lower_of(s: Seq<char>) -> Seq<char>;

/// The `u16` drawn first from a `Pcg64` generator seeded with the given text.
pub uninterp spec fn seeded_u16_of(seed: Seq<char>) -> u16;

/// Relies on `str::to_lowercase`: the result depends on the characters alone,
/// and the empty string stays empty.
#[verifier::external_body]
fn lowercase(s: &str) -> (r: String)
    ensures
        r@ == lower_of(s@),
        s@.len() == 0 ==> r@.len() == 0,
{
    s.to_lowercase()
}

/// Relies on `rand_seeder::Seeder::from`, `Seeder::make_rng::<Pcg64>` and
/// `rand::Rng::gen::<u16>`: seeding hashes the text with a fixed key, so the
/// value drawn depends on the text alone.
#[verifier::external_body]
fn seeded_u16(seed: &String) -> (r: u16)
    ensures
        r == seeded_u16_of(seed@),
{
    let mut rng: Pcg64 = Seeder::from(seed).make_rng();
    rng.gen::<u16>()
}

/// The URL-safe base64 alphabet (RFC 4648, section 5).
pub open spec fn base64url_alphabet() -> Seq<char> {
    seq![
        'A', 'B', 'C', 'D', 'E', 'F', 'G', 'H', 'I', 'J', 'K', 'L', 'M', 'N', 'O', 'P', 'Q', 'R',
        'S', 'T', 'U', 'V', 'W', 'X', 'Y', 'Z', 'a', 'b', 'c', 'd', 'e', 'f', 'g', 'h', 'i', 'j',
        'k', 'l', 'm', 'n', 'o', 'p', 'q', 'r', 's', 't', 'u', 'v', 'w', 'x', 'y', 'z', '0', '1',
        '2', '3', '4', '5', '6', '7', '8', '9', '-', '_',
    ]
}

/// Unpadded URL-safe base64 of the two bytes `b0, b1`: three digits of six bits.
pub open spec fn base64url_pair(b0: u8, b1: u8) -> Seq<char> {
    let a = base64url_alphabet();
    seq![
        a[(b0 / 4) as int],
        a[((b0 % 4) * 16 + b1 / 16) as int],
        a[((b1 % 16) * 4) as int],
    ]
}

/// Relies on `data_encoding::BASE64URL_NOPAD.encode`: URL-safe base64
/// without padding.
#[verifier::external_body]
fn encode_pair(b0: u8, b1: u8) -> (r: String)
    ensures
        r@ == base64url_pair(b0, b1),
{
    BASE64URL_NOPAD.encode(&[b0, b1])
}

/// The slug of the already lower-cased text `lowered`: the first `u16` drawn
/// from a generator seeded with it, encoded as its two bytes in little-endian
/// order.
pub open spec fn slug_of_lowered(lowered: Seq<char>) -> Seq<char> {
    let d = seeded_u16_of(lowered);
    base64url_pair((d % 256) as u8, (d / 256) as u8)
}

/// The slug of a URL: it depends on the lower-cased URL alone.
pub open spec fn slug_of(url: Seq<char>) -> Seq<char> {
    slug_of_lowered(lower_of(url))
}

/// Whether `url` is accepted: its lower-cased form is a link of the grammar.
pub open spec fn valid_url(url: Seq<char>) -> bool {
    url_grammar(lower_of(url))
}

/// Encodes a drawn value as a slug of three characters.
pub fn slug_from_draw(d: u16) -> (r: String)
    ensures
        r@ == base64url_pair((d % 256) as u8, (d / 256) as u8),
        r@.len() == 3,
{
    let lo: u8 = (d % 256) as u8;
    let hi: u8 = (d / 256) as u8;
    encode_pair(lo, hi)
}

/// Calculates the slug of `url`.
pub fn calculate_short(url: &str) -> (r: String)
    ensures
        r@ == slug_of(url@),
        r@.len() == 3,
{
    let lowered = lowercase(url);
    slug_from_draw(seeded_u16(&lowered))
}

/// The characters of `s`, in order.
pub fn chars_of(s: &str) -> (r: Vec<char>)
    ensures
        r@ == s@,
{
    let n = s.unicode_len();
    let mut v: Vec<char> = Vec::new();
    let mut i: usize = 0;
    while i < n
        invariant
            n == s@.len(),
            i <= n,
            v@ == s@.subrange(0, i as int),
        decreases n - i,
    {
        v.push(s.get_char(i));
        i = i + 1;
        assert(v@ =~= s@.subrange(0, i as int));
    }
    assert(v@ =~= s@);
    v
}

/// Whether the (already lower-cased) text is, as a whole, a link of the grammar.
pub fn matches_lowered(lowered: &str) -> (r: bool)
    requires
        lowered@.len() < usize::MAX - 512,
    ensures
        r == url_grammar(lowered@),
{
    let cs = chars_of(lowered);
    matches_url_grammar(&cs)
}

/// Validates `url`: lower-cases it and matches the whole of it against the grammar.
/// Text too long to index is rejected.
pub fn is_valid_url(url: &str) -> (r: bool)
    ensures
        r == (lower_of(url@).len() < usize::MAX - 512 && valid_url(url@)),
{
    let lowered = lowercase(url);
    if lowered.unicode_len() >= usize::MAX - 512 {
        return false;
    }
    matches_lowered(lowered.as_str())
}

} // verus!
