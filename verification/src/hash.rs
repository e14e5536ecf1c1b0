use vstd::prelude::*;

verus! {

/// The MD5 digest of the UTF-8 encoding of a text.
pub uninterp spec fn md5_of(text: Seq<char>) -> Seq<u8>;

/// Calls `md5::compute` on the bytes of `text` and returns the 16 bytes of
/// the `Digest` it gives. Trusted: the digest is `md5_of(text)`, a function
/// of the text alone, and it is 16 bytes long (`Digest` wraps `[u8; 16]`).
#[verifier::external_body]
fn md5_digest(text: &str) -> (digest: Vec<u8>)
    ensures
        digest@ == md5_of(text@),
        digest@.len() == 16,
{
    md5::compute(text).0.to_vec()
}

/// The lowercase hexadecimal digit of a value below 16.
pub open spec fn hex_digit(n: int) -> char {
    if n < 10 {
        (48 + n) as char
    } else {
        (87 + n) as char
    }
}

/// Whether a character is a lowercase hexadecimal digit.
pub open spec fn is_lower_hex(c: char) -> bool {
    ('0' <= c && c <= '9') || ('a' <= c && c <= 'f')
}

/// Each byte written as two lowercase hexadecimal digits, high nibble first.
pub open spec fn hex_lower(bytes: Seq<u8>) -> Seq<char> {
    Seq::new(
        2 * bytes.len(),
        |k: int|
            if k % 2 == 0 {
                hex_digit((bytes[k / 2] / 16) as int)
            } else {
                hex_digit((bytes[k / 2] % 16) as int)
            },
    )
}

/// What `hash` gives for a text: its MD5 digest in lowercase hexadecimal.
pub open spec fn hash_text(text: Seq<char>) -> Seq<char> {
    hex_lower(md5_of(text))
}

fn nibble_char(n: u8) -> (c: char)
    requires
        n < 16,
    ensures
        c == hex_digit(n as int),
        is_lower_hex(c),
{
    if n < 10 {
        (n + 48) as char
    } else {
        (n + 87) as char
    }
}

/// A byte sequence written as lowercase hexadecimal, two digits per byte.
pub fn to_hex_lower(bytes: &Vec<u8>) -> (r: String)
    ensures
        r@ == hex_lower(bytes@),
{
    let mut r = String::new();
    let n = bytes.len();
    let mut i: usize = 0;
    while i < n
        invariant
            n == bytes@.len(),
            i <= n,
            r@ =~= hex_lower(bytes@.take(i as int)),
        decreases n - i,
    {
        let b = bytes[i];
        let hi = nibble_char(b / 16);
        let lo = nibble_char(b % 16);
        r.push(hi);
        r.push(lo);
        i = i + 1;
        assert(r@ =~= hex_lower(bytes@.take(i as int)));
    }
    assert(bytes@.take(n as int) =~= bytes@);
    r
}

/// The MD5 digest of a text in lowercase hexadecimal: 32 characters, each
/// a lowercase hexadecimal digit.
pub fn hash(input: &str) -> (r: String)
    ensures
        r@ == hash_text(input@),
        r@.len() == 32,
        forall|i: int| 0 <= i < r@.len() ==> is_lower_hex(#[trigger] r@[i]),
{
    let digest = md5_digest(input);
    let r = to_hex_lower(&digest);
    assert forall|i: int| 0 <= i < r@.len() implies is_lower_hex(#[trigger] r@[i]) by {
        let b = digest@[i / 2];
        assert(b / 16 < 16 && b % 16 < 16);
    }
    r
}

} // verus!
