//! Bech32 text encoding of byte strings, through the `bech32` crate.

use vstd::prelude::*;
use vstd::string::*;

verus! {

/// The bech32 string that `bech32::encode::<Bech32>` makes of a human-readable
/// part and data bytes.
pub uninterp spec fn bech32_encoding(hrp: Seq<char>, data: Seq<u8>) -> Seq<char>;

/// What `bech32::decode` reads from a string: the human-readable part as written
/// and the data bytes, or nothing when the string is not valid bech32 or bech32m.
pub uninterp spec fn bech32_decoding(s: Seq<char>) -> Option<(Seq<char>, Seq<u8>)>;

/// A human-readable part made of 1 to 83 lowercase ASCII letters.
pub open spec fn lowercase_hrp(hrp: Seq<char>) -> bool {
    &&& 1 <= hrp.len() <= 83
    &&& forall|i: int| 0 <= i < hrp.len() ==> 'a' <= #[trigger] hrp[i] <= 'z'
}

/// The length of a bech32 string for a human-readable part and data of the
/// given lengths: part, separator, 5-bit groups of the data, 6-character checksum.
pub open spec fn bech32_encoded_len(hrp_len: nat, data_len: nat) -> nat {
    hrp_len + 1 + (data_len * 8 + 4) / 5 + 6
}

/// Text with no ASCII uppercase letter.
pub open spec fn no_uppercase(s: Seq<char>) -> bool {
    forall|i: int| 0 <= i < s.len() ==> !('A' <= #[trigger] s[i] <= 'Z')
}

/// Text that begins with a human-readable part followed by the separator `1`.
pub open spec fn starts_with_hrp(s: Seq<char>, hrp: Seq<char>) -> bool {
    &&& s.len() > hrp.len()
    &&& s.subrange(0, hrp.len() as int) == hrp
    &&& s[hrp.len() as int] == '1'
}

/// ASCII lowercase of a character; other characters are kept.
pub open spec fn ascii_lower(c: char) -> char {
    if 'A' <= c <= 'Z' {
        ((c as u32) + 32) as char
    } else {
        c
    }
}

/// Equality of human-readable parts, ignoring ASCII case (as `bech32::Hrp` compares).
pub open spec fn hrp_matches(h: Seq<char>, expected: Seq<char>) -> bool {
    &&& h.len() == expected.len()
    &&& forall|i: int| 0 <= i < h.len() ==> ascii_lower(#[trigger] h[i]) == ascii_lower(expected[i])
}

/// `bech32::encode::<bech32::Bech32>(Hrp::parse_unchecked(hrp), data)`.
/// Claims: it succeeds exactly when the encoded length is at most the bech32
/// code length (1023); the string it returns is the named encoding, written in
/// lowercase, as long as that encoded length, beginning with the human-readable
/// part and the separator `1`; and `bech32::decode` reads the same
/// human-readable part and data back from it.
#[verifier::external_body]
pub(crate) fn bech32_encode(hrp: &str, data: &[u8]) -> (r: Result<String, ::bech32::EncodeError>)
    requires
        lowercase_hrp(hrp@),
    ensures
        r is Ok <==> bech32_encoded_len(hrp@.len(), data@.len()) <= 1023,
        r matches Ok(s) ==> s@ == bech32_encoding(hrp@, data@),
        r matches Ok(s) ==> s@.len() == bech32_encoded_len(hrp@.len(), data@.len()),
        r matches Ok(s) ==> starts_with_hrp(s@, hrp@),
        r matches Ok(s) ==> no_uppercase(s@),
        r matches Ok(s) ==> bech32_decoding(s@) == Some((hrp@, data@)),
{
    ::bech32::encode::<::bech32::Bech32>(::bech32::Hrp::parse_unchecked(hrp), data)
}

/// `bech32::decode`: the human-readable part (as written) and the data bytes.
#[verifier::external_body]
pub(crate) fn bech32_decode(s: &str) -> (r: Result<(String, Vec<u8>), ::bech32::DecodeError>)
    ensures
        match r {
            Ok((h, d)) => bech32_decoding(s@) == Some((h@, d@)),
            Err(_) => bech32_decoding(s@) is None,
        },
{
    match ::bech32::decode(s) {
        Ok((hrp, data)) => Ok((hrp.as_str().to_string(), data)),
        Err(e) => Err(e),
    }
}

/// Compares a human-readable part with an expected one, ignoring ASCII case.
pub fn hrp_eq(h: &str, expected: &str) -> (r: bool)
    ensures
        r == hrp_matches(h@, expected@),
{
    let n = h.unicode_len();
    let m = expected.unicode_len();
    if n != m {
        return false;
    }
    let mut i: usize = 0;
    while i < n
        invariant
            n == h@.len(),
            m == expected@.len(),
            n == m,
            i <= n,
            forall|j: int| 0 <= j < i ==> ascii_lower(#[trigger] h@[j]) == ascii_lower(expected@[j]),
        decreases n - i,
    {
        let a = h.get_char(i);
        let b = expected.get_char(i);
        if to_ascii_lower(a) != to_ascii_lower(b) {
            return false;
        }
        i = i + 1;
    }
    true
}

/// ASCII lowercase of a character.
pub fn to_ascii_lower(c: char) -> (r: char)
    ensures
        r == ascii_lower(c),
{
    if 'A' <= c && c <= 'Z' {
        let b: u8 = (c as u32) as u8;
        (b + 32) as char
    } else {
        c
    }
}

} // verus!
