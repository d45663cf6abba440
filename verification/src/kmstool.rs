//! Reading the output of the key-management command-line tool, which prints
//! fields as lines of the form `PREFIX: <base64>`.

use vstd::prelude::*;
use vstd::string::*;

verus! {

/// Why the key-management tool failed or its output could not be read.
#[derive(Debug)]
pub enum KmsToolError {
    Io(std::io::Error),
    StdoutParse { stdout: String, status: String, stderr: String },
    DecodeError(::base64::DecodeError),
}

/// The data key that the key-management service generates: the key as the
/// service encrypted it, and the key in the clear.
pub struct KmsGenkeyOutput {
    pub ciphertext: Vec<u8>,
    pub plaintext: Vec<u8>,
}

/// How reading one field can fail.
#[derive(Debug, Clone, Copy, PartialEq, Eq)]
pub enum FieldFault {
    Missing,
    Undecodable,
}

// ---------------------------------------------------------------------------
// Specifications
// ---------------------------------------------------------------------------

/// The text that `String::from_utf8_lossy` makes of bytes.
pub uninterp spec fn utf8_lossy(bytes: Seq<u8>) -> Seq<char>;

/// The bytes that `base64`'s standard engine decodes from text, or nothing when
/// the text is not standard base64.
pub uninterp spec fn base64_standard_decoding(text: Seq<char>) -> Option<Seq<u8>>;

/// Unicode `White_Space`, as `char::is_whitespace` tests it.
pub open spec fn is_whitespace(c: char) -> bool {
    ||| c == ' '
    ||| '\t' <= c <= '\r'
    ||| c == '\u{85}'
    ||| c == '\u{a0}'
    ||| c == '\u{1680}'
    ||| '\u{2000}' <= c <= '\u{200a}'
    ||| c == '\u{2028}'
    ||| c == '\u{2029}'
    ||| c == '\u{202f}'
    ||| c == '\u{205f}'
    ||| c == '\u{3000}'
}

/// The number of whitespace characters that begin `s`.
pub open spec fn leading_ws(s: Seq<char>) -> nat
    decreases s.len(),
{
    if s.len() > 0 && is_whitespace(s[0]) {
        1 + leading_ws(s.drop_first())
    } else {
        0
    }
}

/// The number of whitespace characters that end `s`.
pub open spec fn trailing_ws(s: Seq<char>) -> nat
    decreases s.len(),
{
    if s.len() > 0 && is_whitespace(s.last()) {
        1 + trailing_ws(s.drop_last())
    } else {
        0
    }
}

/// `s` without its leading and trailing whitespace (`str::trim`).
pub open spec fn trim(s: Seq<char>) -> Seq<char> {
    let t = s.subrange(leading_ws(s) as int, s.len() as int);
    t.subrange(0, t.len() - trailing_ws(t))
}

/// The index of the first line feed in `s`, or its length when there is none.
pub open spec fn newline_index(s: Seq<char>) -> nat
    decreases s.len(),
{
    if s.len() == 0 || s[0] == '\n' {
        0
    } else {
        1 + newline_index(s.drop_first())
    }
}

/// The rest of the first line of `s` (split at line feeds, a final line feed
/// ending the last line) whose trimmed text starts with `prefix`, after that
/// prefix; nothing when no line does.
pub open spec fn find_line_field(s: Seq<char>, prefix: Seq<char>) -> Option<Seq<char>>
    decreases s.len(),
{
    if s.len() == 0 {
        None
    } else {
        let end = newline_index(s);
        let line = trim(s.subrange(0, end as int));
        if prefix.len() <= line.len() && line.subrange(0, prefix.len() as int) == prefix {
            Some(line.subrange(prefix.len() as int, line.len() as int))
        } else if end < s.len() {
            find_line_field(s.subrange(end + 1 as int, s.len() as int), prefix)
        } else {
            None
        }
    }
}

/// The bytes of the field `prefix` in the tool's output text: the base64 text
/// after the prefix, trimmed, decoded.
pub open spec fn field_outcome(text: Seq<char>, prefix: Seq<char>) -> Result<Seq<u8>, FieldFault> {
    match find_line_field(text, prefix) {
        None => Err(FieldFault::Missing),
        Some(f) => match base64_standard_decoding(trim(f)) {
            Some(b) => Ok(b),
            None => Err(FieldFault::Undecodable),
        },
    }
}

// ---------------------------------------------------------------------------
// Calls into std and `base64`
// ---------------------------------------------------------------------------

/// `String::from_utf8_lossy`, as an owned string.
#[verifier::external_body]
fn utf8_lossy_string(bytes: &[u8]) -> (r: String)
    ensures
        r@ == utf8_lossy(bytes@),
{
    String::from_utf8_lossy(bytes).into_owned()
}

/// `base64::prelude::BASE64_STANDARD.decode` of the text's UTF-8 bytes.
#[verifier::external_body]
fn base64_standard_decode(text: &str) -> (r: Result<Vec<u8>, ::base64::DecodeError>)
    ensures
        match r {
            Ok(b) => base64_standard_decoding(text@) == Some(b@),
            Err(_) => base64_standard_decoding(text@) is None,
        },
{
    ::base64::Engine::decode(&::base64::prelude::BASE64_STANDARD, text)
}

// ---------------------------------------------------------------------------
// Text helpers
// ---------------------------------------------------------------------------

/// Whether `c` is Unicode whitespace.
pub fn char_is_whitespace(c: char) -> (r: bool)
    ensures
        r == is_whitespace(c),
{
    c == ' ' || ('\t' <= c && c <= '\r') || c == '\u{85}' || c == '\u{a0}' || c == '\u{1680}'
        || ('\u{2000}' <= c && c <= '\u{200a}') || c == '\u{2028}' || c == '\u{2029}'
        || c == '\u{202f}' || c == '\u{205f}' || c == '\u{3000}'
}

proof fn lemma_leading_ws_step(s: Seq<char>, i: int)
    requires
        0 <= i < s.len(),
        is_whitespace(s[i]),
    ensures
        leading_ws(s.subrange(i, s.len() as int)) == 1 + leading_ws(s.subrange(i + 1, s.len() as int)),
{
    assert(s.subrange(i, s.len() as int).drop_first() =~= s.subrange(i + 1, s.len() as int));
}

proof fn lemma_trailing_ws_step(s: Seq<char>, j: int)
    requires
        0 < j <= s.len(),
        is_whitespace(s[j - 1]),
    ensures
        trailing_ws(s.subrange(0, j)) == 1 + trailing_ws(s.subrange(0, j - 1)),
{
    assert(s.subrange(0, j).drop_last() =~= s.subrange(0, j - 1));
}

proof fn lemma_newline_step(s: Seq<char>, i: int)
    requires
        0 <= i < s.len(),
        s[i] != '\n',
    ensures
        newline_index(s.subrange(i, s.len() as int)) == 1 + newline_index(s.subrange(i + 1, s.len() as int)),
{
    assert(s.subrange(i, s.len() as int).drop_first() =~= s.subrange(i + 1, s.len() as int));
}

/// The bounds, in `text`, of `trim(text[from..to])`.
fn trim_bounds(text: &str, from: usize, to: usize) -> (r: (usize, usize))
    requires
        from <= to <= text@.len(),
    ensures
        from <= r.0 <= r.1 <= to,
        text@.subrange(r.0 as int, r.1 as int) == trim(text@.subrange(from as int, to as int)),
{
    let ghost s = text@.subrange(from as int, to as int);
    let mut a = from;
    while a < to && char_is_whitespace(text.get_char(a))
        invariant
            from <= a <= to <= text@.len(),
            s == text@.subrange(from as int, to as int),
            leading_ws(s) == (a - from) + leading_ws(text@.subrange(a as int, to as int)),
        decreases to - a,
    {
        proof {
            let u = text@.subrange(from as int, to as int);
            lemma_leading_ws_step(text@.subrange(from as int, to as int), a - from);
            assert(u.subrange(a - from, u.len() as int) =~= text@.subrange(a as int, to as int));
            assert(u.subrange(a - from + 1, u.len() as int) =~= text@.subrange(a + 1, to as int));
        }
        a = a + 1;
    }
    proof {
        let rest = text@.subrange(a as int, to as int);
        if a < to {
            assert(!is_whitespace(rest[0]));
        }
        assert(leading_ws(rest) == 0);
        assert(s.subrange(leading_ws(s) as int, s.len() as int) =~= rest);
    }
    let ghost t = text@.subrange(a as int, to as int);
    let mut b = to;
    while b > a && char_is_whitespace(text.get_char(b - 1))
        invariant
            from <= a <= b <= to <= text@.len(),
            t == text@.subrange(a as int, to as int),
            trailing_ws(t) == (to - b) + trailing_ws(text@.subrange(a as int, b as int)),
        decreases b - a,
    {
        proof {
            let w = text@.subrange(a as int, b as int);
            lemma_trailing_ws_step(text@.subrange(a as int, to as int), b - a);
            assert(text@.subrange(a as int, to as int).subrange(0, b - a) =~= w);
            assert(text@.subrange(a as int, to as int).subrange(0, b - a - 1) =~= text@.subrange(a as int, b - 1));
        }
        b = b - 1;
    }
    proof {
        let w = text@.subrange(a as int, b as int);
        if b > a {
            assert(w.last() == text@[b - 1]);
            assert(!is_whitespace(w.last()));
        }
        assert(trailing_ws(w) == 0);
        assert(t.subrange(0, t.len() - trailing_ws(t)) =~= w);
    }
    (a, b)
}

/// Whether `text[at..at + prefix.len()]` is `prefix`.
fn starts_with_at(text: &str, at: usize, prefix: &str) -> (r: bool)
    requires
        at + prefix@.len() <= text@.len() <= usize::MAX,
    ensures
        r == (text@.subrange(at as int, at + prefix@.len()) == prefix@),
{
    let m = prefix.unicode_len();
    let mut k: usize = 0;
    while k < m
        invariant
            m == prefix@.len(),
            at + m <= text@.len() <= usize::MAX,
            k <= m,
            forall|j: int| 0 <= j < k ==> text@[at + j] == prefix@[j],
        decreases m - k,
    {
        if text.get_char(at + k) != prefix.get_char(k) {
            proof {
                assert(text@.subrange(at as int, at + m)[k as int] != prefix@[k as int]);
            }
            return false;
        }
        k = k + 1;
    }
    assert(text@.subrange(at as int, at + m) =~= prefix@);
    true
}

/// The bounds, in `text`, of the field that `find_line_field` finds for `prefix`.
fn find_field(text: &str, prefix: &str) -> (r: Option<(usize, usize)>)
    ensures
        match r {
            Some((c, d)) => c <= d <= text@.len()
                && find_line_field(text@, prefix@) == Some(text@.subrange(c as int, d as int)),
            None => find_line_field(text@, prefix@) is None,
        },
{
    let n = text.unicode_len();
    let m = prefix.unicode_len();
    let mut pos: usize = 0;
    assert(text@.subrange(0, n as int) =~= text@);
    while pos < n
        invariant
            pos <= n,
            n == text@.len(),
            m == prefix@.len(),
            find_line_field(text@, prefix@) == find_line_field(text@.subrange(pos as int, n as int), prefix@),
        decreases n - pos,
    {
        let ghost s = text@.subrange(pos as int, n as int);
        let mut end = pos;
        while end < n && text.get_char(end) != '\n'
            invariant
                pos <= end <= n,
                n == text@.len(),
                s == text@.subrange(pos as int, n as int),
                newline_index(s) == (end - pos) + newline_index(text@.subrange(end as int, n as int)),
            decreases n - end,
        {
            proof {
                lemma_newline_step(text@.subrange(pos as int, n as int), end - pos);
                assert(s.subrange(end - pos, s.len() as int) =~= text@.subrange(end as int, n as int));
                assert(s.subrange(end - pos + 1, s.len() as int) =~= text@.subrange(end + 1, n as int));
            }
            end = end + 1;
        }
        proof {
            let rest = text@.subrange(end as int, n as int);
            if end < n {
                assert(rest[0] == '\n');
            }
            assert(newline_index(rest) == 0);
            assert(s.subrange(0, end - pos) =~= text@.subrange(pos as int, end as int));
            if end < n {
                assert(s.subrange(end - pos + 1, s.len() as int) =~= text@.subrange(end + 1, n as int));
            }
        }
        let (a, b) = trim_bounds(text, pos, end);
        if b - a >= m && starts_with_at(text, a, prefix) {
            proof {
                let line = text@.subrange(a as int, b as int);
                assert(line.subrange(0, m as int) =~= text@.subrange(a as int, a + m));
                assert(line.subrange(m as int, line.len() as int) =~= text@.subrange(a + m, b as int));
            }
            return Some((a + m, b));
        }
        proof {
            let line = text@.subrange(a as int, b as int);
            if m <= line.len() {
                assert(line.subrange(0, m as int) =~= text@.subrange(a as int, a + m));
            }
        }
        if end < n {
            pos = end + 1;
        } else {
            return None;
        }
    }
    None
}

/// Reads the field `prefix` from the tool's output text.
fn decode_field(text: &str, prefix: &str) -> (r: Result<Vec<u8>, FieldError>)
    ensures
        match r {
            Ok(b) => field_outcome(text@, prefix@) == Ok::<Seq<u8>, FieldFault>(b@),
            Err(FieldError::Missing) => field_outcome(text@, prefix@) == Err::<Seq<u8>, FieldFault>(FieldFault::Missing),
            Err(FieldError::Undecodable(_)) => field_outcome(text@, prefix@) == Err::<Seq<u8>, FieldFault>(FieldFault::Undecodable),
        },
{
    match find_field(text, prefix) {
        None => Err(FieldError::Missing),
        Some((c, d)) => {
            let (e, g) = trim_bounds(text, c, d);
            let field = text.substring_char(e, g);
            match base64_standard_decode(field) {
                Ok(b) => Ok(b),
                Err(err) => Err(FieldError::Undecodable(err)),
            }
        },
    }
}

/// A field that could not be read, with the decoder's error.
enum FieldError {
    Missing,
    Undecodable(::base64::DecodeError),
}

/// The field with prefix `prefixes[i]` is the first one that cannot be read.
pub open spec fn first_failing_field(text: Seq<char>, prefixes: Seq<&str>, i: int) -> bool {
    &&& 0 <= i < prefixes.len()
    &&& forall|j: int| 0 <= j < i ==> (#[trigger] field_outcome(text, prefixes[j]@)) is Ok
    &&& field_outcome(text, prefixes[i]@) is Err
}

/// Reads, in order, the fields with the given line prefixes from the tool's
/// standard output (read as UTF-8, invalid sequences replaced). The first field
/// that cannot be read stops the reading: a missing one gives `StdoutParse` with
/// the output, the exit status and the standard error as text; one that is not
/// base64 gives `DecodeError`.
pub fn parse_output(
    ordered_line_prefixes: &[&str],
    stdout: &[u8],
    status: String,
    stderr: &[u8],
) -> (r: Result<Vec<Vec<u8>>, KmsToolError>)
    ensures
        match r {
            Ok(v) => {
                &&& v@.len() == ordered_line_prefixes@.len()
                &&& forall|i: int| 0 <= i < v@.len() ==>
                    field_outcome(utf8_lossy(stdout@), ordered_line_prefixes@[i]@) == Ok::<Seq<u8>, FieldFault>(#[trigger] v@[i]@)
            },
            Err(e) => exists|i: int| {
                &&& #[trigger] first_failing_field(utf8_lossy(stdout@), ordered_line_prefixes@, i)
                &&& match field_outcome(utf8_lossy(stdout@), ordered_line_prefixes@[i]@) {
                    Err(FieldFault::Missing) => e matches KmsToolError::StdoutParse { stdout: o, status: st, stderr: er }
                        && o@ == utf8_lossy(stdout@) && st@ == status@ && er@ == utf8_lossy(stderr@),
                    Err(FieldFault::Undecodable) => e is DecodeError,
                    Ok(_) => false,
                }
            },
        },
        r is Ok <==> forall|i: int| 0 <= i < ordered_line_prefixes@.len() ==>
            (#[trigger] field_outcome(utf8_lossy(stdout@), ordered_line_prefixes@[i]@)) is Ok,
{
    let text = utf8_lossy_string(stdout);
    let mut fields: Vec<Vec<u8>> = Vec::new();
    let n = ordered_line_prefixes.len();
    let mut i: usize = 0;
    while i < n
        invariant
            n == ordered_line_prefixes@.len(),
            i <= n,
            text@ == utf8_lossy(stdout@),
            fields@.len() == i,
            forall|j: int|
                #![trigger fields@[j]]
                #![trigger field_outcome(utf8_lossy(stdout@), ordered_line_prefixes@[j]@)]
                0 <= j < i ==> field_outcome(utf8_lossy(stdout@), ordered_line_prefixes@[j]@) == Ok::<Seq<u8>, FieldFault>(fields@[j]@),
        decreases n - i,
    {
        match decode_field(text.as_str(), ordered_line_prefixes[i]) {
            Ok(b) => {
                fields.push(b);
            },
            Err(FieldError::Missing) => {
                let err_text = utf8_lossy_string(stderr);
                let e = KmsToolError::StdoutParse { stdout: text, status, stderr: err_text };
                proof {
                    assert(first_failing_field(utf8_lossy(stdout@), ordered_line_prefixes@, i as int));
                }
                return Err(e);
            },
            Err(FieldError::Undecodable(err)) => {
                proof {
                    assert(first_failing_field(utf8_lossy(stdout@), ordered_line_prefixes@, i as int));
                }
                return Err(KmsToolError::DecodeError(err));
            },
        }
        i = i + 1;
    }
    Ok(fields)
}

} // verus!
