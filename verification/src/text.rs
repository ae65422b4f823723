//! Text helpers shared by the other modules, and the std string functions
//! that the library relies on.
use vstd::prelude::*;
use vstd::string::*;
use vstd::utf8::*;

verus! {

/// The text that `str::to_lowercase` returns for a text: its lowercase
/// mapping under the Unicode `Lowercase` property.
pub uninterp spec fn lowercase_text(s: Seq<char>) -> Seq<char>;

/// The lowercase form of an ASCII capital letter; every other character as
/// it is.
pub open spec fn ascii_lower(c: char) -> char {
    if 'A' <= c <= 'Z' {
        ((c as u32) + 32) as char
    } else {
        c
    }
}

/// A text with its ASCII capital letters in lowercase.
pub open spec fn ascii_lowercase_text(s: Seq<char>) -> Seq<char> {
    s.map_values(|c: char| ascii_lower(c))
}

/// Whether a character has the Unicode `White_Space` property, the white
/// space that `str::trim` removes.
pub open spec fn is_white_space(c: char) -> bool {
    let v = c as u32;
    ||| 0x09 <= v <= 0x0D
    ||| v == 0x20
    ||| v == 0x85
    ||| v == 0xA0
    ||| v == 0x1680
    ||| 0x2000 <= v <= 0x200A
    ||| v == 0x2028
    ||| v == 0x2029
    ||| v == 0x202F
    ||| v == 0x205F
    ||| v == 0x3000
}

/// A text without its leading white space.
pub open spec fn trim_start_text(s: Seq<char>) -> Seq<char>
    decreases s.len(),
{
    if s.len() > 0 && is_white_space(s[0]) {
        trim_start_text(s.drop_first())
    } else {
        s
    }
}

/// A text without its trailing white space.
pub open spec fn trim_end_text(s: Seq<char>) -> Seq<char>
    decreases s.len(),
{
    if s.len() > 0 && is_white_space(s.last()) {
        trim_end_text(s.drop_last())
    } else {
        s
    }
}

/// The text that `str::trim` returns: the text without its leading and
/// trailing white space.
pub open spec fn trimmed_text(s: Seq<char>) -> Seq<char> {
    trim_end_text(trim_start_text(s))
}

/// Calls `str::to_lowercase`.
///
/// Trusted: the result is `lowercase_text` of the input, a name for Unicode
/// lowercasing, which depends on the input text alone. On an ASCII text it
/// turns the capitals `A` to `Z` into `a` to `z` and keeps every other
/// character, as the documentation's example shows. What it gives on other
/// texts is left to the name.
#[verifier::external_body]
pub(crate) fn to_lowercase(s: &str) -> (r: String)
    ensures
        r@ == lowercase_text(s@),
        is_ascii_chars(s@) ==> r@ == ascii_lowercase_text(s@),
{
    s.to_lowercase()
}

/// Calls `str::trim`.
///
/// Trusted: as its documentation says, the result is the text with leading
/// and trailing white space (the Unicode `White_Space` characters) removed.
#[verifier::external_body]
pub(crate) fn trim(s: &str) -> (r: &str)
    ensures
        r@ == trimmed_text(s@),
{
    s.trim()
}

/// Whether two texts are the same sequence of characters.
pub fn text_equals(a: &str, b: &str) -> (r: bool)
    ensures
        r == (a@ == b@),
{
    let x: String = a.to_owned();
    let y: String = b.to_owned();
    x == y
}

/// The rest of `s` after `prefix`, when `s` starts with `prefix`.
pub fn strip_text_prefix(s: &str, prefix: &str) -> (r: Option<String>)
    ensures
        r is Some <==> prefix@.is_prefix_of(s@),
        r matches Some(rest) ==> rest@ == s@.skip(prefix@.len() as int),
{
    let n: usize = prefix.unicode_len();
    let m: usize = s.unicode_len();
    if n > m {
        return None;
    }
    let head: &str = s.substring_char(0, n);
    if text_equals(head, prefix) {
        assert(prefix@.is_prefix_of(s@)) by {
            assert(s@.subrange(0, n as int) =~= prefix@);
        }
        let rest: &str = s.substring_char(n, m);
        assert(rest@ =~= s@.skip(n as int));
        Some(rest.to_owned())
    } else {
        assert(!prefix@.is_prefix_of(s@)) by {
            if prefix@.is_prefix_of(s@) {
                assert(head@ =~= prefix@);
            }
        }
        None
    }
}

/// A text that is one character below 128, the only texts whose UTF-8
/// encoding is one byte long.
pub open spec fn is_single_ascii(s: Seq<char>) -> bool {
    s.len() == 1 && (s[0] as u32) < 128
}

/// The UTF-8 encoding of a text is empty exactly when the text is.
pub proof fn lemma_encoding_empty(s: Seq<char>)
    ensures
        (encode_utf8(s).len() == 0) <==> (s.len() == 0),
{
    if s.len() > 0 {
        let c = s[0] as u32;
        assert(encode_scalar(c).len() >= 1);
        assert(encode_utf8(s) == encode_scalar(c) + encode_utf8(s.drop_first()));
    }
}

/// The UTF-8 encoding of a text is one byte long exactly when the text is a
/// single ASCII character.
pub proof fn lemma_encoding_one_byte(s: Seq<char>)
    ensures
        (encode_utf8(s).len() == 1) <==> is_single_ascii(s),
{
    if s.len() > 0 {
        let c = s[0] as u32;
        let rest = s.drop_first();
        assert(encode_utf8(s) == encode_scalar(c) + encode_utf8(rest));
        lemma_encoding_empty(rest);
        assert(encode_scalar(c).len() == 1 <==> c <= 0x7F);
    }
}

/// Whether a text is a single ASCII character: by `lemma_encoding_one_byte`
/// the same as asking whether `str::len`, its UTF-8 length, is 1.
pub fn is_one_byte(s: &str) -> (r: bool)
    ensures
        r == is_single_ascii(s@),
        r == (encode_utf8(s@).len() == 1),
{
    proof {
        lemma_encoding_one_byte(s@);
    }
    if s.unicode_len() != 1 {
        return false;
    }
    let c: char = s.get_char(0);
    (c as u32) < 128
}

} // verus!
