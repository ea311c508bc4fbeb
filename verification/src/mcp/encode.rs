//! `application/x-www-form-urlencoded` text, as the `form_urlencoded`
//! crate writes it.
use vstd::prelude::*;

use vstd::string::StringSliceAdditionalSpecFns;


verus! {

/// Bytes that the form encoding keeps as they are: ASCII letters and
/// digits and `*`, `-`, `.`, `_`.
pub open spec fn form_byte_unchanged(b: u8) -> bool {
    ||| b == 42u8
    ||| b == 45u8
    ||| b == 46u8
    ||| (48u8 <= b && b <= 57u8)
    ||| (65u8 <= b && b <= 90u8)
    ||| b == 95u8
    ||| (97u8 <= b && b <= 122u8)
}

/// The upper-case hexadecimal digit for `d < 16`.
pub open spec fn hex_upper(d: int) -> char {
    if d < 10 {
        (48 + d) as char
    } else {
        (55 + d) as char
    }
}

/// The form encoding of one byte: kept, a space as `+`, anything else as
/// `%` and two upper-case hexadecimal digits.
pub open spec fn form_encode_byte(b: u8) -> Seq<char> {
    if form_byte_unchanged(b) {
        seq![b as char]
    } else if b == 32u8 {
        seq!['+']
    } else {
        seq!['%', hex_upper(b as int / 16), hex_upper(b as int % 16)]
    }
}

/// The form encoding of a byte string (`form_urlencoded::byte_serialize`).
pub open spec fn form_encode(bytes: Seq<u8>) -> Seq<char>
    decreases bytes.len(),
{
    if bytes.len() == 0 {
        Seq::empty()
    } else {
        form_encode_byte(bytes[0]) + form_encode(bytes.drop_first())
    }
}

/// The form encoding of `name=value` pairs joined with `&`, each name and
/// value taken as UTF-8 bytes.
pub open spec fn form_encode_pairs(pairs: Seq<(Seq<char>, Seq<char>)>) -> Seq<char>
    decreases pairs.len(),
{
    if pairs.len() == 0 {
        Seq::empty()
    } else {
        let last = pairs.last();
        let item = form_encode(vstd::utf8::encode_utf8(last.0)) + seq!['='] + form_encode(
            vstd::utf8::encode_utf8(last.1),
        );
        if pairs.len() == 1 {
            item
        } else {
            form_encode_pairs(pairs.drop_last()) + seq!['&'] + item
        }
    }
}

/// The text of a path segment in a request URL: `value` form-encoded
/// (`form_urlencoded::byte_serialize` over its UTF-8 bytes). Claimed: the
/// result is the form encoding of those bytes.
#[verifier::external_body]
pub fn encode_path_segment(value: &str) -> (r: String)
    ensures
        r@ == form_encode(value.spec_bytes()),
{
    url::form_urlencoded::byte_serialize(value.as_bytes()).collect()
}

/// Serializes `name=value` pairs in order with a fresh
/// `form_urlencoded::Serializer` (`append_pair`, then `finish`). Claimed:
/// the result is the form encoding of each pair, joined with `&`.
#[verifier::external_body]
pub(crate) fn serialize_pairs(pairs: &Vec<(String, String)>) -> (r: String)
    ensures
        r@ == form_encode_pairs(pairs@.map_values(|p: (String, String)| (p.0@, p.1@))),
{
    let mut serializer = url::form_urlencoded::Serializer::new(String::new());
    for (key, value) in pairs {
        serializer.append_pair(key, value);
    }
    serializer.finish()
}

/// `value` encoded as a query value: the form encoding of its UTF-8 bytes.
pub fn encode_query_value(value: &str) -> (r: String)
    ensures
        r@ == form_encode(value.spec_bytes()),
{
    let mut pairs: Vec<(String, String)> = Vec::new();
    pairs.push(("value".to_owned(), value.to_owned()));
    let encoded = serialize_pairs(&pairs);
    proof {
        reveal_strlit("value");
        assert(pairs@.map_values(|p: (String, String)| (p.0@, p.1@)) =~= seq![("value"@, value@)]);
        lemma_form_encode_value_key();
    }
    let chars = crate::text::to_chars(encoded.as_str());
    crate::text::from_chars_range(chars.as_slice(), 6, chars.len())
}

/// Bytes that the form encoding keeps come out as the same characters.
pub proof fn lemma_form_encode_unchanged(b: Seq<u8>)
    requires
        forall|i: int| 0 <= i < b.len() ==> form_byte_unchanged(#[trigger] b[i]),
    ensures
        form_encode(b) == Seq::new(b.len(), |i: int| b[i] as char),
    decreases b.len(),
{
    if b.len() > 0 {
        lemma_form_encode_unchanged(b.drop_first());
        assert(form_encode(b) =~= Seq::new(b.len(), |i: int| b[i] as char));
    }
}

/// ASCII text made of kept characters is its own form encoding.
pub proof fn lemma_form_encode_plain(chars: Seq<char>)
    requires
        vstd::utf8::is_ascii_chars(chars),
        forall|i: int| 0 <= i < chars.len() ==> form_byte_unchanged(#[trigger] chars[i] as u8),
    ensures
        form_encode(vstd::utf8::encode_utf8(chars)) == chars,
{
    let b = vstd::utf8::encode_utf8(chars);
    vstd::utf8::is_ascii_chars_encode_utf8(chars);
    assert forall|i: int| 0 <= i < b.len() implies form_byte_unchanged(#[trigger] b[i]) by {
        assert(chars[i] as u8 == b[i]);
    }
    lemma_form_encode_unchanged(b);
    assert forall|i: int| 0 <= i < chars.len() implies (b[i] as char) == chars[i] by {
        assert(chars[i] as u8 == b[i]);
        assert('\0' <= chars[i] <= '\u{7f}');
    }
    assert(Seq::new(b.len(), |i: int| b[i] as char) =~= chars);
}

proof fn lemma_form_encode_value_key()
    ensures
        form_encode(vstd::utf8::encode_utf8("value"@)) == "value"@,
{
    reveal_strlit("value");
    lemma_form_encode_plain("value"@);
}


/// The characters that form-encoded text is made of: ASCII letters and
/// digits, `*`, `-`, `.`, `_`, `+` and `%`.
pub open spec fn form_char(c: char) -> bool {
    ||| ('0' <= c && c <= '9')
    ||| ('A' <= c && c <= 'Z')
    ||| ('a' <= c && c <= 'z')
    ||| c == '*' || c == '-' || c == '.' || c == '_' || c == '+' || c == '%'
}

proof fn lemma_form_encode_chars(b: Seq<u8>)
    ensures
        forall|i: int| 0 <= i < form_encode(b).len() ==> form_char(#[trigger] form_encode(b)[i]),
    decreases b.len(),
{
    if b.len() > 0 {
        lemma_form_encode_chars(b.drop_first());
        let head = form_encode_byte(b[0]);
        let tail = form_encode(b.drop_first());
        assert forall|i: int| 0 <= i < head.len() implies form_char(#[trigger] head[i]) by {
            let x = b[0];
            if !form_byte_unchanged(x) && x != 32u8 {
                assert(0 <= x as int / 16 < 16 && 0 <= x as int % 16 < 16);
            }
        }
        assert(form_encode(b) == head + tail);
        assert forall|i: int| 0 <= i < form_encode(b).len() implies form_char(#[trigger] form_encode(b)[i]) by {
            if i < head.len() {
                assert(form_encode(b)[i] == head[i]);
            } else {
                assert(form_encode(b)[i] == tail[i - head.len()]);
            }
        }
    }
}

/// A form-encoded value holds no `/`, `?`, `#`, `&`, `=` or space: put in a
/// path it stays one segment, put in a query it stays one value.
pub proof fn law_form_encoding_has_no_delimiters(bytes: Seq<u8>)
    ensures
        !form_encode(bytes).contains('/'),
        !form_encode(bytes).contains('?'),
        !form_encode(bytes).contains('#'),
        !form_encode(bytes).contains('&'),
        !form_encode(bytes).contains('='),
        !form_encode(bytes).contains(' '),
{
    lemma_form_encode_chars(bytes);
}

} // verus!
