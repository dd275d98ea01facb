//! Construction of the request URL for the remote dictionary API: the
//! fixed endpoint and parameters, the fixed dictionary specification,
//! and the percent-encoded query.
use vstd::prelude::*;

use vstd::string::StringExecFns;
use vstd::utf8::{decode_utf8, encode_utf8};
use crate::percent::{lemma_decode_encode, lemma_encode_param_safe, percent_decode, percent_encode};

verus! {

/// The characters whose code points are the given ASCII bytes.
pub open spec fn ascii_chars_of(s: Seq<u8>) -> Seq<char> {
    s.map_values(|b: u8| b as char)
}

/// The bytes that are the code points of the given ASCII characters.
pub open spec fn ascii_bytes_of(s: Seq<char>) -> Seq<u8> {
    s.map_values(|c: char| c as u8)
}

/// The percent-encoded form of a character string, as characters: its
/// UTF-8 bytes encoded, each resulting ASCII byte read as a character.
pub open spec fn spec_encoded(q: Seq<char>) -> Seq<char> {
    ascii_chars_of(percent_encode(encode_utf8(q)))
}

/// Relies on `urlencoding::encode`: percent-encodes every byte of the
/// UTF-8 form of `s` except ASCII alphanumerics and `-`, `.`, `_`, `~`,
/// writing `%` and two uppercase hexadecimal digits for each other byte.
#[verifier::external_body]
fn encode_component(s: &str) -> (r: String)
    ensures
        r@ == spec_encoded(s@),
{
    urlencoding::encode(s).into_owned()
}

/// The fixed prefix of every request URL: scheme, host, path, the two
/// fixed parameters, and the opening of the query parameter.
pub open spec fn spec_url_prefix() -> Seq<char> {
    "https://dict.youdao.com/jsonapi?jsonversion=2&client=mobile&q="@
}

/// The fixed dictionary specification serialized as JSON: the category
/// count and the five requested category names.
pub open spec fn spec_dicts_json() -> Seq<char> {
    "{\"count\":99,\"dicts\":[[\"simple\",\"phrs\",\"syno\",\"ec\",\"rel_word\"]]}"@
}

/// Returns the serialized fixed dictionary specification sent with
/// every request.
pub fn dict_spec_json() -> (r: String)
    ensures
        r@ == spec_dicts_json(),
{
    String::from_str("{\"count\":99,\"dicts\":[[\"simple\",\"phrs\",\"syno\",\"ec\",\"rel_word\"]]}")
}

/// The request URL for a query: the fixed prefix, the encoded query,
/// and the encoded fixed dictionary specification.
pub open spec fn spec_url(q: Seq<char>) -> Seq<char> {
    spec_url_prefix() + spec_encoded(q) + "&dicts="@ + spec_encoded(spec_dicts_json())
}

/// Builds the request URL for a query string.
pub fn build_url(q: &str) -> (r: String)
    ensures
        r@ == spec_url(q@),
{
    let mut url = String::from_str(
        "https://dict.youdao.com/jsonapi?jsonversion=2&client=mobile&q=",
    );
    let encoded_query = encode_component(q);
    url.append(encoded_query.as_str());
    url.append("&dicts=");
    let dicts = dict_spec_json();
    let encoded_dicts = encode_component(dicts.as_str());
    url.append(encoded_dicts.as_str());
    url
}

/// Reading ASCII bytes as characters and back yields the same bytes.
proof fn lemma_ascii_round_trip(s: Seq<u8>)
    requires
        forall|i: int| 0 <= i < s.len() ==> s[i] < 0x80,
    ensures
        ascii_bytes_of(ascii_chars_of(s)) == s,
{
    assert(ascii_bytes_of(ascii_chars_of(s)) =~= s);
}

/// The encoded query can always be recovered: reading the encoded
/// segment's characters as bytes and percent-decoding them yields the
/// query's UTF-8 bytes exactly, those bytes decode back to the query,
/// and no character of the segment is `&`, `=` or `?`, so the segment
/// is a whole query-parameter value.
pub proof fn lemma_query_round_trip(q: Seq<char>)
    ensures
        percent_decode(ascii_bytes_of(spec_encoded(q))) == Some(encode_utf8(q)),
        decode_utf8(encode_utf8(q)) == q,
        forall|i: int|
            0 <= i < spec_encoded(q).len() ==> (#[trigger] spec_encoded(q)[i]) != '&'
                && spec_encoded(q)[i] != '=' && spec_encoded(q)[i] != '?',
{
    let bytes = encode_utf8(q);
    lemma_encode_param_safe(bytes);
    lemma_ascii_round_trip(percent_encode(bytes));
    lemma_decode_encode(bytes);
    vstd::utf8::encode_utf8_decode_utf8(q);
    assert forall|i: int| 0 <= i < spec_encoded(q).len() implies (#[trigger] spec_encoded(q)[i])
        != '&' && spec_encoded(q)[i] != '=' && spec_encoded(q)[i] != '?' by {
        let b = percent_encode(bytes)[i];
        assert(spec_encoded(q)[i] == b as char);
        assert(b != 0x26 && b != 0x3d && b != 0x3f && b < 0x80);
    }
}

/// The URL splits as prefix, encoded query, separator, encoded
/// dictionary specification; whatever the query, the final segment is
/// the same fixed encoding, and decoding it yields exactly the UTF-8
/// bytes of the fixed dictionary specification JSON.
pub proof fn lemma_dicts_param_fixed(q: Seq<char>)
    ensures
        spec_url(q) == spec_url_prefix() + spec_encoded(q) + "&dicts="@ + spec_encoded(
            spec_dicts_json(),
        ),
        spec_url(q).skip(
            spec_url_prefix().len() + spec_encoded(q).len() + "&dicts="@.len() as int,
        ) == spec_encoded(spec_dicts_json()),
        percent_decode(ascii_bytes_of(spec_encoded(spec_dicts_json()))) == Some(
            encode_utf8(spec_dicts_json()),
        ),
        decode_utf8(encode_utf8(spec_dicts_json())) == spec_dicts_json(),
{
    lemma_query_round_trip(spec_dicts_json());
    assert(spec_url(q).skip(
        spec_url_prefix().len() + spec_encoded(q).len() + "&dicts="@.len() as int,
    ) =~= spec_encoded(spec_dicts_json()));
}

} // verus!
