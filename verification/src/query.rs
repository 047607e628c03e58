//! Query strings: percent-encoding and `key=value` pairs.

use vstd::prelude::*;
use vstd::string::{StringExecFns, StringSliceAdditionalSpecFns};
use vstd::utf8::encode_utf8;

verus! {

/// Whether a byte may stand in a query string as it is: an ASCII letter or
/// digit, or one of `-`, `.`, `_` and `~`.
pub open spec fn is_unreserved(b: u8) -> bool {
    ||| 48 <= b <= 57
    ||| 65 <= b <= 90
    ||| 97 <= b <= 122
    ||| b == 45
    ||| b == 46
    ||| b == 95
    ||| b == 126
}

/// The hexadecimal digit of a value below sixteen, in capitals.
pub open spec fn hex_digit(d: u8) -> char {
    if d < 10 {
        (48 + d) as u8 as char
    } else {
        (55 + d) as u8 as char
    }
}

/// One byte in a query string: itself where it is unreserved, and otherwise
/// `%` with its two hexadecimal digits.
pub open spec fn percent_encoded_byte(b: u8) -> Seq<char> {
    if is_unreserved(b) {
        seq![b as char]
    } else {
        seq!['%', hex_digit(b / 16), hex_digit(b % 16)]
    }
}

/// A byte string in a query string: each byte encoded in turn.
pub open spec fn percent_encoded(bytes: Seq<u8>) -> Seq<char>
    decreases bytes.len(),
{
    if bytes.len() == 0 {
        Seq::empty()
    } else {
        percent_encoded(bytes.drop_last()) + percent_encoded_byte(bytes.last())
    }
}

/// Whether a character is one that percent-encoding writes: `%`, or an
/// unreserved ASCII character, the hexadecimal digits among them.
pub open spec fn is_query_safe(c: char) -> bool {
    c == '%' || (c as u32 <= 127 && is_unreserved(c as u8))
}

/// Percent-encoding writes nothing but `%` and unreserved characters: no
/// `&`, `=`, `?` or `#` of the text can be taken for one of the query's own.
pub proof fn lemma_percent_encoded_is_safe(bytes: Seq<u8>)
    ensures
        forall|i: int|
            0 <= i < percent_encoded(bytes).len() ==> is_query_safe(
                #[trigger] percent_encoded(bytes)[i],
            ),
    decreases bytes.len(),
{
    if bytes.len() > 0 {
        lemma_percent_encoded_is_safe(bytes.drop_last());
        let front = percent_encoded(bytes.drop_last());
        let tail = percent_encoded_byte(bytes.last());
        assert forall|i: int| 0 <= i < percent_encoded(bytes).len() implies is_query_safe(
            #[trigger] percent_encoded(bytes)[i],
        ) by {
            if i < front.len() {
                assert(percent_encoded(bytes)[i] == front[i]);
            } else {
                assert(percent_encoded(bytes)[i] == tail[i - front.len()]);
            }
        }
    }
}

/// A key and a value as they stand in a query string.
pub open spec fn pair_text(key: Seq<char>, value: Seq<char>) -> Seq<char> {
    percent_encoded(encode_utf8(key)) + "="@ + percent_encoded(encode_utf8(value))
}

/// A pair is never empty: it holds at least its `=`.
pub proof fn lemma_pair_text_is_not_empty(key: Seq<char>, value: Seq<char>)
    ensures
        pair_text(key, value).len() > 0,
{
    reveal_strlit("=");
}

/// Calls `urlencoding::encode`, which walks the UTF-8 bytes of its argument
/// and writes each unreserved byte as it is and every other byte as `%` and
/// two capital hexadecimal digits.  The contract states that of the result
/// and is taken on trust.
#[verifier::external_body]
fn percent_encode(data: &str) -> (escaped: String)
    ensures
        escaped@ == percent_encoded(data.spec_bytes()),
{
    urlencoding::encode(data).into_owned()
}

/// Writes a key and a value as one pair of a query string.
pub fn query_pair(key: &str, value: &str) -> (pair: String)
    ensures
        pair@ == pair_text(key@, value@),
{
    let mut pair = percent_encode(key);
    pair.append("=");
    let escaped = percent_encode(value);
    pair.append(escaped.as_str());
    pair
}

} // verus!
