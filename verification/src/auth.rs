use vstd::prelude::*;

use vstd::utf8::encode_utf8;

use crate::encoding::{
    base64_decoding, base64_encode, base64_encoded_len, base64_encoding, base64_fits,
    is_base64_symbol, lemma_encoding_len, lemma_encoding_symbols, law_base64_round_trip,
};

verus! {

/// The `Authorization` value that HTTP Basic authentication sends for a `user:password` text.
pub open spec fn basic_auth_header(auth_string: Seq<char>) -> Seq<char> {
    "Basic "@ + base64_encoding(encode_utf8(auth_string))
}

/// Builds the Basic authentication header: `"Basic "` followed by the base64 of the
/// UTF-8 bytes of `auth_string`.
pub fn create_auth_header(auth_string: &str) -> (header: String)
    requires
        base64_fits(encode_utf8(auth_string@).len()),
    ensures
        header@ == basic_auth_header(auth_string@),
        header@.take(6) == "Basic "@,
        header@.len() == 6 + base64_encoded_len(encode_utf8(auth_string@).len()),
        forall|i: int| 6 <= i < header@.len() ==> is_base64_symbol(#[trigger] header@[i]),
        base64_decoding(header@.skip(6)) == Some(encode_utf8(auth_string@)),
{
    let payload = base64_encode(auth_string.as_bytes());
    let mut header = String::from_str("Basic ");
    proof {
        reveal_strlit("Basic ");
        lemma_encoding_len(encode_utf8(auth_string@));
        lemma_encoding_symbols(encode_utf8(auth_string@));
        law_base64_round_trip(encode_utf8(auth_string@));
    }
    header.append(payload.as_str());
    assert forall|i: int| 6 <= i < header@.len() implies is_base64_symbol(#[trigger] header@[i]) by {
        assert(header@[i] == payload@[i - 6]);
    }
    assert(header@.skip(6) =~= payload@);
    assert(header@.take(6) =~= "Basic "@);
    header
}

/// The Basic header is the word `Basic`, a space, and the padded base64 of the bytes; the part
/// after the six-character prefix decodes back to exactly those bytes.
pub proof fn law_basic_header_decodes_to_credentials(auth_string: Seq<char>)
    ensures
        basic_auth_header(auth_string).take(6) == "Basic "@,
        base64_decoding(basic_auth_header(auth_string).skip(6)) == Some(encode_utf8(auth_string)),
{
    reveal_strlit("Basic ");
    law_base64_round_trip(encode_utf8(auth_string));
    assert(basic_auth_header(auth_string).take(6) =~= "Basic "@);
    assert(basic_auth_header(auth_string).skip(6) =~= base64_encoding(encode_utf8(auth_string)));
}

} // verus!
