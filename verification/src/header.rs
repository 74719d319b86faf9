//! The headers of the outgoing call: which one carries the credential, and
//! which texts an HTTP header value may hold.

use vstd::prelude::*;
use vstd::utf8::{encode_scalar, encode_utf8};
use crate::error::{ChatError, ErrorModel};
use crate::request::{ChatRequest, Provider};
use crate::text::{trim, trim_str};

verus! {

/// The name of the header that carries the credential for `Azure`.
pub const API_KEY: &'static str = "api-key";

/// The name of the header that carries the credential for the other
/// providers.
pub const AUTHORIZATION: &'static str = "authorization";

/// What stands before the credential in an `authorization` header.
pub const BEARER: &'static str = "Bearer ";

/// The name of the header that says what the body is.
pub const CONTENT_TYPE: &'static str = "content-type";

/// The value of `content-type` for a JSON body.
pub const JSON: &'static str = "application/json";

/// One header of the outgoing call. Names are written in lower case.
#[derive(Clone, Debug, PartialEq, Eq)]
pub struct Header {
    pub name: String,
    pub value: String,
}

/// What a [`Header`] holds.
pub ghost struct HeaderModel {
    pub name: Seq<char>,
    pub value: Seq<char>,
}

impl View for Header {
    type V = HeaderModel;

    open spec fn view(&self) -> HeaderModel {
        HeaderModel { name: self.name@, value: self.value@ }
    }
}

impl DeepView for Header {
    type V = HeaderModel;

    open spec fn deep_view(&self) -> HeaderModel {
        self@
    }
}

/// Whether a header value may hold the octet `b`: anything but the control
/// characters, the horizontal tab excepted.
pub open spec fn octet_allowed(b: u8) -> bool {
    (b >= 32 && b != 127) || b == 9
}

/// Whether a header value may be made of `octets`.
pub open spec fn octets_allowed(octets: Seq<u8>) -> bool {
    forall|i: int| 0 <= i < octets.len() ==> octet_allowed(#[trigger] octets[i])
}

/// Whether a header value may hold the character `c`.
pub open spec fn char_allowed(c: char) -> bool {
    (c as u32 >= 32 && c as u32 != 127) || c as u32 == 9
}

/// Whether a header value may be the text `value`.
pub open spec fn value_allowed(value: Seq<char>) -> bool {
    forall|i: int| 0 <= i < value.len() ==> char_allowed(#[trigger] value[i])
}

/// Calls `reqwest::header::HeaderValue::from_str` and says whether it
/// returned a value.
///
/// Trusted: the text is accepted exactly when each octet of its UTF-8 form is
/// 32 or more and not 127, or is 9. What this means character by character
/// is proved in [`lemma_value_allowed_by_octets`].
#[verifier::external_body]
pub(crate) fn header_value_parses(value: &str) -> (accepted: bool)
    ensures
        accepted == octets_allowed(encode_utf8(value@)),
{
    reqwest::header::HeaderValue::from_str(value).is_ok()
}

/// Where the octets of an encoded character lie: a character below 128 is
/// its own single octet, and every octet of a longer form is 128 or more.
proof fn lemma_scalar_octets(v: u32)
    by (bit_vector)
    requires
        v <= 0x10FFFF,
    ensures
        v <= 0x7F ==> (v & 0x7F) as u8 == v,
        0xC0u8 | ((v >> 6) & 0x1F) as u8 >= 0x80,
        0xE0u8 | ((v >> 12) & 0x0F) as u8 >= 0x80,
        0xF0u8 | ((v >> 18) & 0x7) as u8 >= 0x80,
        0x80u8 | (v & 0x3F) as u8 >= 0x80,
        0x80u8 | ((v >> 6) & 0x3F) as u8 >= 0x80,
        0x80u8 | ((v >> 12) & 0x3F) as u8 >= 0x80,
{
}

/// The octets of one encoded character are allowed exactly when the
/// character is.
proof fn lemma_char_octets(c: char)
    ensures
        octets_allowed(encode_scalar(c as u32)) <==> char_allowed(c),
{
    let v = c as u32;
    let octets = encode_scalar(v);
    lemma_scalar_octets(v);
    if char_allowed(c) {
        assert forall|i: int| 0 <= i < octets.len() implies octet_allowed(
            #[trigger] octets[i],
        ) by {}
    } else {
        assert(octets.len() == 1);
        assert(!octet_allowed(octets[0]));
    }
}

/// A text is allowed character by character exactly when its UTF-8 form is
/// allowed octet by octet.
pub proof fn lemma_value_allowed_by_octets(value: Seq<char>)
    ensures
        octets_allowed(encode_utf8(value)) <==> value_allowed(value),
    decreases value.len(),
{
    if value.len() > 0 {
        let head = encode_scalar(value[0] as u32);
        let rest = value.drop_first();
        let tail = encode_utf8(rest);
        lemma_char_octets(value[0]);
        lemma_value_allowed_by_octets(rest);
        assert(encode_utf8(value) == head + tail);
        if value_allowed(value) {
            assert forall|i: int| 0 <= i < rest.len() implies char_allowed(
                #[trigger] rest[i],
            ) by {
                assert(rest[i] == value[i + 1]);
            }
            assert forall|i: int| 0 <= i < (head + tail).len() implies octet_allowed(
                #[trigger] (head + tail)[i],
            ) by {
                if i < head.len() {
                    assert((head + tail)[i] == head[i]);
                } else {
                    assert((head + tail)[i] == tail[i - head.len()]);
                }
            }
        }
        if octets_allowed(head + tail) {
            assert forall|i: int| 0 <= i < head.len() implies octet_allowed(
                #[trigger] head[i],
            ) by {
                assert(head[i] == (head + tail)[i]);
            }
            assert forall|i: int| 0 <= i < tail.len() implies octet_allowed(
                #[trigger] tail[i],
            ) by {
                assert(tail[i] == (head + tail)[i + head.len()]);
            }
            assert forall|i: int| 0 <= i < value.len() implies char_allowed(
                #[trigger] value[i],
            ) by {
                if i > 0 {
                    assert(value[i] == rest[i - 1]);
                }
            }
        }
    }
}

/// Whether `value` can be the value of an HTTP header.
pub fn is_header_value(value: &str) -> (allowed: bool)
    ensures
        allowed == value_allowed(value@),
{
    proof {
        lemma_value_allowed_by_octets(value@);
    }
    header_value_parses(value)
}

/// The credential as it is sent: the key without outer white space.
pub open spec fn credential_of(api_key: Seq<char>) -> Seq<char> {
    trim(api_key)
}

/// The header that carries the credential: `api-key` with the bare credential
/// for `Azure`, `authorization` with a bearer token for the others.
pub open spec fn credential_header_of(provider: Provider, api_key: Seq<char>) -> HeaderModel {
    match provider {
        Provider::Azure => HeaderModel { name: API_KEY@, value: credential_of(api_key) },
        Provider::Openai | Provider::Custom => HeaderModel {
            name: AUTHORIZATION@,
            value: BEARER@ + credential_of(api_key),
        },
    }
}

/// The header that announces a JSON body.
pub open spec fn content_type_header() -> HeaderModel {
    HeaderModel { name: CONTENT_TYPE@, value: JSON@ }
}

/// The headers of the call, in the order in which they are set.
pub open spec fn headers_of(provider: Provider, api_key: Seq<char>) -> Seq<HeaderModel> {
    seq![credential_header_of(provider, api_key), content_type_header()]
}

/// Whether `headers` holds the header `name: value`.
pub open spec fn carries(headers: Seq<HeaderModel>, name: Seq<char>, value: Seq<char>) -> bool {
    exists|i: int|
        0 <= i < headers.len() && (#[trigger] headers[i]).name == name && headers[i].value
            == value
}

/// Whether `headers` holds a header called `name`.
pub open spec fn has_name(headers: Seq<HeaderModel>, name: Seq<char>) -> bool {
    exists|i: int| 0 <= i < headers.len() && (#[trigger] headers[i]).name == name
}

/// The word `Bearer` and a space in front of a credential neither make an
/// allowed value of a forbidden one nor the reverse.
pub proof fn lemma_bearer_allowed(credential: Seq<char>)
    ensures
        value_allowed(BEARER@ + credential) <==> value_allowed(credential),
{
    reveal_strlit("Bearer ");
    let scheme = BEARER@;
    let token = scheme + credential;
    if value_allowed(credential) {
        assert forall|i: int| 0 <= i < token.len() implies char_allowed(#[trigger] token[i]) by {
            if i >= scheme.len() {
                assert(token[i] == credential[i - scheme.len()]);
            }
        }
    }
    if value_allowed(token) {
        assert forall|i: int| 0 <= i < credential.len() implies char_allowed(
            #[trigger] credential[i],
        ) by {
            assert(credential[i] == token[i + scheme.len()]);
        }
    }
}

/// The value of the credential header is allowed exactly when the credential
/// is, whatever the provider.
pub proof fn lemma_credential_header_allowed(provider: Provider, api_key: Seq<char>)
    ensures
        value_allowed(credential_header_of(provider, api_key).value) <==> value_allowed(
            credential_of(api_key),
        ),
{
    lemma_bearer_allowed(credential_of(api_key));
}

/// For `Azure` the call carries the credential in `api-key` and has no
/// `authorization` header; for `Openai` and `Custom` it carries a bearer token
/// in `authorization` and has no `api-key` header. Either way it announces a
/// JSON body, and no name occurs twice.
pub proof fn lemma_credential_header_by_provider(provider: Provider, api_key: Seq<char>)
    ensures
        headers_of(provider, api_key).len() == 2,
        headers_of(provider, api_key)[0].name != headers_of(provider, api_key)[1].name,
        provider == Provider::Azure ==> carries(
            headers_of(provider, api_key),
            API_KEY@,
            credential_of(api_key),
        ) && !has_name(headers_of(provider, api_key), AUTHORIZATION@),
        provider != Provider::Azure ==> carries(
            headers_of(provider, api_key),
            AUTHORIZATION@,
            BEARER@ + credential_of(api_key),
        ) && !has_name(headers_of(provider, api_key), API_KEY@),
        carries(headers_of(provider, api_key), CONTENT_TYPE@, JSON@),
{
    reveal_strlit("api-key");
    reveal_strlit("authorization");
    reveal_strlit("content-type");
    let headers = headers_of(provider, api_key);
    assert(headers[0] == credential_header_of(provider, api_key));
    assert(headers[1] == content_type_header());
    assert(API_KEY@.len() == 7);
    assert(AUTHORIZATION@.len() == 13);
    assert(CONTENT_TYPE@.len() == 12);
}

/// The header that carries the credential of `api_key` for `provider`.
pub fn credential_header(provider: Provider, api_key: &str) -> (header: Header)
    ensures
        header@ == credential_header_of(provider, api_key@),
{
    let credential = trim_str(api_key);
    match provider {
        Provider::Azure => Header {
            name: String::from_str(API_KEY),
            value: String::from_str(credential),
        },
        Provider::Openai | Provider::Custom => Header {
            name: String::from_str(AUTHORIZATION),
            value: String::from_str(BEARER).concat(credential),
        },
    }
}

/// The headers of the call for `request`, or `InvalidCredential` where the
/// credential holds a character that no header value may hold.
pub fn build_headers(request: &ChatRequest) -> (built: Result<Vec<Header>, ChatError>)
    ensures
        built is Ok <==> value_allowed(credential_of(request@.api_key)),
        built matches Ok(headers) ==> headers.deep_view() == headers_of(
            request@.provider,
            request@.api_key,
        ),
        built matches Err(error) ==> error@ == ErrorModel::InvalidCredential,
{
    let credential = credential_header(request.provider, request.api_key.as_str());
    proof {
        lemma_credential_header_allowed(request@.provider, request@.api_key);
    }
    if !is_header_value(credential.value.as_str()) {
        return Err(ChatError::InvalidCredential);
    }
    let content_type = Header {
        name: String::from_str(CONTENT_TYPE),
        value: String::from_str(JSON),
    };
    let mut headers: Vec<Header> = Vec::new();
    headers.push(credential);
    headers.push(content_type);
    assert(headers.deep_view() =~= headers_of(request@.provider, request@.api_key));
    Ok(headers)
}

} // verus!
