//! From a request to the call that carries it: the checks that come before
//! any call, the endpoint, the headers and the body.

use vstd::prelude::*;
use crate::endpoint::{alternate_endpoint_of, build_endpoint, endpoint_of};
use crate::error::{ChatError, ErrorModel};
use crate::header::{
    build_headers,
    credential_of,
    headers_of,
    lemma_credential_header_allowed,
    value_allowed,
    Header,
    HeaderModel,
};
use crate::payload::{build_payload, payload_of, Payload, PayloadModel};
use crate::request::{ChatRequest, RequestModel};
use crate::text::{is_blank, lemma_trim_empty_iff_blank, trim_str};

verus! {

/// One HTTP POST: where it goes, the headers it carries and what its JSON
/// body holds.
#[derive(Clone, Debug, PartialEq, Eq)]
pub struct Outbound {
    pub endpoint: String,
    pub headers: Vec<Header>,
    pub payload: Payload,
}

/// What an [`Outbound`] holds.
pub ghost struct OutboundModel {
    pub endpoint: Seq<char>,
    pub headers: Seq<HeaderModel>,
    pub payload: PayloadModel,
}

impl View for Outbound {
    type V = OutboundModel;

    open spec fn view(&self) -> OutboundModel {
        OutboundModel {
            endpoint: self.endpoint@,
            headers: self.headers.deep_view(),
            payload: self.payload@,
        }
    }
}

impl DeepView for Outbound {
    type V = OutboundModel;

    open spec fn deep_view(&self) -> OutboundModel {
        self@
    }
}

/// Why `request` is turned down before any call, if it is: the checks in the
/// order in which they are made.
pub open spec fn rejection_of(request: RequestModel) -> Option<ErrorModel> {
    if credential_of(request.api_key).len() == 0 {
        Some(ErrorModel::MissingCredential)
    } else if request.messages.len() == 0 {
        Some(ErrorModel::NoMessages)
    } else if !value_allowed(credential_of(request.api_key)) {
        Some(ErrorModel::InvalidCredential)
    } else {
        None
    }
}

/// A request is turned down for want of a credential exactly when its key is
/// empty or made of white space alone.
pub proof fn lemma_missing_credential_iff_blank(request: RequestModel)
    ensures
        rejection_of(request) == Some(ErrorModel::MissingCredential) <==> is_blank(
            request.api_key,
        ),
{
    lemma_trim_empty_iff_blank(request.api_key);
}

/// The first call for `request`.
pub open spec fn primary_of(request: RequestModel) -> OutboundModel {
    OutboundModel {
        endpoint: endpoint_of(request.provider, request.base_url),
        headers: headers_of(request.provider, request.api_key),
        payload: payload_of(request),
    }
}

/// The second call for `request`: the alternate endpoint, the same headers
/// and body.
pub open spec fn alternate_of(request: RequestModel) -> OutboundModel {
    OutboundModel {
        endpoint: alternate_endpoint_of(request.base_url),
        headers: headers_of(request.provider, request.api_key),
        payload: payload_of(request),
    }
}

/// Every header of either call for a request that is not turned down has a
/// value that a header may hold.
pub proof fn lemma_prepared_headers_allowed(request: RequestModel, i: int)
    requires
        rejection_of(request) is None,
        0 <= i < headers_of(request.provider, request.api_key).len(),
    ensures
        value_allowed(primary_of(request).headers[i].value),
        value_allowed(alternate_of(request).headers[i].value),
{
    reveal_strlit("application/json");
    lemma_credential_header_allowed(request.provider, request.api_key);
}

/// The first call for `request`, or the reason why there is none.
pub open spec fn prepared(request: RequestModel) -> Result<OutboundModel, ErrorModel> {
    match rejection_of(request) {
        Some(error) => Err(error),
        None => Ok(primary_of(request)),
    }
}

/// The model of what [`prepare`] returns.
pub open spec fn preparation_of(preparation: Result<Outbound, ChatError>) -> Result<
    OutboundModel,
    ErrorModel,
> {
    match preparation {
        Ok(outbound) => Ok(outbound@),
        Err(error) => Err(error@),
    }
}

/// Checks `request` and builds its first call.
///
/// Fails with `MissingCredential` where the key is empty or white space,
/// else with `NoMessages` where there is no message, else with
/// `InvalidCredential` where the trimmed key cannot stand in a header.
pub fn prepare(request: &ChatRequest) -> (preparation: Result<Outbound, ChatError>)
    ensures
        preparation_of(preparation) == prepared(request@),
{
    if trim_str(request.api_key.as_str()).is_empty() {
        return Err(ChatError::MissingCredential);
    }
    if request.messages.len() == 0 {
        return Err(ChatError::NoMessages);
    }
    match build_headers(request) {
        Err(error) => Err(error),
        Ok(headers) => Ok(
            Outbound {
                endpoint: build_endpoint(request),
                headers,
                payload: build_payload(request),
            },
        ),
    }
}

/// A copy of `headers`.
fn copy_headers(headers: &Vec<Header>) -> (copy: Vec<Header>)
    ensures
        copy.deep_view() == headers.deep_view(),
{
    let mut copy: Vec<Header> = Vec::new();
    let mut i: usize = 0;
    while i < headers.len()
        invariant
            i <= headers.len(),
            copy.len() == i,
            forall|k: int| 0 <= k < i ==> (#[trigger] copy[k])@ == headers[k]@,
        decreases headers.len() - i,
    {
        let header = Header { name: headers[i].name.clone(), value: headers[i].value.clone() };
        copy.push(header);
        i += 1;
    }
    assert(copy.deep_view() =~= headers.deep_view());
    copy
}

impl Outbound {
    /// The same call against another endpoint.
    pub fn redirected(&self, endpoint: String) -> (redirected: Outbound)
        ensures
            redirected@ == (OutboundModel { endpoint: endpoint@, ..self@ }),
    {
        Outbound {
            endpoint,
            headers: copy_headers(&self.headers),
            payload: self.payload.duplicate(),
        }
    }
}

} // verus!
