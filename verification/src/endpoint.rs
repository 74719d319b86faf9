//! Where a request is sent: the endpoint for each provider, and the
//! alternate endpoint that is tried once after a 404.

use vstd::prelude::*;
use crate::request::{ChatRequest, Provider};
use crate::text::{
    is_white_space,
    lemma_trim_end_char,
    lemma_trim_end_char_ignores_run,
    lemma_trim_start_append,
    run_of,
    trim,
    trim_end_char,
    trim_end_matches_char,
    trim_str,
};

verus! {

/// The path of the chat completion resource below an API's base address.
pub const COMPLETIONS_PATH: &'static str = "/chat/completions";

/// The characters of [`COMPLETIONS_PATH`].
pub open spec fn completions_path() -> Seq<char> {
    COMPLETIONS_PATH@
}

/// The base address: `base_url` without outer white space and then without
/// trailing slashes.
pub open spec fn base_of(base_url: Seq<char>) -> Seq<char> {
    trim_end_char(trim(base_url), '/')
}

/// The endpoint of the first call.
pub open spec fn endpoint_of(provider: Provider, base_url: Seq<char>) -> Seq<char> {
    match provider {
        Provider::Openai => base_of(base_url) + completions_path(),
        Provider::Azure | Provider::Custom => base_of(base_url),
    }
}

/// The endpoint of the second call, whatever the provider.
pub open spec fn alternate_endpoint_of(base_url: Seq<char>) -> Seq<char> {
    base_of(base_url) + completions_path()
}

/// The base address is the trimmed address short of the slashes at its end,
/// and of nothing else; it does not end in a slash itself.
pub proof fn lemma_base_drops_trailing_slashes(base_url: Seq<char>)
    ensures
        base_of(base_url).len() <= trim(base_url).len(),
        base_of(base_url) + run_of(
            '/',
            (trim(base_url).len() - base_of(base_url).len()) as nat,
        ) == trim(base_url),
        base_of(base_url).len() > 0 ==> base_of(base_url).last() != '/',
{
    let trimmed = trim(base_url);
    let base = base_of(base_url);
    lemma_trim_end_char(trimmed, '/');
    assert(base + run_of('/', (trimmed.len() - base.len()) as nat) =~= trimmed);
}

/// For `Openai` the endpoint is the base address with the completions path
/// behind it once: the slash that opens the path is the only one at the
/// joint, however many slashes the address ended in.
pub proof fn lemma_openai_endpoint_joint(base_url: Seq<char>)
    ensures
        endpoint_of(Provider::Openai, base_url) == base_of(base_url) + completions_path(),
        endpoint_of(Provider::Openai, base_url)[base_of(base_url).len() as int] == '/',
        base_of(base_url).len() > 0 ==> endpoint_of(Provider::Openai, base_url)[base_of(
            base_url,
        ).len() - 1] != '/',
{
    reveal_strlit("/chat/completions");
    lemma_base_drops_trailing_slashes(base_url);
}

/// Slashes added at the end of an address change neither the base address
/// nor any endpoint. The address must not end in white space: behind white
/// space the slashes would be all that is dropped.
pub proof fn lemma_trailing_slashes_ignored(provider: Provider, base_url: Seq<char>, n: nat)
    requires
        base_url.len() > 0 ==> !is_white_space(base_url.last()),
    ensures
        base_of(base_url + run_of('/', n)) == base_of(base_url),
        endpoint_of(provider, base_url + run_of('/', n)) == endpoint_of(provider, base_url),
        alternate_endpoint_of(base_url + run_of('/', n)) == alternate_endpoint_of(base_url),
{
    let slashes = run_of('/', n);
    let longer = base_url + slashes;
    if n == 0 {
        assert(longer =~= base_url);
    } else {
        assert(longer.last() == '/');
        if base_url.len() > 0 {
            lemma_trim_start_append(base_url, slashes);
        } else {
            assert(longer =~= slashes);
            assert(slashes.first() == '/');
        }
        assert(trim(longer) == trim(base_url) + slashes);
        lemma_trim_end_char_ignores_run(trim(base_url), '/', n);
    }
}

/// The base address of `base_url`.
pub fn base_address(base_url: &str) -> (base: String)
    ensures
        base@ == base_of(base_url@),
{
    String::from_str(trim_end_matches_char(trim_str(base_url), '/'))
}

/// The endpoint of the first call: for `Openai` the base address followed by
/// the completions path, for `Azure` and `Custom` the base address as it is.
pub fn build_endpoint(request: &ChatRequest) -> (endpoint: String)
    ensures
        endpoint@ == endpoint_of(request@.provider, request@.base_url),
{
    let base = base_address(request.base_url.as_str());
    match request.provider {
        Provider::Openai => base.concat(COMPLETIONS_PATH),
        Provider::Azure | Provider::Custom => base,
    }
}

/// The endpoint that is tried once after the first call came back with 404.
pub fn build_alternate_endpoint(request: &ChatRequest) -> (endpoint: String)
    ensures
        endpoint@ == alternate_endpoint_of(request@.base_url),
{
    base_address(request.base_url.as_str()).concat(COMPLETIONS_PATH)
}

} // verus!
