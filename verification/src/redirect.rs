//! The address that sends the browser to the provider's authorization page.

use vstd::prelude::*;
use vstd::string::*;

use crate::percent::{percent_encode, percent_encoded};
use crate::query::{
    encoded_values, is_plain, lemma_query_round_trip, pair_views, parsed_query, query_text,
    stringify,
};

verus! {

/// The provider's authorization endpoint, up to the query.
pub const AUTHORIZE_ENDPOINT: &'static str = "https://accounts.spotify.com/authorize?";

/// The parameters of the authorization request.
pub open spec fn redirect_parameters(
    client_id: Seq<char>,
    requested_scope: Seq<char>,
    redirect_uri: Seq<char>,
    state: Seq<char>,
) -> Seq<(Seq<char>, Seq<char>)> {
    seq![
        ("response_type"@, "code"@),
        ("client_id"@, client_id),
        ("scope"@, requested_scope),
        ("redirect_uri"@, redirect_uri),
        ("state"@, state),
    ]
}

/// The parameters of the authorization request, each value percent-encoded.
pub open spec fn redirect_query(
    client_id: Seq<char>,
    requested_scope: Seq<char>,
    redirect_uri: Seq<char>,
    state: Seq<char>,
) -> Seq<(Seq<char>, Seq<char>)> {
    encoded_values(redirect_parameters(client_id, requested_scope, redirect_uri, state))
}

/// The address of the authorization request.
pub open spec fn redirect_url(
    client_id: Seq<char>,
    requested_scope: Seq<char>,
    redirect_uri: Seq<char>,
    state: Seq<char>,
) -> Seq<char> {
    AUTHORIZE_ENDPOINT@ + query_text(redirect_query(client_id, requested_scope, redirect_uri, state))
}

/// Builds the address that starts the authorization: the provider's
/// endpoint with the parameters `response_type=code`, `client_id`, `scope`,
/// `redirect_uri` and `state`, in this order, every value percent-encoded.
/// The same arguments give the same address.
pub fn build_redirect(client_id: &str, requested_scope: &str, redirect_uri: &str, state: &str) -> (url:
    String)
    ensures
        url@ == redirect_url(client_id@, requested_scope@, redirect_uri@, state@),
{
    let response_type = percent_encode("code");
    let client_id_value = percent_encode(client_id);
    let scope_value = percent_encode(requested_scope);
    let redirect_uri_value = percent_encode(redirect_uri);
    let state_value = percent_encode(state);
    let mut pairs: Vec<(&str, &str)> = Vec::new();
    pairs.push(("response_type", response_type.as_str()));
    pairs.push(("client_id", client_id_value.as_str()));
    pairs.push(("scope", scope_value.as_str()));
    pairs.push(("redirect_uri", redirect_uri_value.as_str()));
    pairs.push(("state", state_value.as_str()));
    assert(pair_views(pairs@) =~= redirect_query(
        client_id@,
        requested_scope@,
        redirect_uri@,
        state@,
    ));
    let query = stringify(pairs);
    let mut url = AUTHORIZE_ENDPOINT.to_owned();
    url.append(query.as_str());
    url
}

/// The query of an authorization request is read back as its parameters:
/// `response_type` with `code`, and the client identifier, the scope, the
/// redirect address and the state as they were given, whatever characters
/// they hold.
pub proof fn lemma_redirect_round_trip(
    client_id: Seq<char>,
    requested_scope: Seq<char>,
    redirect_uri: Seq<char>,
    state: Seq<char>,
)
    ensures
        redirect_url(client_id, requested_scope, redirect_uri, state) == AUTHORIZE_ENDPOINT@
            + query_text(redirect_query(client_id, requested_scope, redirect_uri, state)),
        parsed_query(query_text(redirect_query(client_id, requested_scope, redirect_uri, state)))
            == Some(redirect_parameters(client_id, requested_scope, redirect_uri, state)),
{
    let parameters = redirect_parameters(client_id, requested_scope, redirect_uri, state);
    reveal_strlit("response_type");
    reveal_strlit("client_id");
    reveal_strlit("scope");
    reveal_strlit("redirect_uri");
    reveal_strlit("state");
    assert(is_plain(parameters[0].0));
    assert(is_plain(parameters[1].0));
    assert(is_plain(parameters[2].0));
    assert(is_plain(parameters[3].0));
    assert(is_plain(parameters[4].0));
    lemma_query_round_trip(parameters);
}

} // verus!
