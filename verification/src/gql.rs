//! The GraphQL calls the client makes, described as plain values. Sending them is left to the
//! caller; what is sent is fixed here.

pub mod authenticate;
pub mod upload_sync;

use vstd::prelude::*;

verus! {

/// The GraphQL endpoint of the CommonOS server.
pub open spec fn graphql_endpoint() -> Seq<char> {
    "http://localhost:4000/graphql"@
}

/// One GraphQL call: where it goes, the query text, the HTTP headers and the variables.
pub struct GraphqlRequest<V> {
    pub endpoint: String,
    pub query: String,
    pub headers: Vec<(String, String)>,
    pub vars: V,
}

impl<V> GraphqlRequest<V> {
    /// The request carries exactly one header, `Authorization`, with the given value.
    pub open spec fn authorized_by(self, value: Seq<char>) -> bool {
        &&& self.headers@.len() == 1
        &&& self.headers@[0].0@ == "Authorization"@
        &&& self.headers@[0].1@ == value
    }
}

/// Assembles a request to the CommonOS endpoint with a single `Authorization` header.
pub(crate) fn authorized_request<V>(query: String, authorization: String, vars: V) -> (request:
    GraphqlRequest<V>)
    ensures
        request.endpoint@ == graphql_endpoint(),
        request.query == query,
        request.authorized_by(authorization@),
        request.vars == vars,
{
    let mut headers: Vec<(String, String)> = Vec::new();
    headers.push((String::from_str("Authorization"), authorization));
    GraphqlRequest {
        endpoint: String::from_str("http://localhost:4000/graphql"),
        query,
        headers,
        vars,
    }
}

} // verus!
