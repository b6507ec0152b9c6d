use vstd::prelude::*;
use vstd::utf8::encode_utf8;

use crate::auth::{basic_auth_header, create_auth_header};
use crate::encoding::base64_decoding;
use crate::encoding::base64_fits;
use crate::gql::{authorized_request, graphql_endpoint, GraphqlRequest};

verus! {

/// The answer to the authentication query: the session token.
pub struct Data {
    pub authenticate: String,
}

/// The authentication query takes no variables.
pub struct Vars {}

/// The text of the authentication query.
pub open spec fn authenticate_query() -> Seq<char> {
    "\n        query AuthenticateUser {\n            authenticate\n        }\n   "@
}

/// The `user:password` text that Basic authentication encodes.
pub open spec fn credentials(username: Seq<char>, password: Seq<char>) -> Seq<char> {
    username + ":"@ + password
}

/// Describes the authentication call for a user: the query goes to the CommonOS endpoint with
/// the Basic authentication header of `username:password` and no variables.
pub fn authenticate_request(username: &str, password: &str) -> (request: GraphqlRequest<Vars>)
    requires
        base64_fits(encode_utf8(credentials(username@, password@)).len()),
    ensures
        request.endpoint@ == graphql_endpoint(),
        request.query@ == authenticate_query(),
        request.authorized_by(basic_auth_header(credentials(username@, password@))),
        request.endpoint@ == "http://localhost:4000/graphql"@,
        request.query@
            == "\n        query AuthenticateUser {\n            authenticate\n        }\n   "@,
        request.headers@.len() == 1,
        request.headers@[0].0@ == "Authorization"@,
        request.headers@[0].1@.take(6) == "Basic "@,
        base64_decoding(request.headers@[0].1@.skip(6)) == Some(
            encode_utf8(username@ + ":"@ + password@),
        ),
{
    let mut auth_string = String::from_str(username);
    auth_string.append(":");
    auth_string.append(password);
    let auth_header = create_auth_header(auth_string.as_str());
    let query = String::from_str(
        "\n        query AuthenticateUser {\n            authenticate\n        }\n   ",
    );
    authorized_request(query, auth_header, Vars {})
}

/// The credentials are the whole user name, a colon, and the whole password.
pub proof fn law_credentials_are_whole(username: Seq<char>, password: Seq<char>)
    ensures
        credentials(username, password) == username + ":"@ + password,
        credentials(username, password).len() == username.len() + 1 + password.len(),
        credentials(username, password).skip(username.len() + 1 as int) == password,
{
    reveal_strlit(":");
    assert((username + ":"@ + password).skip(username.len() + 1 as int) =~= password);
}

} // verus!
