use vstd::prelude::*;

use crate::gql::{authorized_request, graphql_endpoint, GraphqlRequest};

verus! {

/// The answer to the upload mutation.
#[allow(non_snake_case)]
pub struct Data {
    pub uploadSync: String,
}

/// The variables of the upload mutation: where the file sits under the synced folder and its
/// base64 content.
#[allow(non_snake_case)]
pub struct Vars {
    pub fileName: String,
    pub filePath: String,
    pub fileData: String,
}

/// The text of the upload mutation.
pub open spec fn upload_sync_query() -> Seq<char> {
    "\n        mutation UploadSync($fileName: String!, $filePath: String!, $fileData: String!) {\n            uploadSync(fileName: $fileName, filePath: $filePath, fileData: $fileData)\n        }\n   "@
}

/// The `Authorization` value for a session token: `"Bearer "` followed by the token.
pub open spec fn bearer_auth_header(token: Seq<char>) -> Seq<char> {
    "Bearer "@ + token
}

/// Describes the call that uploads one file: the mutation goes to the CommonOS endpoint with the
/// bearer header of the session token, and the file's name, folder and content as variables.
pub fn upload_sync_request(
    auth_token: String,
    file_name: String,
    file_path: String,
    file_data: String,
) -> (request: GraphqlRequest<Vars>)
    ensures
        request.endpoint@ == graphql_endpoint(),
        request.query@ == upload_sync_query(),
        request.authorized_by(bearer_auth_header(auth_token@)),
        request.endpoint@ == "http://localhost:4000/graphql"@,
        request.query@
            == "\n        mutation UploadSync($fileName: String!, $filePath: String!, $fileData: String!) {\n            uploadSync(fileName: $fileName, filePath: $filePath, fileData: $fileData)\n        }\n   "@,
        request.headers@.len() == 1,
        request.headers@[0].0@ == "Authorization"@,
        request.headers@[0].1@ == "Bearer "@ + auth_token@,
        request.vars.fileName == file_name,
        request.vars.filePath == file_path,
        request.vars.fileData == file_data,
{
    let mut auth_header = String::from_str("Bearer ");
    auth_header.append(auth_token.as_str());
    let query = String::from_str(
        "\n        mutation UploadSync($fileName: String!, $filePath: String!, $fileData: String!) {\n            uploadSync(fileName: $fileName, filePath: $filePath, fileData: $fileData)\n        }\n   ",
    );
    authorized_request(query, auth_header, Vars { fileName: file_name, filePath: file_path, fileData: file_data })
}

/// The bearer header is `Bearer `, then the whole token: seven characters longer than the token,
/// with the token after the prefix.
pub proof fn law_bearer_header_keeps_whole_token(token: Seq<char>)
    ensures
        bearer_auth_header(token) == "Bearer "@ + token,
        bearer_auth_header(token).len() == 7 + token.len(),
        bearer_auth_header(token).skip(7) == token,
        bearer_auth_header(token).take(7) == "Bearer "@,
{
    reveal_strlit("Bearer ");
    assert(("Bearer "@ + token).skip(7) =~= token);
    assert(("Bearer "@ + token).take(7) =~= "Bearer "@);
}

} // verus!
