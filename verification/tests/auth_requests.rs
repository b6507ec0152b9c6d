use base64::Engine;
use commonos_files::auth::create_auth_header;
use commonos_files::gql::authenticate::authenticate_request;
use commonos_files::gql::upload_sync::upload_sync_request;

#[test]
fn basic_header_encodes_credentials() {
    assert_eq!(create_auth_header("user:pass"), "Basic dXNlcjpwYXNz");
}

#[test]
fn basic_header_pads_to_four_symbols() {
    assert_eq!(create_auth_header("a"), "Basic YQ==");
    assert_eq!(create_auth_header("ab"), "Basic YWI=");
    assert_eq!(create_auth_header("abc"), "Basic YWJj");
}

#[test]
fn basic_header_of_empty_text() {
    assert_eq!(create_auth_header(""), "Basic ");
}

#[test]
fn basic_header_encodes_utf8_bytes() {
    assert_eq!(create_auth_header("é"), "Basic w6k=");
}

#[test]
fn authenticate_request_carries_basic_credentials() {
    let request = authenticate_request("alice", "secret");
    assert_eq!(request.endpoint, "http://localhost:4000/graphql");
    assert_eq!(
        request.query,
        "\n        query AuthenticateUser {\n            authenticate\n        }\n   "
    );
    assert_eq!(request.headers.len(), 1);
    assert_eq!(request.headers[0].0, "Authorization");
    assert_eq!(request.headers[0].1, "Basic YWxpY2U6c2VjcmV0");
}

#[test]
fn upload_request_carries_bearer_token_and_file() {
    let request = upload_sync_request(
        "tok".to_string(),
        "notes.txt".to_string(),
        "work".to_string(),
        "aGk=".to_string(),
    );
    assert_eq!(request.endpoint, "http://localhost:4000/graphql");
    assert!(request.query.contains("mutation UploadSync($fileName: String!, $filePath: String!, $fileData: String!)"));
    assert!(request.query.contains("uploadSync(fileName: $fileName, filePath: $filePath, fileData: $fileData)"));
    assert_eq!(request.headers.len(), 1);
    assert_eq!(request.headers[0].0, "Authorization");
    assert_eq!(request.headers[0].1, "Bearer tok");
    assert_eq!(request.vars.fileName, "notes.txt");
    assert_eq!(request.vars.filePath, "work");
    assert_eq!(request.vars.fileData, "aGk=");
}

#[test]
fn basic_header_payload_decodes_back() {
    for text in ["", "a", "ab", "abc", "user:pass", "naïve:pässwörd", "x:y:z"] {
        let header = create_auth_header(text);
        assert!(header.starts_with("Basic "));
        let decoded = base64::engine::general_purpose::STANDARD.decode(&header[6..]).unwrap();
        assert_eq!(decoded, text.as_bytes());
        assert_eq!(header.len(), 6 + 4 * ((text.len() + 2) / 3));
    }
}
