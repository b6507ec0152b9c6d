use commonos_files::socket::socket_message;
use commonos_files::token_store::{should_watch, sync_dir_for, token_from_file, token_location};

#[test]
fn sync_dir_is_inside_documents() {
    assert_eq!(sync_dir_for("/home/u/Documents"), "/home/u/Documents/CommonOS");
    assert_eq!(sync_dir_for("/home/u/Documents/"), "/home/u/Documents/CommonOS");
}

#[test]
fn token_file_is_in_sync_dir() {
    let location = token_location("/home/u/Documents");
    assert_eq!(location.file, "/home/u/Documents/CommonOS/auth");
    assert_eq!(location.folder, Some("/home/u/Documents/CommonOS".to_string()));
}

#[test]
fn token_file_decodes_utf8() {
    assert_eq!(token_from_file(Some(b"abc.def".to_vec())), "abc.def");
}

#[test]
fn token_file_replaces_invalid_bytes() {
    assert_eq!(token_from_file(Some(vec![b'a', 0xff, b'b'])), "a\u{FFFD}b");
}

#[test]
fn missing_token_file_gives_empty_token() {
    assert_eq!(token_from_file(None), "");
}

#[test]
fn watcher_starts_only_with_a_token() {
    assert!(should_watch("t"));
    assert!(!should_watch(""));
}

#[test]
fn socket_message_is_json_object() {
    assert_eq!(
        socket_message("your_jwt_token", "eventName", "Hello"),
        r#"{"event":"eventName","payload":"Hello","token":"your_jwt_token"}"#
    );
}

#[test]
fn socket_message_escapes_strings() {
    assert_eq!(socket_message("a\"b", "e", "p"), r#"{"event":"e","payload":"p","token":"a\"b"}"#);
}
