//! Where the session token is kept on disk, and how it is read back.

use vstd::prelude::*;
use vstd::utf8::{decode_utf8, valid_utf8};

use crate::paths::{join_path, parent_of, path_join, path_parent, text_option};

verus! {

/// The folder that is watched and synced, inside the user's documents folder.
pub open spec fn sync_dir_in(documents: Seq<char>) -> Seq<char> {
    path_join(documents, "CommonOS"@)
}

/// The file that holds the session token, inside the synced folder.
pub open spec fn token_file_in(documents: Seq<char>) -> Seq<char> {
    path_join(sync_dir_in(documents), "auth"@)
}

/// Where the token goes: the file itself, and the folder to create before writing it.
pub struct TokenLocation {
    pub file: String,
    pub folder: Option<String>,
}

/// The synced folder for a documents folder: `<documents>/CommonOS`.
pub fn sync_dir_for(documents: &str) -> (dir: String)
    ensures
        dir@ == sync_dir_in(documents@),
        dir@ == path_join(documents@, "CommonOS"@),
{
    join_path(documents, "CommonOS")
}

/// Where the token is stored for a documents folder: `<documents>/CommonOS/auth`, and the
/// folder that holds it.
pub fn token_location(documents: &str) -> (location: TokenLocation)
    ensures
        location.file@ == token_file_in(documents@),
        text_option(location.folder) == path_parent(token_file_in(documents@)),
        location.file@ == path_join(path_join(documents@, "CommonOS"@), "auth"@),
        text_option(location.folder) == path_parent(
            path_join(path_join(documents@, "CommonOS"@), "auth"@),
        ),
{
    let dir = sync_dir_for(documents);
    let file = join_path(dir.as_str(), "auth");
    let folder = parent_of(file.as_str());
    TokenLocation { file, folder }
}

/// What `String::from_utf8_lossy` makes of `bytes`.
pub uninterp spec fn utf8_lossy(bytes: Seq<u8>) -> Seq<char>;

/// Calls `String::from_utf8_lossy`. Trusted: the result is the named one, and, as its
/// documentation says (it replaces only invalid sequences), valid UTF-8 decodes unchanged.
#[verifier::external_body]
pub(crate) fn decode_lossy(bytes: &[u8]) -> (text: String)
    ensures
        text@ == utf8_lossy(bytes@),
        valid_utf8(bytes@) ==> text@ == decode_utf8(bytes@),
{
    String::from_utf8_lossy(bytes).into_owned()
}

/// The token read back from the token file: nothing when the file could not be read, otherwise
/// its bytes decoded as UTF-8 with invalid sequences replaced.
pub fn token_from_file(contents: Option<Vec<u8>>) -> (token: String)
    ensures
        contents is None ==> token@ == Seq::<char>::empty(),
        contents matches Some(bytes) ==> token@ == utf8_lossy(bytes@),
        contents matches Some(bytes) ==> (valid_utf8(bytes@) ==> token@ == decode_utf8(bytes@)),
{
    match contents {
        Some(bytes) => decode_lossy(bytes.as_slice()),
        None => String::new(),
    }
}

/// The watcher starts at launch only when a token was found.
pub fn should_watch(token: &str) -> (watch: bool)
    ensures
        watch == (token@.len() > 0),
{
    !token.is_empty()
}

/// For every documents folder, the synced folder is its entry `CommonOS`, and the token file is
/// the entry `auth` of the synced folder.
pub proof fn law_token_file_is_auth_in_sync_dir(documents: Seq<char>)
    ensures
        sync_dir_in(documents) == path_join(documents, "CommonOS"@),
        token_file_in(documents) == path_join(path_join(documents, "CommonOS"@), "auth"@),
        token_file_in(documents) == path_join(sync_dir_in(documents), "auth"@),
{
}

} // verus!
