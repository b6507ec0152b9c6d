//! Turning a new file in the synced folder into an upload.

use vstd::prelude::*;

use crate::encoding::{
    base64_decoding, base64_encode, base64_encoded_len, base64_encoding, base64_fits,
    is_base64_symbol, lemma_encoding_len, lemma_encoding_symbols, law_base64_round_trip,
};
use crate::paths::{text_option, file_name_of, parent_of, path_file_name, path_parent, path_strip_prefix, strip_path_prefix};

verus! {

/// How one file is handled.
pub enum SyncPlan {
    /// Upload it under this name, in this folder relative to the synced folder.
    Upload { file_name: String, directory: String },
    /// The path is not inside the synced folder.
    OutsideSyncDir,
    /// The relative path has no folder part.
    NoDirectory,
    /// The relative path has no file name.
    NoFileName,
}

/// A plan, with texts in place of strings.
pub enum SyncPlanView {
    Upload { file_name: Seq<char>, directory: Seq<char> },
    OutsideSyncDir,
    NoDirectory,
    NoFileName,
}

impl View for SyncPlan {
    type V = SyncPlanView;

    open spec fn view(&self) -> SyncPlanView {
        match self {
            SyncPlan::Upload { file_name, directory } => SyncPlanView::Upload {
                file_name: file_name@,
                directory: directory@,
            },
            SyncPlan::OutsideSyncDir => SyncPlanView::OutsideSyncDir,
            SyncPlan::NoDirectory => SyncPlanView::NoDirectory,
            SyncPlan::NoFileName => SyncPlanView::NoFileName,
        }
    }
}

/// The plan for a path relative to the synced folder, given its folder part and file name:
/// both are needed to upload.
pub open spec fn plan_for_parts(directory: Option<Seq<char>>, file_name: Option<Seq<char>>) -> SyncPlanView {
    match directory {
        None => SyncPlanView::NoDirectory,
        Some(dir) => match file_name {
            None => SyncPlanView::NoFileName,
            Some(name) => SyncPlanView::Upload { file_name: name, directory: dir },
        },
    }
}

/// The plan for `path`, a file somewhere under the synced folder `sync_dir`.
pub open spec fn plan_for_path(path: Seq<char>, sync_dir: Seq<char>) -> SyncPlanView {
    match path_strip_prefix(path, sync_dir) {
        None => SyncPlanView::OutsideSyncDir,
        Some(relative) => plan_for_parts(path_parent(relative), path_file_name(relative)),
    }
}

/// Decides the plan from the folder part and the file name of a relative path.
pub fn plan_from_parts(directory: Option<String>, file_name: Option<String>) -> (plan: SyncPlan)
    ensures
        plan@ == plan_for_parts(text_option(directory), text_option(file_name)),
        directory is None ==> plan is NoDirectory,
        directory is Some && file_name is None ==> plan is NoFileName,
        directory matches Some(d) ==> (file_name matches Some(n) ==> plan@ == (
        SyncPlanView::Upload { file_name: n@, directory: d@ })),
{
    match directory {
        None => SyncPlan::NoDirectory,
        Some(directory) => match file_name {
            None => SyncPlan::NoFileName,
            Some(file_name) => SyncPlan::Upload { file_name, directory },
        },
    }
}

/// Decides how the file at `path` is uploaded: its path relative to `sync_dir` is split into
/// the folder part and the file name that the upload carries.
pub fn plan_file_sync(path: &str, sync_dir: &str) -> (plan: SyncPlan)
    ensures
        plan@ == plan_for_path(path@, sync_dir@),
        path_strip_prefix(path@, sync_dir@) is None ==> plan is OutsideSyncDir,
        path_strip_prefix(path@, sync_dir@) matches Some(relative) ==> {
            &&& path_parent(relative) is None ==> plan is NoDirectory
            &&& path_parent(relative) is Some && path_file_name(relative) is None
                ==> plan is NoFileName
            &&& path_parent(relative) matches Some(d) ==> (path_file_name(relative) matches Some(n)
                ==> plan@ == (SyncPlanView::Upload { file_name: n, directory: d }))
        },
{
    match strip_path_prefix(path, sync_dir) {
        None => SyncPlan::OutsideSyncDir,
        Some(relative) => {
            let directory = parent_of(relative.as_str());
            let file_name = file_name_of(relative.as_str());
            plan_from_parts(directory, file_name)
        },
    }
}

/// The `fileData` sent for a file: its content in base64, or nothing when it could not be read.
pub fn file_content_payload(contents: Option<Vec<u8>>) -> (payload: String)
    requires
        contents matches Some(bytes) ==> base64_fits(bytes@.len()),
    ensures
        contents is None ==> payload@ == Seq::<char>::empty(),
        contents matches Some(bytes) ==> {
            &&& payload@ == base64_encoding(bytes@)
            &&& payload@.len() == base64_encoded_len(bytes@.len())
            &&& forall|i: int| 0 <= i < payload@.len() ==> is_base64_symbol(#[trigger] payload@[i])
            &&& base64_decoding(payload@) == Some(bytes@)
        },
{
    match contents {
        Some(bytes) => {
            proof {
                lemma_encoding_len(bytes@);
                lemma_encoding_symbols(bytes@);
                law_base64_round_trip(bytes@);
            }
            base64_encode(bytes.as_slice())
        },
        None => String::new(),
    }
}

/// A file is uploaded exactly when its path lies under the synced folder and the relative path
/// has both a folder part and a file name; the upload then carries exactly the relative path's
/// parent as its folder and its last component as its name.
pub proof fn law_upload_carries_parent_and_name(path: Seq<char>, sync_dir: Seq<char>)
    ensures
        (plan_for_path(path, sync_dir) is Upload) <==> (path_strip_prefix(path, sync_dir) matches Some(
            relative,
        ) && path_parent(relative) is Some && path_file_name(relative) is Some),
        plan_for_path(path, sync_dir) matches SyncPlanView::Upload { file_name, directory } ==> {
            &&& path_strip_prefix(path, sync_dir) matches Some(relative)
            &&& path_parent(relative) == Some(directory)
            &&& path_file_name(relative) == Some(file_name)
        },
        path_strip_prefix(path, sync_dir) is None ==> plan_for_path(path, sync_dir)
            is OutsideSyncDir,
{
}

} // verus!
