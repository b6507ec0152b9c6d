use commonos_files::encoding::base64_encoded_len_fits;
use commonos_files::sync::{file_content_payload, plan_file_sync, plan_from_parts, SyncPlan};

fn upload(plan: SyncPlan) -> (String, String) {
    match plan {
        SyncPlan::Upload { file_name, directory } => (file_name, directory),
        _ => panic!("expected an upload"),
    }
}

#[test]
fn nested_file_is_uploaded_with_its_folder() {
    let (name, dir) = upload(plan_file_sync("/home/u/Documents/CommonOS/work/notes.txt", "/home/u/Documents/CommonOS"));
    assert_eq!(name, "notes.txt");
    assert_eq!(dir, "work");
}

#[test]
fn top_level_file_has_empty_folder() {
    let (name, dir) = upload(plan_file_sync("/s/CommonOS/a.txt", "/s/CommonOS"));
    assert_eq!(name, "a.txt");
    assert_eq!(dir, "");
}

#[test]
fn deep_file_keeps_whole_folder_path() {
    let (name, dir) = upload(plan_file_sync("/s/CommonOS/a/b/c.md", "/s/CommonOS"));
    assert_eq!(name, "c.md");
    assert_eq!(dir, "a/b");
}

#[test]
fn file_outside_sync_dir_is_not_uploaded() {
    assert!(matches!(plan_file_sync("/elsewhere/a.txt", "/s/CommonOS"), SyncPlan::OutsideSyncDir));
}

#[test]
fn sync_dir_itself_has_no_folder_part() {
    assert!(matches!(plan_file_sync("/s/CommonOS", "/s/CommonOS"), SyncPlan::NoDirectory));
}

#[test]
fn plan_needs_folder_and_name() {
    assert!(matches!(plan_from_parts(None, Some("a".to_string())), SyncPlan::NoDirectory));
    assert!(matches!(plan_from_parts(Some("d".to_string()), None), SyncPlan::NoFileName));
    let (name, dir) = upload(plan_from_parts(Some("d".to_string()), Some("a".to_string())));
    assert_eq!((name.as_str(), dir.as_str()), ("a", "d"));
}

#[test]
fn file_content_is_sent_in_base64() {
    assert_eq!(file_content_payload(Some(b"hello".to_vec())), "aGVsbG8=");
    assert_eq!(file_content_payload(Some(Vec::new())), "");
}

#[test]
fn unreadable_file_sends_nothing() {
    assert_eq!(file_content_payload(None), "");
}

#[test]
fn encoded_length_limit() {
    assert!(base64_encoded_len_fits(0));
    assert!(base64_encoded_len_fits(1_000_000));
    assert!(!base64_encoded_len_fits(usize::MAX));
    assert!(!base64_encoded_len_fits(usize::MAX / 4 * 3 + 1));
}
