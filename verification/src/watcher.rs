//! Decisions of the folder watcher: which file-system events start an upload, and which
//! watcher task is the live one.

use vstd::prelude::*;

verus! {

/// The kinds of creation that the watcher reports.
pub enum FsCreateKind {
    Any,
    File,
    Folder,
    Other,
}

/// The kinds of file-system event that the watcher reports.
pub enum FsEventKind {
    Any,
    Access,
    Create(FsCreateKind),
    Modify,
    Remove,
    Other,
}

/// A path named by an event, with whether it is a regular file.
pub struct PathEntry {
    pub path: String,
    pub is_file: bool,
}

/// An event from the watcher: what happened, and to which paths.
pub struct FsEvent {
    pub kind: FsEventKind,
    pub entries: Vec<PathEntry>,
}

/// What to do with one watcher report.
pub enum WatchAction {
    /// Upload these files, in this order.
    Sync(Vec<String>),
    /// Nothing to do.
    Ignore,
    /// The watcher failed; report the error.
    ReportError(String),
}

/// Only a plain creation (`Create(Any)`) starts an upload.
pub open spec fn is_sync_trigger(kind: FsEventKind) -> bool {
    kind == FsEventKind::Create(FsCreateKind::Any)
}

/// The paths of the entries that are regular files, in order.
pub open spec fn file_paths(entries: Seq<PathEntry>) -> Seq<Seq<char>>
    decreases entries.len(),
{
    if entries.len() == 0 {
        Seq::empty()
    } else {
        let rest = file_paths(entries.drop_last());
        if entries.last().is_file {
            rest.push(entries.last().path@)
        } else {
            rest
        }
    }
}

/// The texts of a list of strings.
pub open spec fn texts(strings: Seq<String>) -> Seq<Seq<char>> {
    strings.map_values(|s: String| s@)
}

/// Whether an event kind starts an upload.
pub fn triggers_sync(kind: &FsEventKind) -> (trigger: bool)
    ensures
        trigger == is_sync_trigger(*kind),
        trigger <==> *kind == FsEventKind::Create(FsCreateKind::Any),
{
    match kind {
        FsEventKind::Create(FsCreateKind::Any) => true,
        _ => false,
    }
}

/// The paths of the regular files among the entries, in order.
pub fn select_files(entries: &Vec<PathEntry>) -> (paths: Vec<String>)
    ensures
        texts(paths@) == file_paths(entries@),
{
    let mut paths: Vec<String> = Vec::new();
    let mut i: usize = 0;
    while i < entries.len()
        invariant
            i <= entries@.len(),
            texts(paths@) == file_paths(entries@.take(i as int)),
        decreases entries@.len() - i,
    {
        let entry = &entries[i];
        assert(entries@.take(i + 1).drop_last() == entries@.take(i as int));
        if entry.is_file {
            paths.push(entry.path.clone());
            assert(texts(paths@) == file_paths(entries@.take(i as int)).push(entry.path@));
        }
        i = i + 1;
    }
    assert(entries@.take(entries@.len() as int) == entries@);
    paths
}

/// Decides what one watcher report leads to: an error is reported; a plain creation uploads
/// the regular files it names, if there are any; anything else is ignored.
pub fn watch_step(report: Result<FsEvent, String>) -> (action: WatchAction)
    ensures
        report matches Err(e) ==> action == WatchAction::ReportError(e),
        report matches Ok(event) && event.kind != FsEventKind::Create(FsCreateKind::Any)
            ==> action is Ignore,
        report matches Ok(event) ==> {
            if is_sync_trigger(event.kind) && file_paths(event.entries@).len() > 0 {
                action matches WatchAction::Sync(paths) && texts(paths@) == file_paths(
                    event.entries@,
                )
            } else {
                action is Ignore
            }
        },
{
    match report {
        Err(e) => WatchAction::ReportError(e),
        Ok(event) => {
            if triggers_sync(&event.kind) {
                let paths = select_files(&event.entries);
                if paths.len() > 0 {
                    WatchAction::Sync(paths)
                } else {
                    WatchAction::Ignore
                }
            } else {
                WatchAction::Ignore
            }
        },
    }
}

/// Every path selected for upload is the path of an entry that is a regular file.
pub proof fn law_only_files_are_synced(entries: Seq<PathEntry>, k: int)
    requires
        0 <= k < file_paths(entries).len(),
    ensures
        exists|j: int|
            0 <= j < entries.len() && entries[j].is_file && #[trigger] entries[j].path@
                == file_paths(entries)[k],
    decreases entries.len(),
{
    let rest = file_paths(entries.drop_last());
    if entries.last().is_file && k == rest.len() {
        assert(entries[entries.len() - 1].path@ == file_paths(entries)[k]);
    } else {
        law_only_files_are_synced(entries.drop_last(), k);
        let j = choose|j: int|
            0 <= j < entries.drop_last().len() && entries.drop_last()[j].is_file
                && #[trigger] entries.drop_last()[j].path@ == rest[k];
        assert(entries[j] == entries.drop_last()[j]);
    }
}

/// No regular file is left out: each entry that is a file has its path selected, and the
/// selection is never longer than the event.
pub proof fn law_every_file_is_synced(entries: Seq<PathEntry>, j: int)
    requires
        0 <= j < entries.len(),
        entries[j].is_file,
    ensures
        file_paths(entries).contains(entries[j].path@),
        file_paths(entries).len() <= entries.len(),
    decreases entries.len(),
{
    lemma_file_paths_len(entries);
    if j == entries.len() - 1 {
        assert(file_paths(entries).last() == entries[j].path@);
    } else {
        law_every_file_is_synced(entries.drop_last(), j);
        assert(entries.drop_last()[j] == entries[j]);
        let rest = file_paths(entries.drop_last());
        let k = choose|k: int| 0 <= k < rest.len() && rest[k] == entries[j].path@;
        if entries.last().is_file {
            assert(file_paths(entries)[k] == rest[k]);
        }
    }
}

proof fn lemma_file_paths_len(entries: Seq<PathEntry>)
    ensures
        file_paths(entries).len() <= entries.len(),
    decreases entries.len(),
{
    if entries.len() > 0 {
        lemma_file_paths_len(entries.drop_last());
    }
}

/// Holds the handle of the watcher task that is running, if any.
pub struct WatcherSlot<T> {
    current: Option<T>,
}

impl<T> View for WatcherSlot<T> {
    type V = Option<T>;

    closed spec fn view(&self) -> Option<T> {
        self.current
    }
}

/// Installing a handle: the slot then holds it, and the one it held before is handed back to
/// be stopped.
pub open spec fn spec_install<T>(slot: Option<T>, handle: T) -> (Option<T>, Option<T>) {
    (Some(handle), slot)
}

/// Stopping: the slot empties, and the handle it held is handed back to be stopped.
pub open spec fn spec_stop<T>(slot: Option<T>) -> (Option<T>, Option<T>) {
    (None, slot)
}

impl<T> WatcherSlot<T> {
    /// An empty slot: no watcher runs.
    pub fn new() -> (slot: Self)
        ensures
            slot@ is None,
    {
        WatcherSlot { current: None }
    }

    /// Makes `handle` the running watcher and returns the one it replaces, which the caller
    /// stops.
    pub fn install(&mut self, handle: T) -> (previous: Option<T>)
        ensures
            (final(self)@, previous) == spec_install(old(self)@, handle),
            final(self)@ == Some(handle),
            previous == old(self)@,
    {
        let previous = self.current.take();
        self.current = Some(handle);
        previous
    }

    /// Empties the slot, handing back the running watcher for the caller to stop.
    pub fn stop_current(&mut self) -> (previous: Option<T>)
        ensures
            (final(self)@, previous) == spec_stop(old(self)@),
            final(self)@ is None,
            previous == old(self)@,
    {
        self.current.take()
    }
}

/// Stopping the running watcher before installing a new one leaves only the new one, and
/// the install then has nothing left to stop.
pub proof fn law_stop_then_install<T>(slot: Option<T>, handle: T)
    ensures
        spec_stop(slot).1 == slot,
        spec_install(spec_stop(slot).0, handle) == (Some(handle), None::<T>),
{
}

/// At most one watcher runs: after two installs the slot holds only the second handle, and
/// the first was handed back to be stopped.
pub proof fn law_install_replaces_previous<T>(slot: Option<T>, first: T, second: T)
    ensures
        spec_install(spec_install(slot, first).0, second) == (Some(second), Some(first)),
{
}

/// One spawn of a watcher: the running one is stopped (handed back), then the new one is
/// installed in the emptied slot.
pub open spec fn spec_spawn<T>(slot: Option<T>, handle: T) -> (Option<T>, Option<T>) {
    (spec_install(spec_stop(slot).0, handle).0, spec_stop(slot).1)
}

/// What the slot holds after spawning `handles`, in order, starting from `slot`.
pub open spec fn slot_after_spawns<T>(slot: Option<T>, handles: Seq<T>) -> Option<T>
    decreases handles.len(),
{
    if handles.len() == 0 {
        slot
    } else {
        spec_spawn(slot_after_spawns(slot, handles.drop_last()), handles.last()).0
    }
}

/// The handles handed back to be stopped while spawning `handles`, in order, starting from `slot`.
pub open spec fn stopped_by_spawns<T>(slot: Option<T>, handles: Seq<T>) -> Seq<T>
    decreases handles.len(),
{
    if handles.len() == 0 {
        Seq::empty()
    } else {
        let before = stopped_by_spawns(slot, handles.drop_last());
        match spec_spawn(slot_after_spawns(slot, handles.drop_last()), handles.last()).1 {
            Some(h) => before.push(h),
            None => before,
        }
    }
}

/// The handles a slot starts with: the running watcher, if any.
pub open spec fn initial_handles<T>(slot: Option<T>) -> Seq<T> {
    match slot {
        Some(h) => seq![h],
        None => Seq::empty(),
    }
}

/// At most one watcher runs, however many are spawned: after spawning `handles` in order, the
/// slot holds only the last one, and every watcher that ran before it (the one the slot started
/// with, then each spawned one but the last) was handed back to be stopped, in that order.
pub proof fn law_spawns_leave_only_the_last<T>(slot: Option<T>, handles: Seq<T>)
    requires
        handles.len() >= 1,
    ensures
        slot_after_spawns(slot, handles) == Some(handles.last()),
        stopped_by_spawns(slot, handles) == initial_handles(slot) + handles.drop_last(),
    decreases handles.len(),
{
    let prefix = handles.drop_last();
    if handles.len() == 1 {
        assert(prefix =~= Seq::<T>::empty());
        assert(slot_after_spawns(slot, prefix) == slot);
        assert(stopped_by_spawns(slot, prefix) == Seq::<T>::empty());
        assert(initial_handles(slot) + prefix =~= initial_handles(slot));
        match slot {
            Some(h) => {
                assert(stopped_by_spawns(slot, handles) == Seq::<T>::empty().push(h));
                assert(Seq::<T>::empty().push(h) =~= seq![h]);
            },
            None => {},
        }
    } else {
        law_spawns_leave_only_the_last(slot, prefix);
        assert(slot_after_spawns(slot, prefix) == Some(prefix.last()));
        assert(stopped_by_spawns(slot, handles) == stopped_by_spawns(slot, prefix).push(
            prefix.last(),
        ));
        assert(prefix.drop_last().push(prefix.last()) =~= prefix);
        assert((initial_handles(slot) + prefix.drop_last()).push(prefix.last()) =~= initial_handles(
            slot,
        ) + prefix);
    }
}

/// Only a plain creation starts an upload: every other kind of event (an access such as a save
/// being closed, a modification, a removal, a creation of a known kind, or an unknown event) is
/// ignored.
pub proof fn law_only_plain_creation_starts_upload(kind: FsEventKind)
    ensures
        is_sync_trigger(kind) <==> kind == FsEventKind::Create(FsCreateKind::Any),
        kind == FsEventKind::Access ==> !is_sync_trigger(kind),
        kind == FsEventKind::Modify ==> !is_sync_trigger(kind),
        kind == FsEventKind::Remove ==> !is_sync_trigger(kind),
        kind == FsEventKind::Any ==> !is_sync_trigger(kind),
        kind == FsEventKind::Other ==> !is_sync_trigger(kind),
        kind == FsEventKind::Create(FsCreateKind::File) ==> !is_sync_trigger(kind),
        kind == FsEventKind::Create(FsCreateKind::Folder) ==> !is_sync_trigger(kind),
        kind == FsEventKind::Create(FsCreateKind::Other) ==> !is_sync_trigger(kind),
{
}

/// A spawn hands back the watcher that ran and leaves only the new one.
pub proof fn law_spawn_replaces_running<T>(slot: Option<T>, handle: T)
    ensures
        spec_spawn(slot, handle) == (Some(handle), slot),
{
}

/// The selection keeps the order of the event and looks at each entry on its own: selecting from
/// two runs of entries one after the other gives the two selections one after the other, a
/// single file entry gives its path, and a single entry that is not a file gives nothing.
pub proof fn law_selection_keeps_order(first: Seq<PathEntry>, second: Seq<PathEntry>)
    ensures
        file_paths(first + second) == file_paths(first) + file_paths(second),
        second.len() == 1 && second[0].is_file ==> file_paths(second) == seq![second[0].path@],
        second.len() == 1 && !second[0].is_file ==> file_paths(second) == Seq::<Seq<char>>::empty(),
    decreases second.len(),
{
    if second.len() == 0 {
        assert(first + second =~= first);
        assert(file_paths(first) + Seq::<Seq<char>>::empty() =~= file_paths(first));
    } else {
        law_selection_keeps_order(first, second.drop_last());
        assert((first + second).drop_last() =~= first + second.drop_last());
        assert((first + second).last() == second.last());
        if second.last().is_file {
            assert((file_paths(first) + file_paths(second.drop_last())).push(second.last().path@)
                =~= file_paths(first) + file_paths(second.drop_last()).push(second.last().path@));
        }
        if second.len() == 1 {
            assert(second.drop_last() =~= Seq::<PathEntry>::empty());
            assert(Seq::<Seq<char>>::empty().push(second[0].path@) =~= seq![second[0].path@]);
        }
    }
}

} // verus!
