//! The directories that a file-system watcher is to observe.

use vstd::prelude::*;

verus! {

/// The set-up of a file-system watcher. Watching itself is the work of a
/// collaborator, which feeds what it sees to the activity monitor.
pub struct FileSystemWatcher {
    watch_dirs: Vec<String>,
}

impl View for FileSystemWatcher {
    type V = Seq<Seq<char>>;

    closed spec fn view(&self) -> Seq<Seq<char>> {
        self.watch_dirs@.map_values(|dir: String| dir@)
    }
}

impl FileSystemWatcher {
    /// A watcher for `dirs`, in the order given.
    pub fn new(dirs: Vec<String>) -> (watcher: FileSystemWatcher)
        ensures
            watcher@ == dirs@.map_values(|dir: String| dir@),
    {
        FileSystemWatcher { watch_dirs: dirs }
    }

    /// The directories to watch.
    pub fn watch_dirs(&self) -> (dirs: &Vec<String>)
        ensures
            dirs@.map_values(|dir: String| dir@) == self@,
    {
        &self.watch_dirs
    }

    /// Marks the start of monitoring. The watcher keeps no state of its own,
    /// so nothing changes.
    pub fn start_monitoring(&self) {
    }
}

} // verus!
