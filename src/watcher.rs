//! Change detection for the configuration file.

use vstd::prelude::*;
use std::path::PathBuf;

verus! {

#[verifier::external_type_specification]
#[verifier::external_body]
pub struct ExPathBuf(PathBuf);

/// A modification time: whole seconds and nanoseconds relative to the Unix epoch.
#[derive(Clone, Copy, Debug, PartialEq, Eq, Structural)]
pub struct FileStamp {
    pub secs: i64,
    pub nanos: u32,
}

/// Remembers the last modification time seen for one file; `None` stands for
/// a file that did not exist.
pub struct ConfigWatcher {
    path: PathBuf,
    last_modified: Option<FileStamp>,
}

impl ConfigWatcher {
    /// The modification time seen at the last observation.
    pub closed spec fn last_seen(&self) -> Option<FileStamp> {
        self.last_modified
    }

    /// The watched file.
    pub closed spec fn watched(&self) -> PathBuf {
        self.path
    }

    /// Starts watching a file whose current modification time is `modified`.
    pub fn new(path: PathBuf, modified: Option<FileStamp>) -> (r: ConfigWatcher)
        ensures
            r.watched() == path,
            r.last_seen() == modified,
    {
        ConfigWatcher { path, last_modified: modified }
    }

    /// The watched file.
    pub fn path(&self) -> (r: &PathBuf)
        ensures
            *r == self.watched(),
    {
        &self.path
    }

    /// The modification time seen at the last observation.
    pub fn last_modified(&self) -> (r: Option<FileStamp>)
        ensures
            r == self.last_seen(),
    {
        self.last_modified
    }

    /// Records a new observation and tells whether it differs from the last one;
    /// a file that appears or disappears counts as a change.
    pub fn has_changed(&mut self, current: Option<FileStamp>) -> (r: bool)
        ensures
            r == (current != old(self).last_seen()),
            final(self).last_seen() == current,
            final(self).watched() == old(self).watched(),
            current == old(self).last_seen() ==> *final(self) == *old(self),
    {
        let changed = match (current, self.last_modified) {
            (Some(a), Some(b)) => a != b,
            (None, None) => false,
            _ => true,
        };
        self.last_modified = current;
        changed
    }
}

} // verus!
