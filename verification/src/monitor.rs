//! The file monitor: change events in one uniform shape, and the bounded
//! queue between the source of the events and their reader.

use crate::file::local::LocalFile;
use vstd::prelude::*;

verus! {

/// A change to a watched file or directory.
#[derive(Debug)]
pub enum FileMonitorEvent<F> {
    /// The file changed; the second handle is the other file of a rename.
    Changed(F, Option<F>),
    /// A run of changes is over.
    ChangesDoneHint(F),
    /// The file was deleted.
    Deleted(F),
    /// The file was created.
    Created(F),
    /// An attribute of the file changed.
    AttributeChanged(F),
    /// The filesystem of the file is about to be unmounted.
    PreUnmount(F),
    /// The filesystem of the file was unmounted.
    Unmounted(F),
    /// The file moved from the first place to the second.
    Moved(F, F),
}

/// What the watcher of the operating system reports.
#[derive(Debug, Clone, Copy, PartialEq, Eq, Structural)]
pub enum WatchKind {
    /// Something was created.
    Create,
    /// Something was modified.
    Modify,
    /// Something was removed.
    Remove,
    /// Anything else.
    Other,
}

/// What a report of the watcher is taken for: a creation, a change or a
/// removal of its first path, whose handle keeps the bytes of the path as
/// they came. A report without a path, or of another kind, is taken for
/// nothing.
pub open spec fn is_watch_event(
    kind: WatchKind,
    first_path: Option<Seq<u8>>,
    r: Option<FileMonitorEvent<LocalFile>>,
) -> bool {
    match first_path {
        Some(p) => match kind {
            WatchKind::Create => r matches Some(FileMonitorEvent::Created(f)) && f.is_of_bytes(p),
            WatchKind::Modify => r matches Some(FileMonitorEvent::Changed(f, None))
                && f.is_of_bytes(p),
            WatchKind::Remove => r matches Some(FileMonitorEvent::Deleted(f)) && f.is_of_bytes(p),
            WatchKind::Other => r is None,
        },
        None => r is None,
    }
}

/// The event that a report of the watcher is taken for.
pub fn watch_event(kind: WatchKind, first_path: Option<&Vec<u8>>) -> (r: Option<
    FileMonitorEvent<LocalFile>,
>)
    ensures
        is_watch_event(
            kind,
            match first_path {
                Some(p) => Some(p@),
                None => None,
            },
            r,
        ),
{
    match first_path {
        Some(p) => match kind {
            WatchKind::Create => Some(FileMonitorEvent::Created(LocalFile::from_bytes(p))),
            WatchKind::Modify => Some(FileMonitorEvent::Changed(LocalFile::from_bytes(p), None)),
            WatchKind::Remove => Some(FileMonitorEvent::Deleted(LocalFile::from_bytes(p))),
            WatchKind::Other => None,
        },
        None => None,
    }
}

/// How many events the queue of a monitor holds at most.
pub const MONITOR_CAPACITY: usize = 100;

/// The queue of a monitor. It holds the events that were reported and not
/// read yet, oldest first, and never more than its capacity: a report to a
/// full queue drops the oldest event.
pub struct FileMonitor<F> {
    queue: Vec<FileMonitorEvent<F>>,
}

impl<F> View for FileMonitor<F> {
    type V = Seq<FileMonitorEvent<F>>;

    /// The events that wait to be read, oldest first.
    closed spec fn view(&self) -> Seq<FileMonitorEvent<F>> {
        self.queue@
    }
}

impl<F> FileMonitor<F> {
    #[verifier::type_invariant]
    spec fn within_capacity(&self) -> bool {
        self.queue@.len() <= MONITOR_CAPACITY
    }

    /// A monitor on which nothing was reported yet.
    pub fn new() -> (r: Self)
        ensures
            r@ == Seq::<FileMonitorEvent<F>>::empty(),
    {
        FileMonitor { queue: Vec::new() }
    }

    /// How many events wait to be read.
    pub fn pending(&self) -> (r: usize)
        ensures
            r == self@.len(),
            r <= MONITOR_CAPACITY,
    {
        proof {
            use_type_invariant(self);
        }
        self.queue.len()
    }

    /// Reports an event. Where the queue is full, the oldest event gives
    /// way, and the result says so.
    pub fn report(&mut self, event: FileMonitorEvent<F>) -> (dropped: bool)
        ensures
            dropped == (old(self)@.len() >= MONITOR_CAPACITY),
            final(self)@ == if dropped {
                old(self)@.skip(1).push(event)
            } else {
                old(self)@.push(event)
            },
            final(self)@.len() <= MONITOR_CAPACITY,
    {
        proof {
            use_type_invariant(&*self);
        }
        let mut queue: Vec<FileMonitorEvent<F>> = Vec::new();
        std::mem::swap(&mut self.queue, &mut queue);
        let dropped = queue.len() >= MONITOR_CAPACITY;
        if dropped {
            let _oldest = queue.remove(0);
            assert(queue@ == old(self)@.skip(1));
        }
        queue.push(event);
        self.queue = queue;
        dropped
    }

    /// Takes the oldest event that waits to be read.
    pub fn next_event(&mut self) -> (r: Option<FileMonitorEvent<F>>)
        ensures
            old(self)@.len() == 0 ==> r is None && final(self)@ == old(self)@,
            old(self)@.len() > 0 ==> r == Some(old(self)@[0]) && final(self)@ == old(self)@.skip(1),
    {
        proof {
            use_type_invariant(&*self);
        }
        let mut queue: Vec<FileMonitorEvent<F>> = Vec::new();
        std::mem::swap(&mut self.queue, &mut queue);
        let r = if queue.len() == 0 {
            None
        } else {
            let first = queue.remove(0);
            assert(queue@ == old(self)@.skip(1));
            Some(first)
        };
        self.queue = queue;
        r
    }
}

} // verus!
