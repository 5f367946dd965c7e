//! The schema synchronizer's state: the authoritative catalog snapshot, the
//! decision taken on each change-watcher poll, and the atomic whole-value
//! publication of a freshly synchronized catalog.
//!
//! The caller owns the I/O around this state: it registers the watcher before
//! the first load, reads the description, executes the derived plan, and only
//! then commits the new catalog here. Readers of the snapshot see the last
//! committed catalog in full or the previous one — never a half-applied one,
//! because the snapshot is replaced as a whole value.

use vstd::prelude::*;

use crate::catalog::TypeCatalog;

verus! {

/// A change the watcher observed on the description's backing store.
#[derive(Clone, Copy, PartialEq, Eq, Structural, Debug)]
pub enum ChangeEvent {
    /// A write to the description completed.
    Write,
    /// Anything else the watcher reports (renames, attribute changes, ...).
    Other,
}

/// What one non-blocking poll of the change watcher yielded.
#[derive(Clone, Copy, PartialEq, Eq, Structural, Debug)]
pub enum PollOutcome {
    /// A debounced event was pending.
    Event(ChangeEvent),
    /// No event was pending.
    Empty,
    /// The notification channel closed unexpectedly.
    Disconnected,
}

/// What the synchronizer does in response to a poll.
#[derive(Clone, Copy, PartialEq, Eq, Structural, Debug)]
pub enum SyncDecision {
    /// Reload the description and run a full synchronization pass.
    Resynchronize,
    /// Nothing is pending; carry on.
    NoAction,
    /// The watcher is broken: schema changes would silently stop being
    /// observed, so the owning loop must fail hard.
    Fatal,
}

/// A freshly synchronized catalog failed validation: it holds no event type
/// at all. The caller must treat this as fatal, since the database may now be
/// ahead of a catalog the process considers invalid.
#[derive(Clone, Copy, PartialEq, Eq, Structural, Debug)]
pub enum SyncError {
    EmptyCatalog,
}

/// Holds the authoritative in-memory catalog snapshot and decides when to
/// re-synchronize.
pub struct SchemaManager {
    catalog: TypeCatalog,
}

impl SchemaManager {
    /// The published snapshot's value.
    pub closed spec fn view(&self) -> Seq<crate::catalog::BindingModel> {
        self.catalog@
    }

    /// The snapshot is always a well-formed catalog.
    pub closed spec fn wf(&self) -> bool {
        self.catalog.wf()
    }

    /// A manager that has not synchronized yet: its snapshot is empty.
    pub fn new() -> (m: Self)
        ensures
            m@.len() == 0,
            m.wf(),
    {
        SchemaManager { catalog: TypeCatalog { entries: Vec::new() } }
    }

    /// The decision for one poll of the change watcher: a completed write
    /// triggers re-synchronization, any other event and an empty poll do
    /// nothing, and a closed channel is fatal.
    pub fn check_update_schema(poll: PollOutcome) -> (d: SyncDecision)
        ensures
            d == SyncDecision::Resynchronize <==> poll == PollOutcome::Event(ChangeEvent::Write),
            d == SyncDecision::Fatal <==> poll == PollOutcome::Disconnected,
            d == SyncDecision::NoAction <==> (poll == PollOutcome::Event(ChangeEvent::Other)
                || poll == PollOutcome::Empty),
    {
        match poll {
            PollOutcome::Event(ChangeEvent::Write) => SyncDecision::Resynchronize,
            PollOutcome::Event(ChangeEvent::Other) => SyncDecision::NoAction,
            PollOutcome::Empty => SyncDecision::NoAction,
            PollOutcome::Disconnected => SyncDecision::Fatal,
        }
    }

    /// Whether the snapshot holds at least one event type.
    pub fn is_event_types_valid(&self) -> (b: bool)
        ensures
            b == (self@.len() > 0),
    {
        !self.catalog.is_empty()
    }

    /// Publishes a fully synchronized catalog as the new snapshot, replacing
    /// the previous one as a whole value: afterwards the snapshot is exactly
    /// the new catalog, never a mixture of old and new entries. An empty
    /// catalog fails validation; the previous snapshot is then discarded and
    /// the error is the caller's to treat as fatal.
    pub fn commit_sync(&mut self, catalog: TypeCatalog) -> (r: Result<(), SyncError>)
        requires
            catalog.wf(),
        ensures
            final(self).wf(),
            catalog@.len() > 0 ==> r == Ok::<(), SyncError>(()) && final(self)@ == catalog@,
            catalog@.len() == 0 ==> r == Err::<(), SyncError>(SyncError::EmptyCatalog)
                && final(self)@.len() == 0,
    {
        if catalog.is_empty() {
            self.catalog = TypeCatalog { entries: Vec::new() };
            Err(SyncError::EmptyCatalog)
        } else {
            self.catalog = catalog;
            Ok(())
        }
    }

    /// The current authoritative catalog, for consumers.
    pub fn get_event_types(&self) -> (c: &TypeCatalog)
        ensures
            c@ == self@,
            self.wf() ==> c.wf(),
    {
        &self.catalog
    }
}

} // verus!
