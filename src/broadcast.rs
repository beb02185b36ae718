//! The tap-event broadcaster: one slot holding the latest event and a version
//! number that every publication advances. A subscriber keeps the version it
//! saw last and, when it looks again, gets the latest event if the version
//! moved, never a backlog.
use vstd::prelude::*;
use crate::request::TapKind;

verus! {

/// The largest version number; the next one after it is zero.
pub const LAST_VERSION: u64 = 0xffff_ffff_ffff_ffff;

/// The version that follows `v`.
pub open spec fn next_version(v: u64) -> u64 {
    if v == LAST_VERSION {
        0
    } else {
        (v + 1) as u64
    }
}

/// The single-slot mailbox of tap events.
#[derive(Clone, Copy, Debug)]
pub struct EventSlot {
    pub latest: Option<TapKind>,
    pub version: u64,
}

/// What one subscriber has seen of a slot: the version it saw last.
#[derive(Clone, Copy, Debug)]
pub struct Cursor {
    pub seen: u64,
}

/// The slot after `e` was published.
pub open spec fn published(s: EventSlot, e: TapKind) -> EventSlot {
    EventSlot { latest: Some(e), version: next_version(s.version) }
}

/// The slot after each of `es` was published, in order.
pub open spec fn published_all(s: EventSlot, es: Seq<TapKind>) -> EventSlot
    decreases es.len(),
{
    if es.len() == 0 {
        s
    } else {
        published(published_all(s, es.drop_last()), es.last())
    }
}

/// What a subscriber at `c` gets from slot `s`: the latest event if the slot
/// changed since it looked, else nothing.
pub open spec fn observed(s: EventSlot, c: Cursor) -> Option<TapKind> {
    if c.seen != s.version {
        s.latest
    } else {
        None
    }
}

impl EventSlot {
    /// An empty slot at version zero.
    pub fn new() -> (r: EventSlot)
        ensures
            r.latest is None,
            r.version == 0,
    {
        EventSlot { latest: None, version: 0 }
    }

    /// Publishes `e`: it replaces whatever the slot held and the version moves
    /// on. This never waits on subscribers.
    pub fn publish(&mut self, e: TapKind)
        ensures
            *final(self) == published(*old(self), e),
    {
        self.latest = Some(e);
        self.version = if self.version == LAST_VERSION {
            0
        } else {
            self.version + 1
        };
    }

    /// Records one poll tick: the event that the device detected, if any, is
    /// published; a tick that detected nothing, or whose detection failed,
    /// leaves the slot as it was. Returns whether an event was published.
    pub fn record_tick(&mut self, detected: Option<TapKind>) -> (r: bool)
        ensures
            r == detected is Some,
            *final(self) == match detected {
                Some(e) => published(*old(self), e),
                None => *old(self),
            },
    {
        match detected {
            Some(e) => {
                self.publish(e);
                true
            },
            None => false,
        }
    }

    /// A cursor that has seen everything published so far.
    pub fn subscribe(&self) -> (r: Cursor)
        ensures
            r.seen == self.version,
    {
        Cursor { seen: self.version }
    }

    /// What the subscriber at `c` gets now; the cursor then stands at the
    /// current version.
    pub fn take(&self, c: &mut Cursor) -> (r: Option<TapKind>)
        ensures
            r == observed(*self, *old(c)),
            final(c).seen == self.version,
    {
        let changed = c.seen != self.version;
        c.seen = self.version;
        if changed {
            self.latest
        } else {
            None
        }
    }
}

/// After `n` publications the version has moved on by `n`, modulo 2^64.
pub proof fn lemma_published_version(s: EventSlot, es: Seq<TapKind>)
    ensures
        published_all(s, es).version as int == (s.version as int + es.len()) % 0x1_0000_0000_0000_0000,
    decreases es.len(),
{
    if es.len() > 0 {
        lemma_published_version(s, es.drop_last());
    }
}

/// Latest event wins: when one or more events (fewer than 2^64) are published
/// between two looks of a subscriber, it gets exactly the last of them, and
/// none of those before.
pub proof fn latest_event_wins(s: EventSlot, c: Cursor, es: Seq<TapKind>)
    requires
        c.seen == s.version,
        0 < es.len() < 0x1_0000_0000_0000_0000,
    ensures
        observed(published_all(s, es), c) == Some(es.last()),
{
    lemma_published_version(s, es);
    assert(published_all(s, es).latest == Some(es.last()));
}

} // verus!
