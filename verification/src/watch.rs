//! Masks of file events, as the kernel's file-watch interface counts them.

use vstd::prelude::*;

verus! {

/// The bit of `IN_ONLYDIR`.
///
/// Reads the constant `IN_ONLYDIR` of the inotify-sys crate; the contract
/// claims its value.
#[verifier::external_body]
pub(crate) fn in_onlydir() -> (r: u32)
    ensures
        r == 0x0100_0000u32,
{
    inotify_sys::IN_ONLYDIR
}

/// The bit of `IN_DONT_FOLLOW`.
///
/// Reads the constant `IN_DONT_FOLLOW` of the inotify-sys crate; the
/// contract claims its value.
#[verifier::external_body]
pub(crate) fn in_dont_follow() -> (r: u32)
    ensures
        r == 0x0200_0000u32,
{
    inotify_sys::IN_DONT_FOLLOW
}

/// The bit of `IN_EXCL_UNLINK`.
///
/// Reads the constant `IN_EXCL_UNLINK` of the inotify-sys crate; the
/// contract claims its value.
#[verifier::external_body]
pub(crate) fn in_excl_unlink() -> (r: u32)
    ensures
        r == 0x0400_0000u32,
{
    inotify_sys::IN_EXCL_UNLINK
}

/// The bits of the two move events.
///
/// Reads the constant `IN_MOVE` of the inotify-sys crate; the contract
/// claims its value.
#[verifier::external_body]
pub(crate) fn in_move() -> (r: u32)
    ensures
        r == 0xc0u32,
{
    inotify_sys::IN_MOVE
}

/// The bits of the two close events.
///
/// Reads the constant `IN_CLOSE` of the inotify-sys crate; the contract
/// claims its value.
#[verifier::external_body]
pub(crate) fn in_close() -> (r: u32)
    ensures
        r == 0x18u32,
{
    inotify_sys::IN_CLOSE
}

/// The bits of all events.
///
/// Reads the constant `IN_ALL_EVENTS` of the inotify-sys crate; the
/// contract claims its value.
#[verifier::external_body]
pub(crate) fn in_all_events() -> (r: u32)
    ensures
        r == 0xfffu32,
{
    inotify_sys::IN_ALL_EVENTS
}

/// A selection of [`InterestFlag`]s that change which events a watch
/// answers.
#[derive(Debug, PartialEq, Eq, Clone, Copy)]
pub struct Interests(pub u32);

/// One way to narrow a watch.
#[derive(Debug, PartialEq, Eq, Clone, Copy)]
pub enum InterestFlag {
    /// Watch the path only if it is a directory.
    DirOnly,
    /// Do not follow a symbolic link.
    NoFollow,
    /// No events for children after they were unlinked.
    NoUnlink,
}

impl InterestFlag {
    /// The bit that stands for the flag.
    pub open spec fn spec_bits(self) -> u32 {
        match self {
            InterestFlag::DirOnly => 0x0100_0000u32,
            InterestFlag::NoFollow => 0x0200_0000u32,
            InterestFlag::NoUnlink => 0x0400_0000u32,
        }
    }

    /// The bit that stands for the flag.
    pub fn bits(self) -> (r: u32)
        ensures
            r == self.spec_bits(),
    {
        match self {
            InterestFlag::DirOnly => in_onlydir(),
            InterestFlag::NoFollow => in_dont_follow(),
            InterestFlag::NoUnlink => in_excl_unlink(),
        }
    }
}

/// A full filter for a watch request: events and flags.
#[derive(Debug, PartialEq, Eq, Clone, Copy)]
pub struct EventFilter(pub u32);

impl From<EventMask> for EventFilter {
    /// The filter of the events of a mask, with no flag.
    fn from(mask: EventMask) -> (r: EventFilter) {
        EventFilter(mask.0)
    }
}

impl vstd::std_specs::convert::FromSpecImpl<EventMask> for EventFilter {
    open spec fn obeys_from_spec() -> bool {
        true
    }

    open spec fn from_spec(mask: EventMask) -> EventFilter {
        EventFilter(mask.0)
    }
}

impl EventFilter {
    /// The filter with one more flag.
    pub fn filter(self, filter: InterestFlag) -> (r: EventFilter)
        ensures
            r.0 == self.0 | filter.spec_bits(),
    {
        EventFilter(self.0 | filter.bits())
    }
}

/// A selection of events that a file watch can answer.
#[derive(Debug, PartialEq, Eq, Clone, Copy)]
pub struct EventMask(pub u32);

impl EventMask {
    /// A file was moved from or to the watched directory.
    pub fn moved() -> (r: EventMask)
        ensures
            r.0 == 0xc0u32,
    {
        EventMask(in_move())
    }

    /// A file was closed.
    pub fn closed() -> (r: EventMask)
        ensures
            r.0 == 0x18u32,
    {
        EventMask(in_close())
    }

    /// Every event.
    pub fn any() -> (r: EventMask)
        ensures
            r.0 == 0xfffu32,
    {
        EventMask(in_all_events())
    }

    /// The events among the bits of a raw event: what lies outside the bits
    /// of all events is dropped.
    pub fn of_raw(raw: u32) -> (r: EventMask)
        ensures
            r.0 == raw & 0xfffu32,
    {
        EventMask(raw & in_all_events())
    }

    /// The mask as a filter with one flag.
    pub fn filter(self, filter: InterestFlag) -> (r: EventFilter)
        ensures
            r.0 == self.0 | filter.spec_bits(),
    {
        EventFilter(self.0 | filter.bits())
    }

    /// The mask as a filter with the given selection of flags.
    pub fn with_interests(self, filter: Interests) -> (r: EventFilter)
        ensures
            r.0 == self.0 | filter.0,
    {
        EventFilter(self.0 | filter.0)
    }
}

} // verus!
