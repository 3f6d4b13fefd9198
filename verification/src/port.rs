use vstd::prelude::*;

use crate::protocol::Event;
use crate::protocol::frame_event;

verus! {

/// The capability set the driver consumes: four discrete output pins
/// (chip-select and three address-select lines) and a serial bus that writes
/// fixed 4-byte frames, in a variant that may suspend the caller and a
/// non-suspending variant.
///
/// `log()` is the abstract trace of every command given to the hardware.
/// Every method appends exactly the event it was asked to perform — a refused
/// command is still part of the trace — and its return value reports whether
/// the collaborator carried the command out. A `false` return is a pin-drive
/// or bus-transfer failure, which the driver treats as fatal for the call in
/// progress.
pub trait Port: Sized {
    /// Abstract trace of all commanded pin and bus activity so far. The
    /// default is the empty trace, for ports that live outside the verifier's
    /// view; a port verified against the method contracts below gives its own
    /// definition.
    open spec fn log(&self) -> Seq<Event> {
        Seq::empty()
    }

    /// Drive the chip-select pin: `true` is the inactive (idle) level, `false`
    /// the active level.
    fn set_cs(&mut self, high: bool) -> (r: bool)
        ensures
            final(self).log() == old(self).log().push(Event::Cs(high)),
    ;

    /// Drive address-select line 0.
    fn set_addr0(&mut self, high: bool) -> (r: bool)
        ensures
            final(self).log() == old(self).log().push(Event::Addr0(high)),
    ;

    /// Drive address-select line 1.
    fn set_addr1(&mut self, high: bool) -> (r: bool)
        ensures
            final(self).log() == old(self).log().push(Event::Addr1(high)),
    ;

    /// Drive address-select line 2.
    fn set_addr2(&mut self, high: bool) -> (r: bool)
        ensures
            final(self).log() == old(self).log().push(Event::Addr2(high)),
    ;

    /// Write one 4-byte frame over the bus; this variant may suspend the
    /// calling task until the transfer completes.
    fn write(&mut self, b0: u8, b1: u8, b2: u8, b3: u8) -> (r: bool)
        ensures
            final(self).log() == old(self).log().push(frame_event(b0, b1, b2, b3, true)),
    ;

    /// Write one 4-byte frame over the bus without suspending; used where
    /// suspension facilities are not available, such as during construction.
    fn write_blocking(&mut self, b0: u8, b1: u8, b2: u8, b3: u8) -> (r: bool)
        ensures
            final(self).log() == old(self).log().push(frame_event(b0, b1, b2, b3, false)),
    ;
}

/// An in-memory port that records every pin and bus action instead of driving
/// hardware, and never fails: the reference implementation of [`Port`], used
/// by the test suite to observe the exact wire traffic an operation produces.
pub struct RecordPort {
    events: Vec<Event>,
}

impl RecordPort {
    /// A port with an empty trace.
    pub fn new() -> (r: RecordPort)
        ensures
            r.log() == Seq::<Event>::empty(),
    {
        RecordPort { events: Vec::new() }
    }

    /// The recorded trace, oldest action first.
    pub fn events(&self) -> (r: &Vec<Event>)
        ensures
            r@ == self.log(),
    {
        &self.events
    }
}

impl Port for RecordPort {
    closed spec fn log(&self) -> Seq<Event> {
        self.events@
    }

    fn set_cs(&mut self, high: bool) -> (r: bool)
        ensures
            r,
    {
        self.events.push(Event::Cs(high));
        true
    }

    fn set_addr0(&mut self, high: bool) -> (r: bool)
        ensures
            r,
    {
        self.events.push(Event::Addr0(high));
        true
    }

    fn set_addr1(&mut self, high: bool) -> (r: bool)
        ensures
            r,
    {
        self.events.push(Event::Addr1(high));
        true
    }

    fn set_addr2(&mut self, high: bool) -> (r: bool)
        ensures
            r,
    {
        self.events.push(Event::Addr2(high));
        true
    }

    fn write(&mut self, b0: u8, b1: u8, b2: u8, b3: u8) -> (r: bool)
        ensures
            r,
    {
        self.events.push(Event::Frame { b0, b1, b2, b3, suspending: true });
        true
    }

    fn write_blocking(&mut self, b0: u8, b1: u8, b2: u8, b3: u8) -> (r: bool)
        ensures
            r,
    {
        self.events.push(Event::Frame { b0, b1, b2, b3, suspending: false });
        true
    }
}

/// A recording port that refuses exactly one action: the command whose
/// zero-based position in the trace equals the chosen fault index is still
/// recorded, but reported as failed. The test suite uses it to observe what
/// the driver does at the instant a pin-drive or bus-transfer failure is
/// detected.
pub struct FaultPort {
    events: Vec<Event>,
    fail_at: usize,
}

impl FaultPort {
    /// The trace position of the one command this port refuses.
    pub closed spec fn fault_index(&self) -> int {
        self.fail_at as int
    }

    /// A port with an empty trace that will refuse the command at trace
    /// position `fail_at`.
    pub fn new(fail_at: usize) -> (r: FaultPort)
        ensures
            r.log() == Seq::<Event>::empty(),
            r.fault_index() == fail_at as int,
    {
        FaultPort { events: Vec::new(), fail_at }
    }

    /// The recorded trace, oldest command first, refused ones included.
    pub fn events(&self) -> (r: &Vec<Event>)
        ensures
            r@ == self.log(),
    {
        &self.events
    }
}

impl Port for FaultPort {
    closed spec fn log(&self) -> Seq<Event> {
        self.events@
    }

    fn set_cs(&mut self, high: bool) -> (r: bool)
        ensures
            final(self).fault_index() == old(self).fault_index(),
            r == (old(self).log().len() != old(self).fault_index()),
    {
        let ok = self.events.len() != self.fail_at;
        self.events.push(Event::Cs(high));
        ok
    }

    fn set_addr0(&mut self, high: bool) -> (r: bool)
        ensures
            final(self).fault_index() == old(self).fault_index(),
            r == (old(self).log().len() != old(self).fault_index()),
    {
        let ok = self.events.len() != self.fail_at;
        self.events.push(Event::Addr0(high));
        ok
    }

    fn set_addr1(&mut self, high: bool) -> (r: bool)
        ensures
            final(self).fault_index() == old(self).fault_index(),
            r == (old(self).log().len() != old(self).fault_index()),
    {
        let ok = self.events.len() != self.fail_at;
        self.events.push(Event::Addr1(high));
        ok
    }

    fn set_addr2(&mut self, high: bool) -> (r: bool)
        ensures
            final(self).fault_index() == old(self).fault_index(),
            r == (old(self).log().len() != old(self).fault_index()),
    {
        let ok = self.events.len() != self.fail_at;
        self.events.push(Event::Addr2(high));
        ok
    }

    fn write(&mut self, b0: u8, b1: u8, b2: u8, b3: u8) -> (r: bool)
        ensures
            final(self).fault_index() == old(self).fault_index(),
            r == (old(self).log().len() != old(self).fault_index()),
    {
        let ok = self.events.len() != self.fail_at;
        self.events.push(Event::Frame { b0, b1, b2, b3, suspending: true });
        ok
    }

    fn write_blocking(&mut self, b0: u8, b1: u8, b2: u8, b3: u8) -> (r: bool)
        ensures
            final(self).fault_index() == old(self).fault_index(),
            r == (old(self).log().len() != old(self).fault_index()),
    {
        let ok = self.events.len() != self.fail_at;
        self.events.push(Event::Frame { b0, b1, b2, b3, suspending: false });
        ok
    }
}

} // verus!
