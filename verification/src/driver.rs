use vstd::prelude::*;

use crate::port::Port;
use crate::protocol::CvAddress;
use crate::protocol::CvChannel;
use crate::protocol::Event;
use crate::protocol::GtAddress;
use crate::protocol::GtChannel;
use crate::protocol::aborted_framed_trace;
use crate::protocol::aborted_transfer_trace;
use crate::protocol::address_events;
use crate::protocol::cv_lines;
use crate::protocol::cv_raw_frame;
use crate::protocol::frame_event;
use crate::protocol::framed_events;
use crate::protocol::gate_frame;
use crate::protocol::gate_high_model;
use crate::protocol::gate_low_model;
use crate::protocol::gt_index;
use crate::protocol::gt_lines;
use crate::protocol::init_events;
use crate::protocol::partial_address_trace;
use crate::protocol::polarity_frame;
use crate::protocol::set_gates_model;
use crate::protocol::transfer_events;

verus! {

/// The collaborator whose refusal aborted a driver call. Both failures are
/// fatal to the call in progress: the driver performs no retry, no backoff
/// and no recovery beyond releasing chip-select.
#[derive(Clone, Copy, Debug, PartialEq, Eq, Structural)]
pub enum FhxError {
    /// An output pin (chip-select or an address-select line) refused a drive.
    PinDrive,
    /// The bus refused a frame transfer.
    BusTransfer,
}

/// The driver. It owns its port for its whole lifetime, turns logical
/// addresses into states of the three address-select lines, encodes each
/// command as a fixed 4-byte frame, brackets every bus write with chip-select,
/// and remembers the byte last written to each gate sub-module so that one
/// channel can be raised or cleared without disturbing its siblings.
///
/// Every operation reports a pin-drive or bus-transfer refusal as an error
/// and aborts at once — but never with chip-select left asserted: the release
/// is commanded the instant a failure is detected, as each contract's
/// `aborted_transfer_trace` clause states. A gate operation updates the
/// cached byte before transmitting, so on failure the cache holds the value
/// the driver attempted to send, not a hardware-confirmed state.
pub struct Fhx<P> {
    port: P,
    gates_value: [u8; 4],
}

impl<P: Port> Fhx<P> {
    /// The cached gate bytes, one per gate sub-module, holding the last value
    /// this driver wrote (or attempted to write) to each.
    pub closed spec fn gates(self) -> Seq<u8> {
        self.gates_value@
    }

    /// The port's trace of commanded pin and bus activity.
    pub closed spec fn log(self) -> Seq<Event> {
        self.port.log()
    }

    /// Take ownership of a port and produce a ready driver: chip-select is
    /// driven to its idle level, and an all-zero gate frame is written to each
    /// gate sub-module in address order, so every output starts in a known,
    /// all-gates-low state. Any refusal during this sweep is fatal: the port
    /// is dropped and the error returned, with no partial-success mode.
    pub fn new(port: P) -> (r: Result<Fhx<P>, FhxError>)
        ensures
            r matches Ok(d) ==> {
                &&& d.gates() == seq![0u8, 0u8, 0u8, 0u8]
                &&& d.log() == port.log() + init_events()
            },
    {
        let ghost log0 = port.log();
        let mut port = port;
        if !port.set_cs(true) {
            return Err(FhxError::PinDrive);
        }

        let mut helper = Fhx { port, gates_value: [0u8, 0u8, 0u8, 0u8] };
        proof {
            assert(helper.gates() =~= seq![0u8, 0u8, 0u8, 0u8]);
            assert(helper.log() =~= log0.push(Event::Cs(true)));
        }

        match helper.update_gates_blocking(GtAddress::Gt0) {
            Ok(()) => (),
            Err(e) => {
                return Err(e);
            },
        }
        match helper.update_gates_blocking(GtAddress::Gt1) {
            Ok(()) => (),
            Err(e) => {
                return Err(e);
            },
        }
        match helper.update_gates_blocking(GtAddress::Gt2) {
            Ok(()) => (),
            Err(e) => {
                return Err(e);
            },
        }
        match helper.update_gates_blocking(GtAddress::Gt3) {
            Ok(()) => (),
            Err(e) => {
                return Err(e);
            },
        }

        proof {
            assert(helper.log() =~= log0 + init_events());
        }
        Ok(helper)
    }

    /// Replace the cached byte of gate sub-module `addr` with `values` — the
    /// cache is updated even if the transfer then fails — and write it to
    /// hardware as one transfer.
    pub fn set_gates(&mut self, addr: GtAddress, values: u8) -> (r: Result<(), FhxError>)
        ensures
            final(self).gates() == set_gates_model(old(self).gates(), addr, values),
            r matches Ok(()) ==> final(self).log() == old(self).log()
                + transfer_events(gt_lines(addr), gate_frame(values, true)),
            r is Err ==> aborted_transfer_trace(
                old(self).log(),
                final(self).log(),
                gt_lines(addr),
                gate_frame(values, true),
            ),
    {
        let idx: usize = addr.index();
        self.gates_value[idx] = values;
        self.update_gates(addr)
    }

    /// Set bit `channel` of the cached byte of `addr`, leaving the other bits
    /// unchanged — even if the transfer then fails — and write the updated
    /// byte as one transfer.
    pub fn gate_high(&mut self, addr: GtAddress, channel: GtChannel) -> (r: Result<(), FhxError>)
        ensures
            final(self).gates() == gate_high_model(old(self).gates(), addr, channel),
            r matches Ok(()) ==> final(self).log() == old(self).log() + transfer_events(
                gt_lines(addr),
                gate_frame(gate_high_model(old(self).gates(), addr, channel)[gt_index(addr)], true),
            ),
            r is Err ==> aborted_transfer_trace(
                old(self).log(),
                final(self).log(),
                gt_lines(addr),
                gate_frame(gate_high_model(old(self).gates(), addr, channel)[gt_index(addr)], true),
            ),
    {
        let idx: usize = addr.index();
        self.gates_value[idx] = self.gates_value[idx] | channel.mask();
        self.update_gates(addr)
    }

    /// Clear bit `channel` of the cached byte of `addr`, leaving the other
    /// bits unchanged — even if the transfer then fails — and write the
    /// updated byte as one transfer.
    pub fn gate_low(&mut self, addr: GtAddress, channel: GtChannel) -> (r: Result<(), FhxError>)
        ensures
            final(self).gates() == gate_low_model(old(self).gates(), addr, channel),
            r matches Ok(()) ==> final(self).log() == old(self).log() + transfer_events(
                gt_lines(addr),
                gate_frame(gate_low_model(old(self).gates(), addr, channel)[gt_index(addr)], true),
            ),
            r is Err ==> aborted_transfer_trace(
                old(self).log(),
                final(self).log(),
                gt_lines(addr),
                gate_frame(gate_low_model(old(self).gates(), addr, channel)[gt_index(addr)], true),
            ),
    {
        let idx: usize = addr.index();
        self.gates_value[idx] = self.gates_value[idx] & !channel.mask();
        self.update_gates(addr)
    }

    /// Select CV sub-module `addr` and transmit its polarity flags byte,
    /// passed through unmodified, over the non-suspending path.
    pub fn set_cv_polarity(&mut self, addr: CvAddress, polarity: u8) -> (r: Result<(), FhxError>)
        ensures
            final(self).gates() == old(self).gates(),
            r matches Ok(()) ==> final(self).log() == old(self).log()
                + transfer_events(cv_lines(addr), polarity_frame(polarity)),
            r is Err ==> aborted_transfer_trace(
                old(self).log(),
                final(self).log(),
                cv_lines(addr),
                polarity_frame(polarity),
            ),
    {
        match self.set_cv_address(addr) {
            Ok(()) => (),
            Err(e) => {
                return Err(e);
            },
        }
        let r = self.write_blocking(0x14, 0x00, polarity, 0x00);
        proof {
            if r is Ok {
                assert(self.log() =~= old(self).log()
                    + transfer_events(cv_lines(addr), polarity_frame(polarity)));
            }
        }
        r
    }

    /// Select CV sub-module `addr` and program DAC channel `channel` with the
    /// raw value `value`. The encoding spreads the value's four nibbles over
    /// the frame as [`cv_raw_frame`] states; bits of `value` above the low
    /// twelve end up OR-ed into the first byte's low nibble rather than being
    /// validated.
    pub fn set_cv_raw(&mut self, addr: CvAddress, channel: CvChannel, value: u16) -> (r: Result<
        (),
        FhxError,
    >)
        ensures
            final(self).gates() == old(self).gates(),
            r matches Ok(()) ==> final(self).log() == old(self).log()
                + transfer_events(cv_lines(addr), cv_raw_frame(channel, value)),
            r is Err ==> aborted_transfer_trace(
                old(self).log(),
                final(self).log(),
                cv_lines(addr),
                cv_raw_frame(channel, value),
            ),
    {
        let b0: u8 = channel.code() | ((value & 0xF000) >> 12) as u8;
        let b1: u8 = ((value & 0x0FF0) >> 4) as u8;
        let b2: u8 = ((value & 0x000F) << 4) as u8;

        match self.set_cv_address(addr) {
            Ok(()) => (),
            Err(e) => {
                return Err(e);
            },
        }
        let r = self.write(b0, b1, b2, 0x00);
        proof {
            if r is Ok {
                assert(self.log() =~= old(self).log()
                    + transfer_events(cv_lines(addr), cv_raw_frame(channel, value)));
            }
        }
        r
    }

    /// Re-assert the address lines for gate sub-module `addr` and write its
    /// cached byte as one transfer over the suspending path.
    fn update_gates(&mut self, addr: GtAddress) -> (r: Result<(), FhxError>)
        ensures
            final(self).gates() == old(self).gates(),
            r matches Ok(()) ==> final(self).log() == old(self).log() + transfer_events(
                gt_lines(addr),
                gate_frame(old(self).gates()[gt_index(addr)], true),
            ),
            r is Err ==> aborted_transfer_trace(
                old(self).log(),
                final(self).log(),
                gt_lines(addr),
                gate_frame(old(self).gates()[gt_index(addr)], true),
            ),
    {
        let lines_result = match addr {
            GtAddress::Gt0 => self.set_address(false, false, false),
            GtAddress::Gt1 => self.set_address(true, false, false),
            GtAddress::Gt2 => self.set_address(false, true, false),
            GtAddress::Gt3 => self.set_address(true, true, false),
        };
        match lines_result {
            Ok(()) => (),
            Err(e) => {
                return Err(e);
            },
        }

        let idx: usize = addr.index();
        let values: u8 = self.gates_value[idx];
        let r = self.write(0x04, 0x00, values, 0x00);
        proof {
            if r is Ok {
                assert(self.log() =~= old(self).log() + transfer_events(
                    gt_lines(addr),
                    gate_frame(old(self).gates()[gt_index(addr)], true),
                ));
            }
        }
        r
    }

    /// Like [`Self::update_gates`], but over the non-suspending path; used by
    /// the construction-time sweep, where suspension facilities may not be
    /// available.
    fn update_gates_blocking(&mut self, addr: GtAddress) -> (r: Result<(), FhxError>)
        ensures
            final(self).gates() == old(self).gates(),
            r matches Ok(()) ==> final(self).log() == old(self).log() + transfer_events(
                gt_lines(addr),
                gate_frame(old(self).gates()[gt_index(addr)], false),
            ),
            r is Err ==> aborted_transfer_trace(
                old(self).log(),
                final(self).log(),
                gt_lines(addr),
                gate_frame(old(self).gates()[gt_index(addr)], false),
            ),
    {
        let lines_result = match addr {
            GtAddress::Gt0 => self.set_address(false, false, false),
            GtAddress::Gt1 => self.set_address(true, false, false),
            GtAddress::Gt2 => self.set_address(false, true, false),
            GtAddress::Gt3 => self.set_address(true, true, false),
        };
        match lines_result {
            Ok(()) => (),
            Err(e) => {
                return Err(e);
            },
        }

        let idx: usize = addr.index();
        let values: u8 = self.gates_value[idx];
        let r = self.write_blocking(0x04, 0x00, values, 0x00);
        proof {
            if r is Ok {
                assert(self.log() =~= old(self).log() + transfer_events(
                    gt_lines(addr),
                    gate_frame(old(self).gates()[gt_index(addr)], false),
                ));
            }
        }
        r
    }

    /// Assert the address-line pattern of CV sub-module `addr`.
    fn set_cv_address(&mut self, addr: CvAddress) -> (r: Result<(), FhxError>)
        ensures
            final(self).gates() == old(self).gates(),
            r matches Ok(()) ==> final(self).log() == old(self).log()
                + address_events(cv_lines(addr)),
            r is Err ==> r == Err::<(), FhxError>(FhxError::PinDrive)
                && partial_address_trace(old(self).log(), final(self).log(), cv_lines(addr)),
    {
        match addr {
            CvAddress::Cv1 => self.set_address(true, false, false),
            CvAddress::Cv2 => self.set_address(false, true, false),
            CvAddress::Cv3 => self.set_address(true, true, false),
            CvAddress::Cv4 => self.set_address(false, false, true),
            CvAddress::Cv5 => self.set_address(true, false, true),
            CvAddress::Cv6 => self.set_address(false, true, true),
            CvAddress::Cv7 => self.set_address(true, true, true),
        }
    }

    /// Drive the three address-select lines to the given states, line 0
    /// first, stopping at the first line the pin collaborator refuses.
    fn set_address(&mut self, a0: bool, a1: bool, a2: bool) -> (r: Result<(), FhxError>)
        ensures
            final(self).gates() == old(self).gates(),
            r matches Ok(()) ==> final(self).log() == old(self).log()
                + address_events((a0, a1, a2)),
            r is Err ==> r == Err::<(), FhxError>(FhxError::PinDrive)
                && partial_address_trace(old(self).log(), final(self).log(), (a0, a1, a2)),
    {
        if !self.port.set_addr0(a0) {
            return Err(FhxError::PinDrive);
        }
        if !self.port.set_addr1(a1) {
            return Err(FhxError::PinDrive);
        }
        if !self.port.set_addr2(a2) {
            proof {
                assert(self.log() =~= old(self).log() + address_events((a0, a1, a2)));
            }
            return Err(FhxError::PinDrive);
        }
        proof {
            assert(self.log() =~= old(self).log() + address_events((a0, a1, a2)));
        }
        Ok(())
    }

    /// One framed transfer over the suspending path: chip-select active, the
    /// frame, chip-select inactive. If the chip-select assertion is refused,
    /// the release is commanded at once and nothing is transmitted; if the
    /// bus write or the release is refused, the release has still been
    /// commanded. The error names the collaborator that refused, the bus
    /// taking precedence when both the bus write and the release failed.
    fn write(&mut self, b0: u8, b1: u8, b2: u8, b3: u8) -> (r: Result<(), FhxError>)
        ensures
            final(self).gates() == old(self).gates(),
            r matches Ok(()) ==> final(self).log() == old(self).log()
                + framed_events(frame_event(b0, b1, b2, b3, true)),
            r is Err ==> aborted_framed_trace(
                old(self).log(),
                final(self).log(),
                frame_event(b0, b1, b2, b3, true),
            ),
    {
        if !self.port.set_cs(false) {
            self.port.set_cs(true);
            proof {
                assert(self.log() =~= old(self).log()
                    + seq![Event::Cs(false), Event::Cs(true)]);
            }
            return Err(FhxError::PinDrive);
        }
        let wrote = self.port.write(b0, b1, b2, b3);
        let released = self.port.set_cs(true);
        proof {
            assert(self.log() =~= old(self).log()
                + framed_events(frame_event(b0, b1, b2, b3, true)));
        }
        if !wrote {
            return Err(FhxError::BusTransfer);
        }
        if !released {
            return Err(FhxError::PinDrive);
        }
        Ok(())
    }

    /// One framed transfer over the non-suspending path, with the same
    /// failure behaviour as [`Self::write`].
    fn write_blocking(&mut self, b0: u8, b1: u8, b2: u8, b3: u8) -> (r: Result<(), FhxError>)
        ensures
            final(self).gates() == old(self).gates(),
            r matches Ok(()) ==> final(self).log() == old(self).log()
                + framed_events(frame_event(b0, b1, b2, b3, false)),
            r is Err ==> aborted_framed_trace(
                old(self).log(),
                final(self).log(),
                frame_event(b0, b1, b2, b3, false),
            ),
    {
        if !self.port.set_cs(false) {
            self.port.set_cs(true);
            proof {
                assert(self.log() =~= old(self).log()
                    + seq![Event::Cs(false), Event::Cs(true)]);
            }
            return Err(FhxError::PinDrive);
        }
        let wrote = self.port.write_blocking(b0, b1, b2, b3);
        let released = self.port.set_cs(true);
        proof {
            assert(self.log() =~= old(self).log()
                + framed_events(frame_event(b0, b1, b2, b3, false)));
        }
        if !wrote {
            return Err(FhxError::BusTransfer);
        }
        if !released {
            return Err(FhxError::PinDrive);
        }
        Ok(())
    }

    /// Release the port, ending the driver's ownership of the hardware
    /// handles; its trace is exactly the driver's.
    pub fn into_port(self) -> (r: P)
        ensures
            r.log() == self.log(),
    {
        let Fhx { port, gates_value: _ } = self;
        port
    }
}

} // verus!
