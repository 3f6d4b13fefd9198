use vstd::prelude::*;

verus! {

/// One of the eight gate bits inside a gate sub-module's byte.
#[derive(Clone, Copy, Debug, PartialEq, Eq, Structural)]
pub enum GtChannel {
    Channel1,
    Channel2,
    Channel3,
    Channel4,
    Channel5,
    Channel6,
    Channel7,
    Channel8,
}

/// One of the four gate sub-modules, selected via the address lines.
#[derive(Clone, Copy, Debug, PartialEq, Eq, Structural)]
pub enum GtAddress {
    Gt0,
    Gt1,
    Gt2,
    Gt3,
}

/// One of the eight DAC channels of a CV sub-module. Each channel maps to a
/// fixed 4-bit code placed in the top nibble of the frame's first byte; the
/// mapping is non-sequential and must be preserved exactly.
#[derive(Clone, Copy, Debug, PartialEq, Eq, Structural)]
pub enum CvChannel {
    Channel1,
    Channel2,
    Channel3,
    Channel4,
    Channel5,
    Channel6,
    Channel7,
    Channel8,
}

/// One of the seven CV sub-modules (the all-lines-low address is reserved and
/// never used for CV).
#[derive(Clone, Copy, Debug, PartialEq, Eq, Structural)]
pub enum CvAddress {
    Cv1,
    Cv2,
    Cv3,
    Cv4,
    Cv5,
    Cv6,
    Cv7,
}

/// One observable hardware action: driving an address-select line, driving the
/// chip-select pin, or writing one 4-byte frame over the bus. `suspending`
/// records which of the two bus-write paths carried the frame.
#[derive(Clone, Copy, Debug, PartialEq, Eq, Structural)]
pub enum Event {
    Addr0(bool),
    Addr1(bool),
    Addr2(bool),
    Cs(bool),
    Frame { b0: u8, b1: u8, b2: u8, b3: u8, suspending: bool },
}

/// Index of a gate address into the cached gate bytes.
pub open spec fn gt_index(addr: GtAddress) -> int {
    match addr {
        GtAddress::Gt0 => 0,
        GtAddress::Gt1 => 1,
        GtAddress::Gt2 => 2,
        GtAddress::Gt3 => 3,
    }
}

/// Bit position of a gate channel inside its sub-module's byte.
pub open spec fn gt_channel_ordinal(channel: GtChannel) -> u8 {
    match channel {
        GtChannel::Channel1 => 0,
        GtChannel::Channel2 => 1,
        GtChannel::Channel3 => 2,
        GtChannel::Channel4 => 3,
        GtChannel::Channel5 => 4,
        GtChannel::Channel6 => 5,
        GtChannel::Channel7 => 6,
        GtChannel::Channel8 => 7,
    }
}

/// Single-bit mask of a gate channel.
pub open spec fn gt_mask(channel: GtChannel) -> u8 {
    1u8 << gt_channel_ordinal(channel)
}

/// 4-bit nibble code of a CV channel, already shifted into the top nibble.
/// The order is non-monotonic; it reorders the logical channel index to the
/// physical nibble code.
pub open spec fn cv_code(channel: CvChannel) -> u8 {
    match channel {
        CvChannel::Channel1 => 0x00,
        CvChannel::Channel2 => 0x20,
        CvChannel::Channel3 => 0x40,
        CvChannel::Channel4 => 0x60,
        CvChannel::Channel5 => 0x70,
        CvChannel::Channel6 => 0x50,
        CvChannel::Channel7 => 0x30,
        CvChannel::Channel8 => 0x10,
    }
}

/// Address-line pattern (line0, line1, line2) selecting a gate sub-module.
pub open spec fn gt_lines(addr: GtAddress) -> (bool, bool, bool) {
    match addr {
        GtAddress::Gt0 => (false, false, false),
        GtAddress::Gt1 => (true, false, false),
        GtAddress::Gt2 => (false, true, false),
        GtAddress::Gt3 => (true, true, false),
    }
}

/// States of the three address-select lines that pick out a CV sub-module;
/// a different table than the one for gate sub-modules.
pub open spec fn cv_lines(addr: CvAddress) -> (bool, bool, bool) {
    match addr {
        CvAddress::Cv1 => (true, false, false),
        CvAddress::Cv2 => (false, true, false),
        CvAddress::Cv3 => (true, true, false),
        CvAddress::Cv4 => (false, false, true),
        CvAddress::Cv5 => (true, false, true),
        CvAddress::Cv6 => (false, true, true),
        CvAddress::Cv7 => (true, true, true),
    }
}

/// The bus-write event for one 4-byte frame.
pub open spec fn frame_event(b0: u8, b1: u8, b2: u8, b3: u8, suspending: bool) -> Event {
    Event::Frame { b0, b1, b2, b3, suspending }
}

/// Frame that rewrites a gate sub-module's byte.
pub open spec fn gate_frame(values: u8, suspending: bool) -> Event {
    frame_event(0x04, 0x00, values, 0x00, suspending)
}

/// Frame that programs a CV channel's raw DAC value. The channel code fills
/// the top nibble of the first byte and the value's nibbles are spread over
/// the low nibble of the first byte and the following two bytes.
pub open spec fn cv_raw_frame(channel: CvChannel, value: u16) -> Event {
    frame_event(
        cv_code(channel) | (((value & 0xF000) >> 12) as u8),
        ((value & 0x0FF0) >> 4) as u8,
        ((value & 0x000F) << 4) as u8,
        0x00,
        true,
    )
}

/// Frame that sets a CV sub-module's polarity flags byte, passed through
/// unmodified.
pub open spec fn polarity_frame(polarity: u8) -> Event {
    frame_event(0x14, 0x00, polarity, 0x00, false)
}

/// The three address-line assertions that select a sub-module.
pub open spec fn address_events(lines: (bool, bool, bool)) -> Seq<Event> {
    seq![Event::Addr0(lines.0), Event::Addr1(lines.1), Event::Addr2(lines.2)]
}

/// One framed bus write: chip-select active, the frame, chip-select inactive.
pub open spec fn framed_events(frame: Event) -> Seq<Event> {
    seq![Event::Cs(false), frame, Event::Cs(true)]
}

/// One complete transfer: address-line assertion followed by a framed write.
pub open spec fn transfer_events(lines: (bool, bool, bool), frame: Event) -> Seq<Event> {
    address_events(lines) + framed_events(frame)
}

/// Events of the construction-time sweep: chip-select driven to its idle
/// (inactive) level, then one all-zero gate frame per gate sub-module, in
/// address order, over the non-suspending path.
pub open spec fn init_events() -> Seq<Event> {
    seq![Event::Cs(true)]
        + transfer_events(gt_lines(GtAddress::Gt0), gate_frame(0x00, false))
        + transfer_events(gt_lines(GtAddress::Gt1), gate_frame(0x00, false))
        + transfer_events(gt_lines(GtAddress::Gt2), gate_frame(0x00, false))
        + transfer_events(gt_lines(GtAddress::Gt3), gate_frame(0x00, false))
}

/// Trace of an address-line assertion that aborted on a refused pin drive:
/// the commands stop at the first line the pin collaborator refused.
pub open spec fn partial_address_trace(
    pre: Seq<Event>,
    post: Seq<Event>,
    lines: (bool, bool, bool),
) -> bool {
    ||| post == pre.push(Event::Addr0(lines.0))
    ||| post == pre.push(Event::Addr0(lines.0)).push(Event::Addr1(lines.1))
    ||| post == pre + address_events(lines)
}

/// Trace of a framed write that failed. Either the chip-select assertion was
/// refused and the release was commanded at once, with no frame in between,
/// or the full framed sequence was commanded and the refused step was the bus
/// write or the release itself. Either way the release is commanded the
/// instant the failure is detected, so chip-select is never left asserted.
pub open spec fn aborted_framed_trace(pre: Seq<Event>, post: Seq<Event>, frame: Event) -> bool {
    ||| post == pre + seq![Event::Cs(false), Event::Cs(true)]
    ||| post == pre + framed_events(frame)
}

/// Trace of a complete transfer that failed at some step: during the
/// address-line assertion, or during the framed write that follows it.
pub open spec fn aborted_transfer_trace(
    pre: Seq<Event>,
    post: Seq<Event>,
    lines: (bool, bool, bool),
    frame: Event,
) -> bool {
    ||| partial_address_trace(pre, post, lines)
    ||| aborted_framed_trace(pre + address_events(lines), post, frame)
}

/// Cached gate bytes after a whole-byte rewrite of one sub-module.
pub open spec fn set_gates_model(gates: Seq<u8>, addr: GtAddress, values: u8) -> Seq<u8> {
    gates.update(gt_index(addr), values)
}

/// Cached gate bytes after raising one channel of one sub-module.
pub open spec fn gate_high_model(gates: Seq<u8>, addr: GtAddress, channel: GtChannel) -> Seq<u8> {
    gates.update(gt_index(addr), gates[gt_index(addr)] | gt_mask(channel))
}

/// Cached gate bytes after clearing one channel of one sub-module.
pub open spec fn gate_low_model(gates: Seq<u8>, addr: GtAddress, channel: GtChannel) -> Seq<u8> {
    gates.update(gt_index(addr), gates[gt_index(addr)] & !gt_mask(channel))
}

impl GtAddress {
    /// Index of this gate address into the cached gate bytes.
    pub fn index(&self) -> (r: usize)
        ensures
            r == gt_index(*self),
    {
        match self {
            GtAddress::Gt0 => 0,
            GtAddress::Gt1 => 1,
            GtAddress::Gt2 => 2,
            GtAddress::Gt3 => 3,
        }
    }
}

impl GtChannel {
    /// Single-bit mask of this channel inside its sub-module's byte.
    pub fn mask(&self) -> (r: u8)
        ensures
            r == gt_mask(*self),
    {
        match self {
            GtChannel::Channel1 => 1u8 << 0u8,
            GtChannel::Channel2 => 1u8 << 1u8,
            GtChannel::Channel3 => 1u8 << 2u8,
            GtChannel::Channel4 => 1u8 << 3u8,
            GtChannel::Channel5 => 1u8 << 4u8,
            GtChannel::Channel6 => 1u8 << 5u8,
            GtChannel::Channel7 => 1u8 << 6u8,
            GtChannel::Channel8 => 1u8 << 7u8,
        }
    }
}

impl CvChannel {
    /// 4-bit nibble code of this channel, shifted into the top nibble.
    pub fn code(&self) -> (r: u8)
        ensures
            r == cv_code(*self),
    {
        match self {
            CvChannel::Channel1 => 0x00,
            CvChannel::Channel2 => 0x20,
            CvChannel::Channel3 => 0x40,
            CvChannel::Channel4 => 0x60,
            CvChannel::Channel5 => 0x70,
            CvChannel::Channel6 => 0x50,
            CvChannel::Channel7 => 0x30,
            CvChannel::Channel8 => 0x10,
        }
    }
}

} // verus!
