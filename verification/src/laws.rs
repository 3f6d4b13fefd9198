use vstd::prelude::*;

use crate::protocol::Event;
use crate::protocol::GtAddress;
use crate::protocol::GtChannel;
use crate::protocol::aborted_framed_trace;
use crate::protocol::aborted_transfer_trace;
use crate::protocol::address_events;
use crate::protocol::framed_events;
use crate::protocol::gate_frame;
use crate::protocol::partial_address_trace;
use crate::protocol::gate_high_model;
use crate::protocol::gate_low_model;
use crate::protocol::gt_channel_ordinal;
use crate::protocol::gt_index;
use crate::protocol::gt_lines;
use crate::protocol::gt_mask;
use crate::protocol::init_events;
use crate::protocol::set_gates_model;
use crate::protocol::transfer_events;

verus! {

/// A trace is well framed when every bus write stands immediately between a
/// chip-select assertion (low) and a chip-select release (high), so no frame
/// is ever written with chip-select idle and no transfer leaves chip-select
/// dangling active.
pub open spec fn well_framed(log: Seq<Event>) -> bool {
    forall|i: int|
        0 <= i < log.len() && (#[trigger] log[i]) is Frame ==> {
            &&& 0 < i
            &&& i + 1 < log.len()
            &&& log[i - 1] == Event::Cs(false)
            &&& log[i + 1] == Event::Cs(true)
        }
}

/// Appending one complete transfer — address-line assertion, chip-select low,
/// one frame, chip-select high — keeps a trace well framed. Every operation of
/// the driver appends exactly such a block (see its `ensures`), so a driver
/// trace that starts well framed stays well framed through any sequence of
/// operations.
pub proof fn lemma_append_transfer_well_framed(
    log: Seq<Event>,
    lines: (bool, bool, bool),
    frame: Event,
)
    requires
        well_framed(log),
        frame is Frame,
    ensures
        well_framed(log + transfer_events(lines, frame)),
{
    let t = transfer_events(lines, frame);
    assert(t =~= seq![
        Event::Addr0(lines.0),
        Event::Addr1(lines.1),
        Event::Addr2(lines.2),
        Event::Cs(false),
        frame,
        Event::Cs(true),
    ]);
    let m = log + t;
    assert forall|i: int| 0 <= i < m.len() && (#[trigger] m[i]) is Frame implies {
        &&& 0 < i
        &&& i + 1 < m.len()
        &&& m[i - 1] == Event::Cs(false)
        &&& m[i + 1] == Event::Cs(true)
    } by {
        if i < log.len() {
            assert(m[i] == log[i]);
            assert(log[i] is Frame);
            assert(m[i - 1] == log[i - 1]);
            assert(m[i + 1] == log[i + 1]);
        } else {
            let j = i - log.len();
            assert(m[i] == t[j]);
            assert(j == 4);
            assert(m[i - 1] == t[3]);
            assert(m[i + 1] == t[5]);
        }
    }
}

/// The construction-time sweep is well framed from the very first action:
/// chip-select starts at its idle level and each of the four all-zero gate
/// frames is bracketed by its own chip-select assertion and release.
pub proof fn lemma_init_events_well_framed()
    ensures
        well_framed(init_events()),
{
    let s0 = seq![Event::Cs(true)];
    assert forall|i: int| 0 <= i < s0.len() implies !((#[trigger] s0[i]) is Frame) by {
        assert(s0[i] == Event::Cs(true));
    }
    assert(well_framed(s0));

    let t0 = transfer_events(gt_lines(GtAddress::Gt0), gate_frame(0x00, false));
    let t1 = transfer_events(gt_lines(GtAddress::Gt1), gate_frame(0x00, false));
    let t2 = transfer_events(gt_lines(GtAddress::Gt2), gate_frame(0x00, false));
    let t3 = transfer_events(gt_lines(GtAddress::Gt3), gate_frame(0x00, false));

    lemma_append_transfer_well_framed(s0, gt_lines(GtAddress::Gt0), gate_frame(0x00, false));
    lemma_append_transfer_well_framed(s0 + t0, gt_lines(GtAddress::Gt1), gate_frame(0x00, false));
    lemma_append_transfer_well_framed(
        s0 + t0 + t1,
        gt_lines(GtAddress::Gt2),
        gate_frame(0x00, false),
    );
    lemma_append_transfer_well_framed(
        s0 + t0 + t1 + t2,
        gt_lines(GtAddress::Gt3),
        gate_frame(0x00, false),
    );
    assert(init_events() == s0 + t0 + t1 + t2 + t3);
}

/// A trace leaves chip-select released when every chip-select assertion in it
/// is followed, later in the trace, by a chip-select release: no command
/// sequence ends with chip-select dangling active.
pub open spec fn cs_released(log: Seq<Event>) -> bool {
    forall|i: int|
        0 <= i < log.len() && (#[trigger] log[i]) == Event::Cs(false) ==> exists|j: int|
            i < j < log.len() && log[j] == Event::Cs(true)
}

/// Framing and chip-select release are both preserved by concatenating two
/// traces that each have them: a frame's bracket and an assertion's release
/// lie within the part that contains it.
pub proof fn lemma_concat_safe(a: Seq<Event>, b: Seq<Event>)
    requires
        well_framed(a),
        cs_released(a),
        well_framed(b),
        cs_released(b),
    ensures
        well_framed(a + b),
        cs_released(a + b),
{
    let m = a + b;
    assert forall|i: int| 0 <= i < m.len() && (#[trigger] m[i]) is Frame implies {
        &&& 0 < i
        &&& i + 1 < m.len()
        &&& m[i - 1] == Event::Cs(false)
        &&& m[i + 1] == Event::Cs(true)
    } by {
        if i < a.len() {
            assert(m[i] == a[i]);
            assert(a[i] is Frame);
            assert(m[i - 1] == a[i - 1]);
            assert(m[i + 1] == a[i + 1]);
        } else {
            let k = i - a.len();
            assert(m[i] == b[k]);
            assert(b[k] is Frame);
            assert(m[i - 1] == b[k - 1]);
            assert(m[i + 1] == b[k + 1]);
        }
    }
    assert forall|i: int| 0 <= i < m.len() && (#[trigger] m[i]) == Event::Cs(false) implies
        exists|j: int| i < j < m.len() && m[j] == Event::Cs(true) by {
        if i < a.len() {
            assert(a[i] == Event::Cs(false));
            let j = choose|j: int| i < j < a.len() && a[j] == Event::Cs(true);
            assert(m[j] == Event::Cs(true));
        } else {
            let k = i - a.len();
            assert(b[k] == Event::Cs(false));
            let j = choose|j: int| k < j < b.len() && b[j] == Event::Cs(true);
            assert(m[a.len() + j] == Event::Cs(true));
        }
    }
}

/// One complete transfer, taken alone, is well framed and leaves chip-select
/// released: the frame sits between the assertion and the release, and the
/// assertion is the only one there is.
pub proof fn lemma_transfer_events_safe(lines: (bool, bool, bool), frame: Event)
    requires
        frame is Frame,
    ensures
        well_framed(transfer_events(lines, frame)),
        cs_released(transfer_events(lines, frame)),
{
    let t = transfer_events(lines, frame);
    assert(t =~= seq![
        Event::Addr0(lines.0),
        Event::Addr1(lines.1),
        Event::Addr2(lines.2),
        Event::Cs(false),
        frame,
        Event::Cs(true),
    ]);
    assert forall|i: int| 0 <= i < t.len() && (#[trigger] t[i]) is Frame implies {
        &&& 0 < i
        &&& i + 1 < t.len()
        &&& t[i - 1] == Event::Cs(false)
        &&& t[i + 1] == Event::Cs(true)
    } by {
        assert(i == 4);
    }
    assert forall|i: int| 0 <= i < t.len() && (#[trigger] t[i]) == Event::Cs(false) implies
        exists|j: int| i < j < t.len() && t[j] == Event::Cs(true) by {
        assert(i == 3);
        assert(t[5] == Event::Cs(true));
    }
}

/// The failure half of the framing guarantee: however a transfer aborts — on
/// a refused address line, a refused chip-select assertion, a refused bus
/// write or a refused release — the trace it leaves is still well framed and
/// still leaves chip-select released, because the driver commands the release
/// the instant it detects the failure. Every operation's `ensures` gives
/// exactly such an `aborted_transfer_trace` on its error outcome.
pub proof fn lemma_aborted_transfer_safe(
    pre: Seq<Event>,
    post: Seq<Event>,
    lines: (bool, bool, bool),
    frame: Event,
)
    requires
        well_framed(pre),
        cs_released(pre),
        frame is Frame,
        aborted_transfer_trace(pre, post, lines, frame),
    ensures
        well_framed(post),
        cs_released(post),
{
    let addr3 = address_events(lines);
    assert forall|k: int| 0 <= k < addr3.len() implies {
        &&& !((#[trigger] addr3[k]) is Frame)
        &&& addr3[k] != Event::Cs(false)
    } by {
        assert(addr3 =~= seq![Event::Addr0(lines.0), Event::Addr1(lines.1), Event::Addr2(lines.2)]);
    }
    assert(well_framed(addr3));
    assert(cs_released(addr3));

    if partial_address_trace(pre, post, lines) {
        if post == pre.push(Event::Addr0(lines.0)) {
            let e = seq![Event::Addr0(lines.0)];
            assert(well_framed(e));
            assert(cs_released(e));
            lemma_concat_safe(pre, e);
            assert(post =~= pre + e);
        } else if post == pre.push(Event::Addr0(lines.0)).push(Event::Addr1(lines.1)) {
            let e = seq![Event::Addr0(lines.0), Event::Addr1(lines.1)];
            assert(well_framed(e));
            assert(cs_released(e));
            lemma_concat_safe(pre, e);
            assert(post =~= pre + e);
        } else {
            lemma_concat_safe(pre, addr3);
        }
    } else {
        lemma_concat_safe(pre, addr3);
        let mid = pre + addr3;
        if post == mid + seq![Event::Cs(false), Event::Cs(true)] {
            let e = seq![Event::Cs(false), Event::Cs(true)];
            assert(well_framed(e));
            assert forall|i: int| 0 <= i < e.len() && (#[trigger] e[i]) == Event::Cs(false) implies
                exists|j: int| i < j < e.len() && e[j] == Event::Cs(true) by {
                assert(i == 0);
                assert(e[1] == Event::Cs(true));
            }
            lemma_concat_safe(mid, e);
        } else {
            let e = framed_events(frame);
            assert(e =~= seq![Event::Cs(false), frame, Event::Cs(true)]);
            assert forall|i: int| 0 <= i < e.len() && (#[trigger] e[i]) is Frame implies {
                &&& 0 < i
                &&& i + 1 < e.len()
                &&& e[i - 1] == Event::Cs(false)
                &&& e[i + 1] == Event::Cs(true)
            } by {
                assert(i == 1);
            }
            assert forall|i: int| 0 <= i < e.len() && (#[trigger] e[i]) == Event::Cs(false) implies
                exists|j: int| i < j < e.len() && e[j] == Event::Cs(true) by {
                assert(i == 0);
                assert(e[2] == Event::Cs(true));
            }
            lemma_concat_safe(mid, e);
        }
    }
}

/// The construction-time sweep leaves chip-select released, as does appending
/// any complete transfer to a trace that does (see [`lemma_concat_safe`] and
/// [`lemma_transfer_events_safe`]).
pub proof fn lemma_init_events_cs_released()
    ensures
        cs_released(init_events()),
{
    let s0 = seq![Event::Cs(true)];
    assert forall|i: int| 0 <= i < s0.len() implies {
        &&& !((#[trigger] s0[i]) is Frame)
        &&& s0[i] != Event::Cs(false)
    } by {
        assert(s0[i] == Event::Cs(true));
    }
    assert(well_framed(s0));
    assert(cs_released(s0));

    let t0 = transfer_events(gt_lines(GtAddress::Gt0), gate_frame(0x00, false));
    let t1 = transfer_events(gt_lines(GtAddress::Gt1), gate_frame(0x00, false));
    let t2 = transfer_events(gt_lines(GtAddress::Gt2), gate_frame(0x00, false));
    let t3 = transfer_events(gt_lines(GtAddress::Gt3), gate_frame(0x00, false));

    lemma_transfer_events_safe(gt_lines(GtAddress::Gt0), gate_frame(0x00, false));
    lemma_transfer_events_safe(gt_lines(GtAddress::Gt1), gate_frame(0x00, false));
    lemma_transfer_events_safe(gt_lines(GtAddress::Gt2), gate_frame(0x00, false));
    lemma_transfer_events_safe(gt_lines(GtAddress::Gt3), gate_frame(0x00, false));

    lemma_concat_safe(s0, t0);
    lemma_concat_safe(s0 + t0, t1);
    lemma_concat_safe(s0 + t0 + t1, t2);
    lemma_concat_safe(s0 + t0 + t1 + t2, t3);
    assert(init_events() == s0 + t0 + t1 + t2 + t3);
}

/// After a whole-byte rewrite of sub-module `addr` with `m`, raising channel
/// `c` yields exactly `m` with that bit set and clearing yields exactly `m`
/// with that bit cleared, while the cached byte of every other sub-module is
/// untouched.
pub proof fn lemma_set_gates_then_gate(g: Seq<u8>, addr: GtAddress, m: u8, c: GtChannel)
    requires
        g.len() == 4,
    ensures
        gate_high_model(set_gates_model(g, addr, m), addr, c)[gt_index(addr)] == m | gt_mask(c),
        gate_low_model(set_gates_model(g, addr, m), addr, c)[gt_index(addr)] == m & !gt_mask(c),
        forall|i: int|
            0 <= i < 4 && i != gt_index(addr)
                ==> gate_high_model(set_gates_model(g, addr, m), addr, c)[i] == g[i],
        forall|i: int|
            0 <= i < 4 && i != gt_index(addr)
                ==> gate_low_model(set_gates_model(g, addr, m), addr, c)[i] == g[i],
{
}

/// Clearing a channel whose bit is not set is a no-op: the cached bytes stay
/// exactly as they were, so that bit stays low and every other bit is
/// unchanged.
pub proof fn lemma_gate_low_unset_noop(g: Seq<u8>, addr: GtAddress, c: GtChannel)
    requires
        g.len() == 4,
        g[gt_index(addr)] & gt_mask(c) == 0,
    ensures
        gate_low_model(g, addr, c) == g,
{
    let b = g[gt_index(addr)];
    let k = gt_channel_ordinal(c);
    assert(b & (1u8 << k) == 0 ==> b & !(1u8 << k) == b) by (bit_vector);
    assert(gate_low_model(g, addr, c) =~= g);
}

/// A whole-byte rewrite is idempotent: repeating `set_gates` with the same
/// address and mask leaves the cached byte at `m`, and — since by `set_gates`'s
/// contract the appended transfer is `transfer_events(gt_lines(addr),
/// gate_frame(m, true))`, a function of the address and mask alone — the two
/// calls put two identical transfers on the wire.
pub proof fn lemma_set_gates_idempotent(g: Seq<u8>, addr: GtAddress, m: u8)
    requires
        g.len() == 4,
    ensures
        set_gates_model(set_gates_model(g, addr, m), addr, m) == set_gates_model(g, addr, m),
        set_gates_model(g, addr, m)[gt_index(addr)] == m,
{
    assert(set_gates_model(set_gates_model(g, addr, m), addr, m) =~= set_gates_model(g, addr, m));
}

} // verus!
