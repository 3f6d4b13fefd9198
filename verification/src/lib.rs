//! Driver for a multi-channel gate/CV output module addressed over a shared
//! serial bus with external chip-select and address-line multiplexing.
//!
//! The driver resolves logical sub-module addresses to three discrete
//! address-select lines, encodes fixed 4-byte command frames, and performs
//! framed transfers (chip-select low, bus write, chip-select high). It keeps a
//! cached gate byte per gate sub-module so single-channel set/clear can be
//! expressed as a full-byte rewrite.
//!
//! All hardware access goes through the [`Port`] capability trait, whose
//! abstract event log lets every operation's contract state the exact pin and
//! bus activity it performs. A refused pin drive or bus transfer aborts the
//! call with an error — never with chip-select left asserted: the release is
//! commanded the instant a failure is detected, on the error path as on the
//! success path.

mod driver;
mod laws;
mod port;
mod protocol;

pub use driver::Fhx;
pub use driver::FhxError;
pub use laws::cs_released;
pub use laws::lemma_aborted_transfer_safe;
pub use laws::lemma_append_transfer_well_framed;
pub use laws::lemma_concat_safe;
pub use laws::lemma_gate_low_unset_noop;
pub use laws::lemma_init_events_cs_released;
pub use laws::lemma_init_events_well_framed;
pub use laws::lemma_set_gates_idempotent;
pub use laws::lemma_set_gates_then_gate;
pub use laws::lemma_transfer_events_safe;
pub use laws::well_framed;
pub use port::FaultPort;
pub use port::Port;
pub use port::RecordPort;
pub use protocol::CvAddress;
pub use protocol::aborted_framed_trace;
pub use protocol::aborted_transfer_trace;
pub use protocol::partial_address_trace;
pub use protocol::CvChannel;
pub use protocol::Event;
pub use protocol::GtAddress;
pub use protocol::GtChannel;
pub use protocol::address_events;
pub use protocol::cv_code;
pub use protocol::cv_lines;
pub use protocol::cv_raw_frame;
pub use protocol::frame_event;
pub use protocol::framed_events;
pub use protocol::gate_frame;
pub use protocol::gate_high_model;
pub use protocol::gate_low_model;
pub use protocol::gt_channel_ordinal;
pub use protocol::gt_index;
pub use protocol::gt_lines;
pub use protocol::gt_mask;
pub use protocol::init_events;
pub use protocol::polarity_frame;
pub use protocol::set_gates_model;
pub use protocol::transfer_events;
