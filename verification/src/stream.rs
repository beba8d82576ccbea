//! The stream loop: drives the decoder over a buffered stream, routes
//! payloads by stimulus port, and gives follow mode its state machine.
//!
//! The loop's pure part lives here and is verified: [`drain_from`] decodes
//! every fully available packet, [`run_buffer`] handles a complete recorded
//! stream, and [`step`] maps one decode outcome to the next loop state and
//! the action owed for it. The caller performs the actions — writing to the
//! sink, logging, sleeping before a retry — and appends newly read bytes to
//! the buffer.

use vstd::prelude::*;

use crate::packet::DecodeOutcome;
use crate::packet::is_data_header;
use crate::packet::payload_bytes_of;
use crate::packet::payload_len;
use crate::packet::payload_to_vec;
use crate::packet::port_of;
use crate::decoder::decode;

verus! {

/// The payloads owed to the sink when the stream `data` is decoded from
/// `pos` onward and packets for `port` are routed: one sequence of bytes
/// per routed write, in stream order. Decoding stops at the first point
/// where the remaining bytes hold no complete packet.
pub open spec fn routed(data: Seq<u8>, pos: int, port: u8) -> Seq<Seq<u8>>
    decreases data.len() - pos,
{
    if pos < 0 || pos >= data.len() {
        Seq::empty()
    } else if !is_data_header(data[pos]) {
        routed(data, pos + 1, port)
    } else if pos + 1 + payload_len(data[pos]) > data.len() {
        Seq::empty()
    } else if port_of(data[pos]) == port {
        seq![data.subrange(pos + 1, pos + 1 + payload_len(data[pos]))]
            + routed(data, pos + 1 + payload_len(data[pos]), port)
    } else {
        routed(data, pos + 1 + payload_len(data[pos]), port)
    }
}

/// The position where decoding of `data` from `pos` stops: the first
/// position from which the remaining bytes hold no complete packet.
pub open spec fn stop(data: Seq<u8>, pos: int) -> int
    decreases data.len() - pos,
{
    if pos < 0 || pos >= data.len() {
        pos
    } else if !is_data_header(data[pos]) {
        stop(data, pos + 1)
    } else if pos + 1 + payload_len(data[pos]) > data.len() {
        pos
    } else {
        stop(data, pos + 1 + payload_len(data[pos]))
    }
}

/// Holds when a decode attempt at `pos` runs out of input: either nothing
/// is left, or a data packet starts there whose payload is incomplete.
pub open spec fn stream_end(data: Seq<u8>, pos: int) -> bool {
    pos >= data.len() || (is_data_header(data[pos]) && pos + 1 + payload_len(data[pos])
        > data.len())
}

/// The mathematical view of a list of writes: each write as the sequence
/// of bytes it carries.
pub open spec fn seqs_of(ws: Seq<Vec<u8>>) -> Seq<Seq<u8>> {
    ws.map_values(|w: Vec<u8>| w@)
}

/// Decoding stops at a position where the input has run out, never before
/// `pos` and never past the end of the buffer.
proof fn lemma_stop_props(data: Seq<u8>, pos: int)
    requires
        0 <= pos <= data.len(),
    ensures
        pos <= stop(data, pos) <= data.len(),
        stream_end(data, stop(data, pos)),
    decreases data.len() - pos,
{
    if pos >= data.len() {
    } else if !is_data_header(data[pos]) {
        lemma_stop_props(data, pos + 1);
    } else if pos + 1 + payload_len(data[pos]) > data.len() {
    } else {
        lemma_stop_props(data, pos + 1 + payload_len(data[pos]));
    }
}

/// Decodes every packet that is fully available in `data` from `pos`
/// onward and returns the payloads addressed to `port`, in stream order,
/// together with the position where decoding stopped.
///
/// The stopping position is on the header of the first incomplete packet
/// (or at the end of the buffer), so a caller in follow mode loses no byte
/// by resuming from it once more data has been appended.
pub fn drain_from(data: &Vec<u8>, pos: usize, port: u8) -> (r: (Vec<Vec<u8>>, usize))
    requires
        pos <= data@.len(),
    ensures
        seqs_of(r.0@) == routed(data@, pos as int, port),
        r.1 as int == stop(data@, pos as int),
        pos <= r.1 <= data@.len(),
        stream_end(data@, r.1 as int),
{
    let mut writes: Vec<Vec<u8>> = Vec::new();
    let mut cur: usize = pos;
    loop
        invariant
            pos <= cur <= data@.len(),
            routed(data@, pos as int, port) == seqs_of(writes@) + routed(data@, cur as int, port),
            stop(data@, pos as int) == stop(data@, cur as int),
        decreases data@.len() - cur,
    {
        let (outcome, next) = decode(data, cur);
        match outcome {
            DecodeOutcome::Data(p) => {
                if p.port == port {
                    let w = payload_to_vec(&p.payload);
                    let ghost old_writes = writes@;
                    writes.push(w);
                    proof {
                        assert(seqs_of(writes@) =~= seqs_of(old_writes).push(w@));
                        assert(seqs_of(old_writes).push(w@) =~= seqs_of(old_writes) + seq![w@]);
                        assert((seqs_of(old_writes) + seq![w@]) + routed(data@, next as int, port)
                            =~= seqs_of(old_writes) + (seq![w@] + routed(
                            data@, next as int, port)));
                    }
                }
                cur = next;
            },
            DecodeOutcome::UnknownHeader(_) => {
                cur = next;
            },
            DecodeOutcome::EndOfInput => {
                proof {
                    assert(routed(data@, cur as int, port) =~= Seq::<Seq<u8>>::empty());
                    assert(seqs_of(writes@) + Seq::<Seq<u8>>::empty() =~= seqs_of(writes@));
                }
                return (writes, cur);
            },
            DecodeOutcome::IoFailure => {
                proof {
                    assert(false);
                }
                return (writes, cur);
            },
        }
    }
}

/// Decodes a complete recorded stream: every packet in `data`, from its
/// start, with the payloads addressed to `port` returned in stream order.
/// This is the whole work of a run without follow mode.
pub fn run_buffer(data: &Vec<u8>, port: u8) -> (writes: Vec<Vec<u8>>)
    ensures
        seqs_of(writes@) == routed(data@, 0, port),
{
    let (writes, _) = drain_from(data, 0, port);
    writes
}

/// Appending bytes to the buffer loses nothing that was already decoded:
/// decoding the extended stream from `pos` yields exactly the writes the
/// unextended stream yielded from `pos`, followed by the writes of the
/// extended stream taken up from the old stopping position.
///
/// This is the correctness of follow mode. A retry that resumes from
/// `stop(data, pos)` after an append sees every packet of the extended
/// stream that the first pass did not emit — including any packet that was
/// only partially available before the append.
pub proof fn lemma_follow_no_loss(data: Seq<u8>, ext: Seq<u8>, pos: int, port: u8)
    requires
        0 <= pos <= data.len(),
    ensures
        routed(data + ext, pos, port) == routed(data, pos, port) + routed(
            data + ext,
            stop(data, pos),
            port,
        ),
        pos <= stop(data, pos) <= data.len(),
        stream_end(data, stop(data, pos)),
    decreases data.len() - pos,
{
    lemma_stop_props(data, pos);
    let whole = data + ext;
    if pos >= data.len() {
        assert(routed(data, pos, port) + routed(whole, pos, port) =~= routed(
            whole, pos, port));
    } else {
        let h: u8 = data[pos];
        assert(whole[pos] == h);
        if !is_data_header(h) {
            lemma_follow_no_loss(data, ext, pos + 1, port);
        } else if pos + 1 + payload_len(h) > data.len() {
            assert(routed(data, pos, port) + routed(whole, pos, port) =~= routed(
                whole, pos, port));
        } else {
            let next: int = pos + 1 + payload_len(h);
            lemma_follow_no_loss(data, ext, next, port);
            let tail = routed(whole, stop(data, pos), port);
            if port_of(h) == port {
                let w = data.subrange(pos + 1, next);
                assert(whole.subrange(pos + 1, next) =~= w);
                assert(seq![w] + (routed(data, next, port) + tail) =~= (seq![w] + routed(
                    data, next, port)) + tail);
            }
        }
    }
}

/// A target port above 31 is addressable by no header byte, so nothing is
/// ever routed to it — the reason such a configuration deserves a warning.
pub proof fn lemma_unmatchable_port(data: Seq<u8>, pos: int, port: u8)
    requires
        port > 31,
    ensures
        routed(data, pos, port) == Seq::<Seq<u8>>::empty(),
    decreases data.len() - pos,
{
    if pos < 0 || pos >= data.len() {
    } else {
        let h: u8 = data[pos];
        crate::packet::lemma_port_bounds(h);
        if !is_data_header(h) {
            lemma_unmatchable_port(data, pos + 1, port);
        } else if pos + 1 + payload_len(h) > data.len() {
        } else {
            lemma_unmatchable_port(data, pos + 1 + payload_len(h), port);
        }
    }
}

/// The states of the stream loop. The loop starts in `Reading`, returns to
/// it after every packet and every recoverable error, passes through
/// `Retrying` while it waits for a growing source, and never leaves either
/// terminated state.
pub enum LoopState {
    /// Decoding the next packet.
    Reading,
    /// Input ran out while following: pause, then read again.
    Retrying,
    /// Input ran out while not following: a clean end of input.
    DoneSuccess,
    /// A fatal failure of the source.
    DoneFailure,
}

/// What the caller owes after one decode outcome was stepped through the
/// loop's state machine.
pub enum LoopAction {
    /// Write these bytes to the sink, in full and in order.
    Emit(Vec<u8>),
    /// The packet was addressed to another port: write nothing.
    Discard,
    /// Report the offending byte as a diagnostic and carry on.
    LogUnknown(u8),
    /// Sleep for the retry interval, then decode again.
    Pause,
    /// Terminate cleanly.
    StopSuccess,
    /// Terminate, propagating the source's failure.
    StopFailure,
}

/// One transition of the stream loop's state machine: maps a decode
/// outcome, taken in state `Reading`, to the next state and the action owed
/// for it.
///
/// A routed packet is emitted and a foreign one discarded, both staying in
/// `Reading`; an unknown header is logged and the loop carries on; end of
/// input pauses and retries when `follow` is set and terminates cleanly
/// when it is not; any other source failure terminates as a failure.
pub fn step(outcome: DecodeOutcome, target_port: u8, follow: bool) -> (r: (LoopState, LoopAction))
    ensures
        outcome matches DecodeOutcome::Data(p) ==> {
            &&& r.0 == LoopState::Reading
            &&& p.port == target_port ==> (r.1 matches LoopAction::Emit(w) && w@
                == payload_bytes_of(p.payload))
            &&& p.port != target_port ==> r.1 == LoopAction::Discard
        },
        outcome matches DecodeOutcome::UnknownHeader(b) ==> r.0 == LoopState::Reading && r.1
            == LoopAction::LogUnknown(b),
        outcome == DecodeOutcome::EndOfInput && follow ==> r.0 == LoopState::Retrying && r.1
            == LoopAction::Pause,
        outcome == DecodeOutcome::EndOfInput && !follow ==> r.0 == LoopState::DoneSuccess && r.1
            == LoopAction::StopSuccess,
        outcome == DecodeOutcome::IoFailure ==> r.0 == LoopState::DoneFailure && r.1
            == LoopAction::StopFailure,
{
    match outcome {
        DecodeOutcome::Data(p) => {
            if p.port == target_port {
                (LoopState::Reading, LoopAction::Emit(payload_to_vec(&p.payload)))
            } else {
                (LoopState::Reading, LoopAction::Discard)
            }
        },
        DecodeOutcome::UnknownHeader(b) => (LoopState::Reading, LoopAction::LogUnknown(b)),
        DecodeOutcome::EndOfInput => {
            if follow {
                (LoopState::Retrying, LoopAction::Pause)
            } else {
                (LoopState::DoneSuccess, LoopAction::StopSuccess)
            }
        },
        DecodeOutcome::IoFailure => (LoopState::DoneFailure, LoopAction::StopFailure),
    }
}

/// The one transition out of `Retrying`: after the pause the loop reads
/// again. No transition leaves a terminated state.
pub fn after_pause(state: LoopState) -> (r: LoopState)
    requires
        state == LoopState::Retrying,
    ensures
        r == LoopState::Reading,
{
    LoopState::Reading
}

} // verus!
