//! The packet decoder: consumes one packet from a buffered byte stream.
//!
//! The stream is held in a growing buffer and the decoder works from a
//! cursor into it. On a short stream it reports `EndOfInput` and leaves the
//! cursor on the header byte, so that a later retry — after more bytes were
//! appended — decodes the whole packet again from its start. Buffering this
//! way means no byte of a partially available packet is ever lost across an
//! end-of-input boundary.

use vstd::prelude::*;

use crate::packet::DecodeOutcome;
use crate::packet::Packet;
use crate::packet::is_data_header;
use crate::packet::lemma_payload_len_bounds;
use crate::packet::payload_bytes_of;
use crate::packet::payload_len;
use crate::packet::payload_new;
use crate::packet::payload_push;
use crate::packet::port_of;

verus! {

/// Decodes one packet from `data` starting at `pos` and returns the outcome
/// together with the cursor for the next attempt.
///
/// Header classification happens before any payload byte is read, so an
/// unrecognised header costs exactly one byte and never desynchronises the
/// stream by a mis-sized over-read. A packet whose payload is not yet fully
/// available yields `EndOfInput` and consumes nothing.
pub fn decode(data: &Vec<u8>, pos: usize) -> (r: (DecodeOutcome, usize))
    ensures
        pos >= data@.len() ==> r.0 == DecodeOutcome::EndOfInput && r.1 == pos,
        pos < data@.len() && !is_data_header(data@[pos as int]) ==> {
            &&& r.0 == DecodeOutcome::UnknownHeader(data@[pos as int])
            &&& r.1 == pos + 1
        },
        pos < data@.len() && is_data_header(data@[pos as int])
            && pos + 1 + payload_len(data@[pos as int]) > data@.len() ==> {
            &&& r.0 == DecodeOutcome::EndOfInput
            &&& r.1 == pos
        },
        pos < data@.len() && is_data_header(data@[pos as int])
            && pos + 1 + payload_len(data@[pos as int]) <= data@.len() ==> {
            &&& r.0 matches DecodeOutcome::Data(p)
                && p.wf()
                && p.header == data@[pos as int]
                && p.port == port_of(data@[pos as int])
                && payload_bytes_of(p.payload) == data@.subrange(
                    pos + 1,
                    pos + 1 + payload_len(data@[pos as int]),
                )
            &&& r.1 == pos + 1 + payload_len(data@[pos as int])
        },
{
    if pos >= data.len() {
        return (DecodeOutcome::EndOfInput, pos);
    }
    let header: u8 = data[pos];
    match header & 0b111 {
        0b01 | 0b10 | 0b11 => {
            proof {
                lemma_payload_len_bounds(header);
            }
            let size: usize = match header & 0b11 {
                0b01 => 1,
                0b10 => 2,
                0b11 => 4,
                _ => {
                    return (DecodeOutcome::UnknownHeader(header), pos + 1);
                },
            };
            if data.len() - (pos + 1) < size {
                // The payload is not fully available yet: abandon the
                // attempt without consuming the header, so a retry after an
                // append re-reads the packet from its start.
                return (DecodeOutcome::EndOfInput, pos);
            }
            let n: usize = data.len();
            let mut payload = payload_new();
            let mut i: usize = 0;
            while i < size
                invariant
                    i <= size,
                    size == payload_len(header),
                    size <= 4,
                    n == data@.len(),
                    pos + 1 + size <= n,
                    header == data@[pos as int],
                    payload_bytes_of(payload) == data@.subrange(pos + 1, pos + 1 + i),
                decreases size - i,
            {
                payload_push(&mut payload, data[pos + 1 + i]);
                proof {
                    assert(data@.subrange(pos + 1, pos + 1 + i).push(
                        data@[pos + 1 + i]) =~= data@.subrange(pos + 1, pos + 1 + (i + 1)));
                }
                i += 1;
            }
            let packet = Packet { header, payload, port: header >> 3 };
            (DecodeOutcome::Data(packet), pos + 1 + size)
        },
        _ => (DecodeOutcome::UnknownHeader(header), pos + 1),
    }
}

} // verus!
