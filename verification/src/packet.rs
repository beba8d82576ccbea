//! The wire-format model: header bytes, payload buffers and decode outcomes.
//!
//! An ITM header byte carries a stimulus port number in its upper five bits
//! and a packet-type discriminant in its lower three. The only recognised
//! packets are data packets, whose low three bits are `0b001`, `0b010` or
//! `0b011`; the low two bits then give the payload size (1, 2 or 4 bytes).

use vstd::prelude::*;

verus! {

/// Largest payload a data packet can carry, in bytes.
pub const MAX_PAYLOAD_SIZE: usize = 4;

/// A header byte announces a data packet exactly when its low three bits
/// are `0b001`, `0b010` or `0b011`.
pub open spec fn is_data_header(h: u8) -> bool {
    h & 0b111 == 1 || h & 0b111 == 2 || h & 0b111 == 3
}

/// Payload size encoded in the low two bits of a data-packet header:
/// `0b01` is 1 byte, `0b10` is 2 bytes, `0b11` is 4 bytes.
/// Meaningful only when `is_data_header(h)` holds.
pub open spec fn payload_len(h: u8) -> int {
    if h & 0b11 == 1 {
        1
    } else if h & 0b11 == 2 {
        2
    } else {
        4
    }
}

/// Stimulus port addressed by a header byte: its upper five bits.
pub open spec fn port_of(h: u8) -> u8 {
    h >> 3
}

/// Every data packet carries 1, 2 or 4 payload bytes, and for a data
/// header the size code is the packet-type discriminant itself.
pub proof fn lemma_payload_len_bounds(h: u8)
    ensures
        1 <= payload_len(h) <= MAX_PAYLOAD_SIZE,
        is_data_header(h) ==> h & 0b11 == h & 0b111,
{
    assert(h & 0b11 == 1 || h & 0b11 == 2 || h & 0b11 == 3 || h & 0b11 == 0) by (bit_vector);
    assert((h & 0b111 == 1 || h & 0b111 == 2 || h & 0b111 == 3) ==> h & 0b11 != 0
        && h & 0b11 == h & 0b111) by (bit_vector);
}

/// Stimulus ports are five bits wide: no header addresses a port above 31.
pub proof fn lemma_port_bounds(h: u8)
    ensures
        port_of(h) <= 31,
{
    assert(h >> 3 <= 31) by (bit_vector);
}

/// The fixed-capacity buffer that holds a packet's payload, kept from the
/// `heapless` crate so that no decode allocates on the heap.
#[verifier::external_type_specification]
#[verifier::external_body]
#[verifier::reject_recursive_types(T)]
pub struct ExHeaplessVec<T, const N: usize>(heapless::Vec<T, N>);

/// The bytes held by a payload buffer, oldest first.
pub uninterp spec fn payload_bytes_of(v: heapless::Vec<u8, 4>) -> Seq<u8>;

/// Relies on `heapless::Vec::new`: a freshly constructed vector is empty.
#[verifier::external_body]
pub(crate) fn payload_new() -> (r: heapless::Vec<u8, 4>)
    ensures
        payload_bytes_of(r) == Seq::<u8>::empty(),
{
    heapless::Vec::new()
}

/// Relies on `heapless::Vec::push`: appends the item at the back and
/// returns `Ok` whenever the vector holds fewer items than its capacity.
#[verifier::external_body]
pub(crate) fn payload_push(v: &mut heapless::Vec<u8, 4>, b: u8)
    requires
        payload_bytes_of(*old(v)).len() < 4,
    ensures
        payload_bytes_of(*final(v)) == payload_bytes_of(*old(v)).push(b),
{
    v.push(b).expect("capacity is 4 and the caller keeps the length below it");
}

/// Relies on `heapless::Vec::as_slice`: the slice of the items held, in
/// order; `to_vec` then copies that slice.
#[verifier::external_body]
pub(crate) fn payload_to_vec(v: &heapless::Vec<u8, 4>) -> (r: Vec<u8>)
    ensures
        r@ == payload_bytes_of(*v),
{
    v.as_slice().to_vec()
}

/// One successfully decoded ITM data packet.
pub struct Packet {
    /// The header byte received for this packet, kept for diagnostics.
    pub header: u8,
    /// Payload bytes of this packet, in stream order.
    pub payload: heapless::Vec<u8, 4>,
    /// Stimulus port this packet was sent from.
    pub port: u8,
}

impl Packet {
    /// A packet is well formed when its port is the one its header names
    /// and its payload has exactly the length the header announces.
    pub open spec fn wf(&self) -> bool {
        &&& is_data_header(self.header)
        &&& self.port == port_of(self.header)
        &&& payload_bytes_of(self.payload).len() == payload_len(self.header)
    }
}

/// What one decode attempt yields. The stream loop branches on exactly
/// these four cases, so they form a closed sum rather than one error type.
pub enum DecodeOutcome {
    /// A well-formed data packet.
    Data(Packet),
    /// The header's low three bits name no recognised data packet; the
    /// offending byte is kept for diagnostics. Recoverable.
    UnknownHeader(u8),
    /// The source held fewer bytes than the current packet needs,
    /// including none at all. A control-flow signal, not a failure.
    EndOfInput,
    /// Any other failure of the source. Fatal; never retried.
    IoFailure,
}

} // verus!
