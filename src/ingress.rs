//! Reading frame words from the transmitter's transport.

use vstd::prelude::*;
use crate::codec::{InfraredCommand, frame_spec, wire_text_spec};
use crate::hex::{lemma_wire_round_trip, parse_hex, parse_hex_spec};

verus! {

/// What a chunk read from the transport amounts to.
#[derive(Clone, Copy, Debug, PartialEq, Eq, Structural)]
pub enum Ingress {
    /// An empty chunk: nothing to do.
    Idle,
    /// A frame word to hand to the encoder.
    Word(u32),
    /// Text that is not a hexadecimal word: reported once and dropped.
    Malformed,
}

/// What a chunk `raw` amounts to.
pub open spec fn ingest_spec(raw: Seq<u8>) -> Ingress {
    if raw.len() == 0 {
        Ingress::Idle
    } else {
        match parse_hex_spec(raw, u32::MAX as nat) {
            Some(v) => Ingress::Word(v as u32),
            None => Ingress::Malformed,
        }
    }
}

/// Reads one chunk from the transport as a frame word of up to eight
/// hexadecimal digits. An empty chunk is no word and no error; any other
/// chunk that is not such a word is malformed.
pub fn ingest(raw: &[u8]) -> (r: Ingress)
    ensures
        r == ingest_spec(raw@),
        raw@.len() == 0 ==> r == Ingress::Idle,
{
    if raw.len() == 0 {
        Ingress::Idle
    } else {
        match parse_hex(raw, u32::MAX) {
            Some(v) => Ingress::Word(v),
            None => Ingress::Malformed,
        }
    }
}

/// The text that the host writes for a command reads back, on the
/// transmitter's side, as exactly that command's frame word.
pub proof fn lemma_wire_text_ingests_as_frame(c: InfraredCommand)
    ensures
        ingest_spec(wire_text_spec(c)) == Ingress::Word(frame_spec(c)),
{
    lemma_wire_round_trip(frame_spec(c));
}

} // verus!
