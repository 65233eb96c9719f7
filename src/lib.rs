//! Encoding of remote-control commands into NEC infrared frames, and the
//! decisions of the host that delivers them to an infrared transmitter.

pub mod codec;
pub mod delivery;
pub mod hex;
pub mod ingress;
pub mod waveform;
