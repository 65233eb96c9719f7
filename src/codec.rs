//! Logical commands, their opcodes and the NEC frame words that carry them.

use vstd::prelude::*;
use vstd::string::StringSliceAdditionalSpecFns;
use crate::hex::{parse_hex, parse_hex_spec, render_hex, hex_text};

verus! {

/// The device address that every frame carries in its low sixteen bits.
pub const DEVICE_ADDRESS: u32 = 0x2385;

/// How long the power-on sequence waits after each toggle, in milliseconds.
pub const POWER_ON_PAUSE_MS: u64 = 3000;

/// The audio inputs that the receiver can select.
#[derive(Clone, Copy, Debug, PartialEq, Eq, Structural)]
pub enum AudioInput {
    Bluetooth,
    AnalogMini,
    Optical,
    Rca,
}

/// A command that is sent as one infrared frame.
#[derive(Clone, Copy, Debug, PartialEq, Eq, Structural)]
pub enum InfraredCommand {
    TogglePower,
    SetInput(AudioInput),
    Raw(u8),
}

/// A command as a client asks for it.
#[derive(Clone, Copy, Debug, PartialEq, Eq, Structural)]
pub enum UserCommand {
    /// Transmit one infrared command.
    Direct(InfraredCommand),
    /// Reach the powered-on state from either state. The power button is a
    /// toggle, but the device ignores a second toggle for a few seconds after
    /// turning on, while its window after turning off is shorter: two toggles
    /// a few seconds apart therefore end in the on state, at the cost of a
    /// short delay when the device was already on.
    PowerOnHack,
}

/// One frame to transmit, and the pause, if any, that follows it.
#[derive(Clone, Copy, Debug, PartialEq, Eq, Structural)]
pub struct Delivery {
    pub command: InfraredCommand,
    pub pause_ms: Option<u64>,
}

/// The fixed opcode table.
pub open spec fn opcode_spec(c: InfraredCommand) -> u8 {
    match c {
        InfraredCommand::TogglePower => 0x66,
        InfraredCommand::SetInput(AudioInput::Bluetooth) => 0x86,
        InfraredCommand::SetInput(AudioInput::AnalogMini) => 0x97,
        InfraredCommand::SetInput(AudioInput::Optical) => 0x88,
        InfraredCommand::SetInput(AudioInput::Rca) => 0x96,
        InfraredCommand::Raw(b) => b,
    }
}

/// The NEC frame word of an opcode: the opcode in the top byte, its
/// complement below it, and the device address in the low half.
pub open spec fn frame_word_of(op: u8) -> u32 {
    (op as u32) << 24u32 | ((!op) as u32) << 16u32 | DEVICE_ADDRESS
}

/// The frame word of a command.
pub open spec fn frame_spec(c: InfraredCommand) -> u32 {
    frame_word_of(opcode_spec(c))
}

/// The text written to the transport for a command.
pub open spec fn wire_text_spec(c: InfraredCommand) -> Seq<u8> {
    hex_text(frame_spec(c) as nat)
}

/// The frames that a user command is delivered as, in order.
pub open spec fn expansion(u: UserCommand) -> Seq<Delivery> {
    match u {
        UserCommand::Direct(c) => seq![Delivery { command: c, pause_ms: None }],
        UserCommand::PowerOnHack => seq![
            Delivery { command: InfraredCommand::TogglePower, pause_ms: Some(POWER_ON_PAUSE_MS) },
            Delivery { command: InfraredCommand::TogglePower, pause_ms: Some(POWER_ON_PAUSE_MS) },
        ],
    }
}

/// Every frame word carries the device address in its low sixteen bits, and
/// in bits 16 to 23 the bitwise complement of bits 24 to 31.
pub proof fn lemma_frame_word_check(op: u8)
    ensures
        frame_word_of(op) & 0xffff == DEVICE_ADDRESS,
        (frame_word_of(op) >> 16u32) & 0xff == !(frame_word_of(op) >> 24u32) & 0xff,
        frame_word_of(op) >> 24u32 == op as u32,
{
    let a = op as u32;
    let b = (!op) as u32;
    assert(b == !a & 0xff) by (bit_vector)
        requires
            a == op as u32,
            b == (!op) as u32,
    ;
    assert(((a << 24u32) | b << 16u32 | 0x2385u32) & 0xffff == 0x2385u32) by (bit_vector)
        requires
            a <= 0xff,
            b == !a & 0xff,
    ;
    assert((((a << 24u32) | b << 16u32 | 0x2385u32) >> 16u32) & 0xff == !(((a << 24u32) | b
        << 16u32 | 0x2385u32) >> 24u32) & 0xff) by (bit_vector)
        requires
            a <= 0xff,
            b == !a & 0xff,
    ;
    assert(((a << 24u32) | b << 16u32 | 0x2385u32) >> 24u32 == a) by (bit_vector)
        requires
            a <= 0xff,
            b == !a & 0xff,
    ;
}

impl InfraredCommand {
    /// The opcode of this command.
    pub fn as_u8(&self) -> (r: u8)
        ensures
            r == opcode_spec(*self),
    {
        match self {
            InfraredCommand::TogglePower => 0x66,
            InfraredCommand::SetInput(AudioInput::Bluetooth) => 0x86,
            InfraredCommand::SetInput(AudioInput::AnalogMini) => 0x97,
            InfraredCommand::SetInput(AudioInput::Optical) => 0x88,
            InfraredCommand::SetInput(AudioInput::Rca) => 0x96,
            InfraredCommand::Raw(b) => *b,
        }
    }

    /// The NEC frame word of this command, sent least significant bit first.
    pub fn as_u32_le(&self) -> (r: u32)
        ensures
            r == frame_spec(*self),
    {
        let op = self.as_u8();
        (op as u32) << 24 | ((!op) as u32) << 16 | DEVICE_ADDRESS
    }

    /// The text written to the transport for this command: the frame word in
    /// lowercase hexadecimal.
    pub fn wire_text(&self) -> (r: Vec<u8>)
        ensures
            r@ == wire_text_spec(*self),
    {
        render_hex(self.as_u32_le())
    }
}

/// The frames that a user command is delivered as: the command itself with no
/// pause, or for the power-on sequence two power toggles, each followed by a
/// pause of a few seconds.
pub fn expand(u: UserCommand) -> (r: Vec<Delivery>)
    ensures
        r@ == expansion(u),
        u == UserCommand::PowerOnHack ==> {
            &&& r@.len() == 2
            &&& r@[0].command == InfraredCommand::TogglePower
            &&& r@[1].command == InfraredCommand::TogglePower
            &&& r@[0].pause_ms is Some
            &&& r@[0].pause_ms->0 > 0
        },
        u != UserCommand::PowerOnHack ==> r@.len() == 1 && r@[0].pause_ms is None,
{
    match u {
        UserCommand::Direct(c) => vec![Delivery { command: c, pause_ms: None }],
        UserCommand::PowerOnHack => vec![
            Delivery { command: InfraredCommand::TogglePower, pause_ms: Some(POWER_ON_PAUSE_MS) },
            Delivery { command: InfraredCommand::TogglePower, pause_ms: Some(POWER_ON_PAUSE_MS) },
        ],
    }
}

/// Why a message could not be read as a command.
#[derive(Clone, Copy, Debug, PartialEq, Eq, Structural)]
pub enum MessageError {
    /// The topic does not start with the device's topic prefix.
    TopicPrefix,
    /// The topic names no known command.
    UnknownCommand,
    /// The payload of an input command names no known input.
    InvalidInput,
    /// The payload of a raw command is not a hexadecimal byte.
    InvalidRaw,
}

/// `jabu/pico-ir/`, the prefix of every command topic.
pub open spec fn topic_prefix() -> Seq<u8> {
    seq![106, 97, 98, 117, 47, 112, 105, 99, 111, 45, 105, 114, 47]
}

/// `power`.
pub open spec fn topic_power() -> Seq<u8> {
    seq![112, 111, 119, 101, 114]
}

/// `input`.
pub open spec fn topic_input() -> Seq<u8> {
    seq![105, 110, 112, 117, 116]
}

/// `raw`.
pub open spec fn topic_raw() -> Seq<u8> {
    seq![114, 97, 119]
}

/// `bluetooth`.
pub open spec fn name_bluetooth() -> Seq<u8> {
    seq![98, 108, 117, 101, 116, 111, 111, 116, 104]
}

/// `3.5mm`.
pub open spec fn name_analog_mini() -> Seq<u8> {
    seq![51, 46, 53, 109, 109]
}

/// `optical`.
pub open spec fn name_optical() -> Seq<u8> {
    seq![111, 112, 116, 105, 99, 97, 108]
}

/// `rca`.
pub open spec fn name_rca() -> Seq<u8> {
    seq![114, 99, 97]
}

/// The input that a name selects.
pub open spec fn input_named(s: Seq<u8>) -> Option<AudioInput> {
    if s == name_bluetooth() {
        Some(AudioInput::Bluetooth)
    } else if s == name_analog_mini() {
        Some(AudioInput::AnalogMini)
    } else if s == name_optical() {
        Some(AudioInput::Optical)
    } else if s == name_rca() {
        Some(AudioInput::Rca)
    } else {
        None
    }
}

/// The command that a message on `topic` with `payload` asks for.
pub open spec fn message_command(topic: Seq<u8>, payload: Seq<u8>) -> Result<
    InfraredCommand,
    MessageError,
> {
    let n = topic_prefix().len();
    if topic.len() < n || topic.take(n as int) != topic_prefix() {
        Err(MessageError::TopicPrefix)
    } else {
        let name = topic.skip(n as int);
        if name == topic_power() {
            Ok(InfraredCommand::TogglePower)
        } else if name == topic_input() {
            match input_named(payload) {
                Some(a) => Ok(InfraredCommand::SetInput(a)),
                None => Err(MessageError::InvalidInput),
            }
        } else if name == topic_raw() {
            match parse_hex_spec(payload, 255) {
                Some(v) => Ok(InfraredCommand::Raw(v as u8)),
                None => Err(MessageError::InvalidRaw),
            }
        } else {
            Err(MessageError::UnknownCommand)
        }
    }
}

/// Whether `w` stands in `s` from `start` on.
fn occurs_at(s: &[u8], start: usize, w: &[u8]) -> (r: bool)
    requires
        start <= s@.len(),
    ensures
        r == (start + w@.len() <= s@.len() && s@.subrange(start as int, start + w@.len())
            == w@),
{
    if w.len() > s.len() - start {
        return false;
    }
    let mut i: usize = 0;
    while i < w.len()
        invariant
            start + w@.len() <= s@.len(),
            s@.len() == s.len(),
            i <= w@.len(),
            s@.subrange(start as int, start + i) == w@.take(i as int),
        decreases w@.len() - i,
    {
        if s[start + i] != w[i] {
            assert(s@.subrange(start as int, start + w@.len())[i as int] != w@[i as int]);
            return false;
        }
        assert(s@.subrange(start as int, start + i + 1) =~= w@.take(i + 1));
        i = i + 1;
    }
    assert(w@.take(w@.len() as int) =~= w@);
    true
}

/// Whether `s` from `start` on is exactly `w`.
fn rest_equals(s: &[u8], start: usize, w: &[u8]) -> (r: bool)
    requires
        start <= s@.len(),
    ensures
        r == (s@.skip(start as int) == w@),
{
    let r = s.len() - start == w.len() && occurs_at(s, start, w);
    assert(s@.skip(start as int) == w@ ==> s@.subrange(start as int, start + w@.len())
        =~= s@.skip(start as int));
    assert(r ==> s@.subrange(start as int, start + w@.len()) =~= s@.skip(start as int));
    r
}

impl AudioInput {
    /// The input that `name` selects: `bluetooth`, `3.5mm`, `optical` or `rca`.
    pub fn from_name(name: &[u8]) -> (r: Option<AudioInput>)
        ensures
            r == input_named(name@),
    {
        let bluetooth: Vec<u8> = vec![98, 108, 117, 101, 116, 111, 111, 116, 104];
        let analog_mini: Vec<u8> = vec![51, 46, 53, 109, 109];
        let optical: Vec<u8> = vec![111, 112, 116, 105, 99, 97, 108];
        let rca: Vec<u8> = vec![114, 99, 97];
        assert(name@.skip(0) =~= name@);
        if rest_equals(name, 0, bluetooth.as_slice()) {
            Some(AudioInput::Bluetooth)
        } else if rest_equals(name, 0, analog_mini.as_slice()) {
            Some(AudioInput::AnalogMini)
        } else if rest_equals(name, 0, optical.as_slice()) {
            Some(AudioInput::Optical)
        } else if rest_equals(name, 0, rca.as_slice()) {
            Some(AudioInput::Rca)
        } else {
            None
        }
    }
}

impl InfraredCommand {
    /// The command that a message on `topic` with `payload` asks for: the
    /// topic is the device's prefix followed by `power`, `input` (the payload
    /// names the input) or `raw` (the payload is the opcode in hexadecimal).
    pub fn from_message(topic: &str, payload: &[u8]) -> (r: Result<InfraredCommand, MessageError>)
        ensures
            r == message_command(topic.spec_bytes(), payload@),
    {
        let t = topic.as_bytes();
        let prefix: Vec<u8> = vec![106, 97, 98, 117, 47, 112, 105, 99, 111, 45, 105, 114, 47];
        let power: Vec<u8> = vec![112, 111, 119, 101, 114];
        let input: Vec<u8> = vec![105, 110, 112, 117, 116];
        let raw: Vec<u8> = vec![114, 97, 119];
        if !occurs_at(t, 0, prefix.as_slice()) {
            assert(t@.len() >= prefix@.len() ==> t@.subrange(0, prefix@.len() as int) =~= t@.take(
                prefix@.len() as int,
            ));
            return Err(MessageError::TopicPrefix);
        }
        assert(t@.subrange(0, prefix@.len() as int) =~= t@.take(prefix@.len() as int));
        let n = prefix.len();
        if rest_equals(t, n, power.as_slice()) {
            Ok(InfraredCommand::TogglePower)
        } else if rest_equals(t, n, input.as_slice()) {
            match AudioInput::from_name(payload) {
                Some(a) => Ok(InfraredCommand::SetInput(a)),
                None => Err(MessageError::InvalidInput),
            }
        } else if rest_equals(t, n, raw.as_slice()) {
            match parse_hex(payload, 255) {
                Some(v) => Ok(InfraredCommand::Raw(v as u8)),
                None => Err(MessageError::InvalidRaw),
            }
        } else {
            Err(MessageError::UnknownCommand)
        }
    }
}

} // verus!
