use pico_ir::codec::{expand, AudioInput, Delivery, InfraredCommand, MessageError, UserCommand};
use pico_ir::hex::{parse_hex, render_hex};
use pico_ir::ingress::{ingest, Ingress};

fn text(b: Vec<u8>) -> String {
    String::from_utf8(b).unwrap()
}

#[test]
fn opcode_table() {
    assert_eq!(InfraredCommand::TogglePower.as_u8(), 0x66);
    assert_eq!(InfraredCommand::SetInput(AudioInput::Bluetooth).as_u8(), 0x86);
    assert_eq!(InfraredCommand::SetInput(AudioInput::AnalogMini).as_u8(), 0x97);
    assert_eq!(InfraredCommand::SetInput(AudioInput::Optical).as_u8(), 0x88);
    assert_eq!(InfraredCommand::SetInput(AudioInput::Rca).as_u8(), 0x96);
    assert_eq!(InfraredCommand::Raw(0x5a).as_u8(), 0x5a);
}

#[test]
fn every_frame_word_carries_address_and_check_byte() {
    for op in 0..=255u8 {
        let w = InfraredCommand::Raw(op).as_u32_le();
        assert_eq!(w & 0xffff, 0x2385);
        assert_eq!((w >> 16) & 0xff, !(w >> 24) & 0xff);
        assert_eq!(w >> 24, op as u32);
    }
}

#[test]
fn set_input_optical_end_to_end() {
    let c = InfraredCommand::SetInput(AudioInput::Optical);
    assert_eq!(c.as_u8(), 0x88);
    assert_eq!(c.as_u32_le(), 0x88772385);
    assert_eq!(text(c.wire_text()), "88772385");
    assert_eq!(ingest(&c.wire_text()), Ingress::Word(0x88772385));
}

#[test]
fn raw_command_end_to_end() {
    let c = InfraredCommand::Raw(0x12);
    assert_eq!(c.as_u32_le(), 0x12ed2385);
    assert_eq!(text(c.wire_text()), "12ed2385");
    assert_eq!(ingest(&c.wire_text()), Ingress::Word(0x12ed2385));
}

#[test]
fn toggle_power_wire_text() {
    assert_eq!(InfraredCommand::TogglePower.as_u32_le(), 0x66992385);
    assert_eq!(text(InfraredCommand::TogglePower.wire_text()), "66992385");
}

#[test]
fn expand_power_on_hack() {
    let r = expand(UserCommand::PowerOnHack);
    let toggle = Delivery { command: InfraredCommand::TogglePower, pause_ms: Some(3000) };
    assert_eq!(r, vec![toggle, toggle]);
}

#[test]
fn expand_direct_command() {
    let c = InfraredCommand::Raw(7);
    assert_eq!(expand(UserCommand::Direct(c)), vec![Delivery { command: c, pause_ms: None }]);
}

#[test]
fn render_hex_has_no_leading_zeros() {
    assert_eq!(text(render_hex(0)), "0");
    assert_eq!(text(render_hex(0xf)), "f");
    assert_eq!(text(render_hex(0x10)), "10");
    assert_eq!(text(render_hex(0x00ab_cdef)), "abcdef");
    assert_eq!(text(render_hex(u32::MAX)), "ffffffff");
}

#[test]
fn hex_round_trip_on_samples() {
    let samples = [0u32, 1, 9, 10, 15, 16, 255, 256, 0x1234, 0xfffff, 0x0100_0000, 0x8000_0000, u32::MAX];
    for w in samples {
        assert_eq!(parse_hex(&render_hex(w), u32::MAX), Some(w));
    }
    let mut w: u32 = 1;
    while w < 0xf000_0000 {
        assert_eq!(parse_hex(&render_hex(w), u32::MAX), Some(w));
        assert_eq!(parse_hex(&render_hex(w - 1), u32::MAX), Some(w - 1));
        w = w * 3 + 1;
    }
}

#[test]
fn parse_hex_accepts_what_a_hex_number_is() {
    assert_eq!(parse_hex(b"ABCdef", u32::MAX), Some(0xabcdef));
    assert_eq!(parse_hex(b"+1f", u32::MAX), Some(0x1f));
    assert_eq!(parse_hex(b"0000000001", u32::MAX), Some(1));
    assert_eq!(parse_hex(b"ff", 255), Some(255));
}

#[test]
fn parse_hex_rejects_other_text() {
    assert_eq!(parse_hex(b"", u32::MAX), None);
    assert_eq!(parse_hex(b"+", u32::MAX), None);
    assert_eq!(parse_hex(b"-1", u32::MAX), None);
    assert_eq!(parse_hex(b"zz", u32::MAX), None);
    assert_eq!(parse_hex(b"12 3", u32::MAX), None);
    assert_eq!(parse_hex(b"100000000", u32::MAX), None);
    assert_eq!(parse_hex(b"100", 255), None);
}

#[test]
fn ingest_empty_chunk_is_idle() {
    assert_eq!(ingest(b""), Ingress::Idle);
}

#[test]
fn ingest_non_hex_is_malformed() {
    assert_eq!(ingest(b"zz"), Ingress::Malformed);
    assert_eq!(ingest(&[0xc3, 0x28]), Ingress::Malformed);
    assert_eq!(ingest(b"123456789"), Ingress::Malformed);
}

#[test]
fn ingest_short_word() {
    assert_eq!(ingest(b"2385"), Ingress::Word(0x2385));
}

#[test]
fn audio_input_names() {
    assert_eq!(AudioInput::from_name(b"bluetooth"), Some(AudioInput::Bluetooth));
    assert_eq!(AudioInput::from_name(b"3.5mm"), Some(AudioInput::AnalogMini));
    assert_eq!(AudioInput::from_name(b"optical"), Some(AudioInput::Optical));
    assert_eq!(AudioInput::from_name(b"rca"), Some(AudioInput::Rca));
    assert_eq!(AudioInput::from_name(b"RCA"), None);
    assert_eq!(AudioInput::from_name(b"rcaa"), None);
    assert_eq!(AudioInput::from_name(b""), None);
}

#[test]
fn messages_read_as_commands() {
    assert_eq!(
        InfraredCommand::from_message("jabu/pico-ir/power", b"anything"),
        Ok(InfraredCommand::TogglePower)
    );
    assert_eq!(
        InfraredCommand::from_message("jabu/pico-ir/input", b"optical"),
        Ok(InfraredCommand::SetInput(AudioInput::Optical))
    );
    assert_eq!(
        InfraredCommand::from_message("jabu/pico-ir/raw", b"12"),
        Ok(InfraredCommand::Raw(0x12))
    );
}

#[test]
fn messages_that_are_rejected() {
    assert_eq!(
        InfraredCommand::from_message("other/pico-ir/power", b""),
        Err(MessageError::TopicPrefix)
    );
    assert_eq!(InfraredCommand::from_message("jabu/pico-ir", b""), Err(MessageError::TopicPrefix));
    assert_eq!(
        InfraredCommand::from_message("jabu/pico-ir/volume", b""),
        Err(MessageError::UnknownCommand)
    );
    assert_eq!(
        InfraredCommand::from_message("jabu/pico-ir/powerx", b""),
        Err(MessageError::UnknownCommand)
    );
    assert_eq!(
        InfraredCommand::from_message("jabu/pico-ir/input", b"vinyl"),
        Err(MessageError::InvalidInput)
    );
    assert_eq!(
        InfraredCommand::from_message("jabu/pico-ir/raw", b"1ff"),
        Err(MessageError::InvalidRaw)
    );
    assert_eq!(InfraredCommand::from_message("jabu/pico-ir/raw", b""), Err(MessageError::InvalidRaw));
}
