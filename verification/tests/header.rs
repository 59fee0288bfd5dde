use speex_safe::{Header, Mode, ModeId, SpeexHeader};

#[test]
fn it_works() {
    let result = 2_i32 + 2;
    assert_eq!(result, 4);
}

#[test]
fn header_holds_stream_metadata() {
    let header = Header { sample_rate: 16000, mode: Mode::Wideband, variable_bit_rate: true };
    assert_eq!(header.sample_rate, 16000);
    assert_eq!(header.mode, Mode::Wideband);
    assert!(header.variable_bit_rate);
}

#[test]
fn version_string() {
    assert_eq!(Header::get_version_string(), "1.2rc2");
}

#[test]
fn mode_codes() {
    assert_eq!(Mode::Narrowband.to_id(), 0);
    assert_eq!(Mode::UltraWideband.to_id(), 2);
    assert_eq!(Mode::from_id(1), Some(Mode::Wideband));
    assert_eq!(Mode::from_id(-1), None);
    assert_eq!(Mode::from_id(3), None);
}

#[test]
fn new_header_takes_the_mode_numbers() {
    let mode = ModeId::WideBand.get_mode();
    let header = SpeexHeader::new(16000, 1, &mode);
    assert_eq!(header.speex_version_id, 1);
    assert_eq!(header.header_size, 80);
    assert_eq!(header.rate, 16000);
    assert_eq!(header.mode, 1);
    assert_eq!(header.nb_channels, 1);
    assert_eq!(header.bitrate, -1);
    assert_eq!(header.frame_size, 320);
    assert_eq!(header.vbr, 0);
}

#[test]
fn packet_layout() {
    let mode = ModeId::NarrowBand.get_mode();
    let header = SpeexHeader::new(8000, 1, &mode);
    let packet = header.make_packet();
    assert_eq!(packet.len(), 80);
    assert_eq!(&packet[0..8], b"Speex   ");
    assert_eq!(&packet[8..14], b"1.2rc2");
    assert!(packet[14..28].iter().all(|&b| b == 0));
    // rate 8000 = 0x1f40, little-endian at offset 36
    assert_eq!(&packet[36..40], &[0x40, 0x1f, 0x00, 0x00]);
    // mode code 0 at offset 40
    assert_eq!(&packet[40..44], &[0, 0, 0, 0]);
    // frame size 160 = 0xa0 at offset 56
    assert_eq!(&packet[56..60], &[0xa0, 0x00, 0x00, 0x00]);
    // bitrate -1 at offset 52
    assert_eq!(&packet[52..56], &[0xff, 0xff, 0xff, 0xff]);
}

#[test]
fn packet_roundtrip() {
    let mode = ModeId::UltraWideBand.get_mode();
    let mut header = SpeexHeader::new(32000, 2, &mode);
    header.vbr = 1;
    header.frames_per_packet = 3;
    let packet = header.make_packet();
    let parsed = SpeexHeader::from_packet(&packet).unwrap();
    assert_eq!(parsed, header);
}

#[test]
fn bad_packets_are_rejected() {
    assert_eq!(SpeexHeader::from_packet(&[0u8; 10]), None);
    let mut packet = vec![0u8; 80];
    assert_eq!(SpeexHeader::from_packet(&packet), None);
    packet[0..8].copy_from_slice(b"Speex   ");
    assert!(SpeexHeader::from_packet(&packet).is_some());
}
