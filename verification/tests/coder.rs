use speex_safe::{
    ControlError, ControlFunctions, DecoderError, DynamicEncoder, ModeId, NbMode, NbSubmodeId,
    SpeexBits, SpeexDecoder, SpeexDecoderHandle, SpeexEncoder, SpeexEncoderHandle, SpeexMode,
    UwbMode, UwbSubmodeId, WbMode, WbSubmodeId,
};

#[test]
fn set_quality() {
    let mut encoder = SpeexEncoder::<WbMode>::new();
    encoder.set_quality(10);
}

#[test]
fn get_frame_size() {
    let mut encoder = SpeexEncoder::<WbMode>::new();
    encoder.get_frame_size();
}

#[test]
fn encodes_frame_without_segfault() {
    let mut encoder = SpeexEncoder::<NbMode>::new();
    let mut bits = SpeexBits::new();
    let frame_size = encoder.get_frame_size();
    let mut input = vec![23i16; frame_size as usize];

    encoder.encode_int(&mut input, &mut bits).unwrap();
}

#[test]
fn frame_sizes_per_mode() {
    assert_eq!(ModeId::NarrowBand.get_frame_size(), 160);
    assert_eq!(ModeId::WideBand.get_frame_size(), 320);
    assert_eq!(ModeId::UltraWideBand.get_frame_size(), 640);
    assert_eq!(SpeexEncoder::<NbMode>::new().get_frame_size(), 160);
    assert_eq!(SpeexEncoder::<WbMode>::new().get_frame_size(), 320);
    assert_eq!(SpeexEncoder::<UwbMode>::new().get_frame_size(), 640);
}

#[test]
fn high_submode_set_then_get_returns_it() {
    let legal = [
        WbSubmodeId::NoQuantize,
        WbSubmodeId::QuantizedLow,
        WbSubmodeId::QuantizedMedium,
        WbSubmodeId::QuantizedHigh,
    ];
    for x in legal {
        let mut encoder = SpeexEncoder::<WbMode>::new();
        encoder.set_high_submode(x);
        assert_eq!(encoder.get_high_submode(), x);

        let mut decoder = SpeexDecoder::<WbMode>::new();
        decoder.set_high_submode(x);
        assert_eq!(decoder.get_high_submode(), x);
    }
}

#[test]
fn low_submode_set_then_get_returns_it() {
    let mut encoder = SpeexEncoder::<WbMode>::new();
    encoder.set_low_submode(NbSubmodeId::VeryLow);
    assert_eq!(encoder.get_low_submode(), NbSubmodeId::VeryLow);

    let mut encoder = SpeexEncoder::<NbMode>::new();
    encoder.set_submode(NbSubmodeId::ExtremeHigh);
    assert_eq!(encoder.get_submode(), NbSubmodeId::ExtremeHigh);

    let mut decoder = SpeexDecoder::<UwbMode>::new();
    decoder.set_low_submode(NbSubmodeId::Medium);
    assert_eq!(decoder.get_low_submode(), NbSubmodeId::Medium);
}

#[test]
fn decode_into_short_buffer_is_rejected_without_touching_the_stream() {
    let mut decoder = SpeexDecoder::<WbMode>::new();
    let mut bits = SpeexBits::new();
    bits.pack(0b01011, 5).unwrap();
    bits.rewind();
    let before = bits.remaining();
    let mut out = vec![7i16; 319];
    assert_eq!(decoder.decode_int(&mut bits, &mut out), Err(DecoderError::TooSmallBuffer));
    assert_eq!(bits.remaining(), before);
    assert!(out.iter().all(|&s| s == 7));
}

#[test]
fn dynamic_encoder_narrows_only_to_its_live_variant() {
    let wb = DynamicEncoder::new(ModeId::WideBand);
    assert!(wb.into_nb().is_none());
    let wb = DynamicEncoder::new(ModeId::WideBand);
    assert!(wb.into_wb().is_some());
    let wb = DynamicEncoder::new(ModeId::WideBand);
    assert!(wb.into_uwb().is_none());
    let nb = DynamicEncoder::new(ModeId::NarrowBand);
    assert!(nb.into_nb().is_some());
    let uwb = DynamicEncoder::new(ModeId::UltraWideBand);
    assert!(uwb.into_uwb().is_some());
}

#[test]
fn dynamic_encoder_complexity_and_encode() {
    let mut dynamic = DynamicEncoder::new(ModeId::NarrowBand);
    assert_eq!(dynamic.get_frame_size(), 160);
    assert_eq!(dynamic.get_complexity(), 2);
    dynamic.set_complexity(7);
    assert_eq!(dynamic.get_complexity(), 7);

    let mut bits = SpeexBits::new();
    let input = vec![0i16; 160];
    dynamic.encode_int(&input, &mut bits).unwrap();
    assert_eq!(bits.remaining(), 5);
}

#[test]
fn encode_then_decode_narrowband_adopts_the_submode() {
    let mut encoder = SpeexEncoder::<NbMode>::new();
    encoder.set_submode(NbSubmodeId::Low);
    let mut bits = SpeexBits::new();
    let input = vec![42i16; 160];
    encoder.encode_int(&input, &mut bits).unwrap();
    assert_eq!(bits.remaining(), 5);

    bits.rewind();
    let mut decoder = SpeexDecoder::<NbMode>::new();
    let out = decoder.decode_int_to_owned(&mut bits).unwrap();
    assert_eq!(out.len(), 160);
    assert!(out.iter().all(|&s| s == 0));
    assert_eq!(decoder.get_submode(), NbSubmodeId::Low);
    assert_eq!(bits.remaining(), 0);
}

#[test]
fn encode_then_decode_wideband_adopts_both_submodes() {
    let mut encoder = SpeexEncoder::<WbMode>::new();
    encoder.set_low_submode(NbSubmodeId::VeryHigh);
    encoder.set_high_submode(WbSubmodeId::QuantizedHigh);
    let mut bits = SpeexBits::new();
    let input = vec![1i16; 320];
    encoder.encode_int(&input, &mut bits).unwrap();
    assert_eq!(bits.remaining(), 10);

    bits.rewind();
    let mut decoder = SpeexDecoder::<WbMode>::new();
    let mut out = vec![9i16; 320];
    decoder.decode_int(&mut bits, &mut out).unwrap();
    assert!(out.iter().all(|&s| s == 0));
    assert_eq!(decoder.get_low_submode(), NbSubmodeId::VeryHigh);
    assert_eq!(decoder.get_high_submode(), WbSubmodeId::QuantizedHigh);
}

#[test]
fn decoder_recognizes_the_terminator() {
    let mut encoder = SpeexEncoder::<NbMode>::new();
    let mut bits = SpeexBits::new();
    let input = vec![0i16; 160];
    encoder.encode_int(&input, &mut bits).unwrap();
    bits.insert_terminator().unwrap();

    bits.rewind();
    let mut decoder = SpeexDecoder::<NbMode>::new();
    let mut out = vec![0i16; 160];
    assert_eq!(decoder.decode_int(&mut bits, &mut out), Ok(()));
    assert_eq!(decoder.decode_int(&mut bits, &mut out), Err(DecoderError::EndOfStream));
    assert_eq!(bits.remaining(), 0);
}

#[test]
fn decoder_rejects_ill_formed_framing() {
    let mut decoder = SpeexDecoder::<NbMode>::new();
    let mut out = vec![0i16; 160];

    let mut bits = SpeexBits::new();
    bits.pack(1, 1).unwrap();
    bits.pack(3, 4).unwrap();
    bits.rewind();
    assert_eq!(decoder.decode_int(&mut bits, &mut out), Err(DecoderError::CorruptStream));

    let mut bits = SpeexBits::new();
    bits.pack(0, 1).unwrap();
    bits.pack(12, 4).unwrap();
    bits.rewind();
    assert_eq!(decoder.decode_int(&mut bits, &mut out), Err(DecoderError::CorruptStream));
}

#[test]
fn decoder_reports_the_end_of_a_truncated_stream() {
    let mut decoder = SpeexDecoder::<NbMode>::new();
    let mut out = vec![0i16; 160];

    let mut bits = SpeexBits::new();
    assert_eq!(decoder.decode_int(&mut bits, &mut out), Err(DecoderError::EndOfStream));

    bits.pack(0b011, 3).unwrap();
    bits.rewind();
    assert_eq!(decoder.decode_int(&mut bits, &mut out), Err(DecoderError::EndOfStream));

    let mut wide = SpeexDecoder::<WbMode>::new();
    let mut wide_out = vec![0i16; 320];
    let mut bits = SpeexBits::new();
    bits.pack(0b00011, 5).unwrap();
    bits.rewind();
    assert_eq!(wide.decode_int(&mut bits, &mut wide_out), Err(DecoderError::EndOfStream));
}

#[test]
fn control_accessors_store_and_return_their_values() {
    let mut encoder = SpeexEncoder::<WbMode>::new();
    assert!(!encoder.get_vbr());
    encoder.set_vbr(true);
    assert!(encoder.get_vbr());

    assert!(!encoder.get_vad());
    encoder.set_vad(true);
    assert!(encoder.get_vad());

    encoder.set_abr(2000);
    assert_eq!(encoder.get_abr(), 2000);

    encoder.set_bitrate(3950);
    assert_eq!(encoder.get_bitrate(), 3950);

    assert_eq!(encoder.get_sampling_rate(), 16000);
    encoder.set_sampling_rate(3950);
    assert_eq!(encoder.get_sampling_rate(), 3950);

    assert_eq!(encoder.get_complexity(), 2);
    encoder.set_complexity(5);
    assert_eq!(encoder.get_complexity(), 5);

    assert!(encoder.get_submode_encoding());
    encoder.set_submode_encoding(false);
    assert!(!encoder.get_submode_encoding());

    assert_eq!(encoder.get_lookahead(), 0);

    encoder.set_plc_tuning(40);
    assert_eq!(encoder.get_plc_tuning(), 40);

    encoder.set_vbr_max_bitrate(28000);
    assert_eq!(encoder.get_vbr_max_bitrate(), 28000);

    assert!(encoder.get_highpass());
    encoder.set_highpass(false);
    assert!(!encoder.get_highpass());
}

#[test]
fn reset_state_keeps_the_control_settings() {
    let mut encoder = SpeexEncoder::<NbMode>::new();
    encoder.set_vbr(true);
    encoder.set_bitrate(8000);
    encoder.reset_state();
    assert!(encoder.get_vbr());
    assert_eq!(encoder.get_bitrate(), 8000);
}

#[test]
fn decoder_enhancement_defaults_on() {
    let mut decoder = SpeexDecoder::<NbMode>::new();
    assert!(decoder.get_enhancement());
    decoder.set_enhancement(false);
    assert!(!decoder.get_enhancement());
}

#[test]
fn check_error_translates_status_codes() {
    assert_eq!(SpeexEncoder::<NbMode>::check_error(0, None), Ok(()));
    assert_eq!(
        SpeexEncoder::<NbMode>::check_error(-1, Some(7)),
        Err(ControlError::UnknownRequest(7))
    );
    assert_eq!(
        SpeexEncoder::<NbMode>::check_error(-2, None),
        Err(ControlError::InvalidParameter)
    );
}

#[test]
fn ctl_rejects_unknown_requests_and_bad_parameters() {
    let mut encoder = SpeexEncoder::<NbMode>::new();
    let mut slot = 0i32;
    assert_eq!(encoder.ctl(99, &mut slot), Err(ControlError::UnknownRequest(99)));
    let mut bad = 0i32;
    assert_eq!(encoder.ctl(8, &mut bad), Err(ControlError::InvalidParameter));
    let mut high = 1i32;
    assert_eq!(encoder.ctl(10, &mut high), Err(ControlError::UnknownRequest(10)));
}

#[test]
fn mode_and_submode_tables() {
    assert_eq!(ModeId::from_id(0), Some(ModeId::NarrowBand));
    assert_eq!(ModeId::from_id(2), Some(ModeId::UltraWideBand));
    assert_eq!(ModeId::from_id(3), None);
    assert_eq!(ModeId::WideBand.to_id(), 1);

    assert_eq!(NbSubmodeId::from_id(5), Some(NbSubmodeId::High));
    assert_eq!(NbSubmodeId::from_id(8), Some(NbSubmodeId::ExtremeLow));
    assert_eq!(NbSubmodeId::from_id(0), None);
    assert_eq!(NbSubmodeId::from_id(9), None);
    assert_eq!(NbSubmodeId::VocoderLike.to_id(), 1);

    assert_eq!(WbSubmodeId::from_id(4), Some(WbSubmodeId::QuantizedHigh));
    assert_eq!(WbSubmodeId::from_id(5), None);
    assert_eq!(UwbSubmodeId::from_id(1), Some(UwbSubmodeId::Only));
    assert_eq!(UwbSubmodeId::from_id(2), None);
    assert_eq!(UwbSubmodeId::Only.to_id(), 1);
}

#[test]
fn mode_descriptors() {
    let mode = ModeId::WideBand.get_mode();
    assert_eq!(mode.mode_id, ModeId::WideBand);
    assert_eq!(mode.frame_size, 320);
    let again = SpeexMode::new(ModeId::WideBand);
    assert_eq!(mode, again);
}

#[test]
fn handles_are_created_and_destroyed_once() {
    let mode = ModeId::NarrowBand.get_mode();
    let encoder_handle = SpeexEncoderHandle::create(&mode);
    SpeexEncoderHandle::destroy(encoder_handle);
    let decoder_handle = SpeexDecoderHandle::create(&mode);
    SpeexDecoderHandle::destroy(decoder_handle);
}

#[test]
fn default_coders_match_fresh_ones() {
    let mut encoder = SpeexEncoder::<NbMode>::default();
    assert_eq!(encoder.get_submode(), NbSubmodeId::High);
    let mut decoder = SpeexDecoder::<WbMode>::default();
    assert_eq!(decoder.get_high_submode(), WbSubmodeId::QuantizedMedium);
    let mut uwb = SpeexDecoder::<UwbMode>::default();
    assert_eq!(uwb.get_low_submode(), NbSubmodeId::High);
    let _ = SpeexEncoder::<WbMode>::default();
    let _ = SpeexEncoder::<UwbMode>::default();
    let _ = SpeexDecoder::<NbMode>::default();
}

#[test]
fn error_messages() {
    assert_eq!(
        ControlError::UnknownRequest(3).message(),
        "unknown request type passed to a control function"
    );
    assert_eq!(ControlError::InvalidParameter.message(), "invalid parameter");
    assert_eq!(DecoderError::TooSmallBuffer.message(), "buffer is too small to decode into");
    assert_eq!(DecoderError::EndOfStream.message(), "end of stream reached while decoding");
    assert_eq!(DecoderError::CorruptStream.message(), "corrupt stream was unable to be decoded");
}
