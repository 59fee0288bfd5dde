use speex_safe::{BitsError, SpeexBits};

#[test]
fn creates_and_drops() {
    {
        let mut bits = SpeexBits::new();
        let num_bytes = bits.num_bytes();
        assert_eq!(num_bytes, 0);
    }
}

#[test]
fn encodes_value() {
    let mut bits = SpeexBits::new();
    bits.pack(1, 1).unwrap();
    let num_bytes = bits.num_bytes();
    assert_eq!(num_bytes, 1);
}

#[test]
fn pack_unpack_roundtrip() {
    let mut bits = SpeexBits::new();
    bits.pack(11, 4).unwrap();
    bits.rewind();
    assert_eq!(bits.unpacked_unsigned(4).unwrap(), 11);

    let mut bits = SpeexBits::new();
    bits.pack(0, 1).unwrap();
    bits.rewind();
    assert_eq!(bits.unpacked_unsigned(1).unwrap(), 0);

    let mut bits = SpeexBits::new();
    bits.pack(0xdead_beef, 32).unwrap();
    bits.rewind();
    assert_eq!(bits.unpacked_unsigned(32).unwrap(), 0xdead_beef);
}

#[test]
fn pack_roundtrip_all_five_bit_values() {
    for v in 0u32..32 {
        let mut bits = SpeexBits::new();
        bits.pack(v, 5).unwrap();
        bits.rewind();
        assert_eq!(bits.unpacked_unsigned(5).unwrap(), v);
    }
}

#[test]
fn pack_zero_bits_is_a_no_op() {
    let mut bits = SpeexBits::new();
    bits.pack(7, 0).unwrap();
    assert_eq!(bits.num_bytes(), 0);
    assert_eq!(bits.remaining(), 0);
}

#[test]
fn pack_keeps_only_the_low_bits() {
    let mut bits = SpeexBits::new();
    bits.pack(0xff, 4).unwrap();
    bits.rewind();
    assert_eq!(bits.unpacked_unsigned(4).unwrap(), 0xf);
}

#[test]
fn byte_count_rounds_the_partial_byte_up() {
    let mut bits = SpeexBits::new();
    bits.pack(5, 3).unwrap();
    assert_eq!(bits.num_bytes(), 1);
    bits.pack(1000, 10).unwrap();
    assert_eq!(bits.num_bytes(), 2);
    bits.pack(1, 3).unwrap();
    assert_eq!(bits.num_bytes(), 2);
    bits.pack(0, 1).unwrap();
    assert_eq!(bits.num_bytes(), 3);
}

#[test]
fn reset_clears_counts() {
    let mut bits = SpeexBits::new();
    bits.pack(123, 12).unwrap();
    bits.reset();
    assert_eq!(bits.num_bytes(), 0);
    assert_eq!(bits.remaining(), 0);
}

#[test]
fn rewind_keeps_content_and_restores_remaining() {
    let mut bits = SpeexBits::new();
    bits.pack(123, 12).unwrap();
    bits.rewind();
    let before = bits.num_bytes();
    assert_eq!(bits.remaining(), 12);
    bits.unpacked_unsigned(5).unwrap();
    assert_eq!(bits.remaining(), 7);
    bits.rewind();
    assert_eq!(bits.num_bytes(), before);
    assert_eq!(bits.remaining(), 12);
    assert_eq!(bits.unpacked_unsigned(12).unwrap(), 123);
}

#[test]
fn peek_does_not_advance() {
    let mut bits = SpeexBits::new();
    bits.pack(0b101, 3).unwrap();
    bits.rewind();
    assert_eq!(bits.peek().unwrap(), 1);
    assert_eq!(bits.peek().unwrap(), 1);
    assert_eq!(bits.peek_unsigned(3).unwrap(), 0b101);
    assert_eq!(bits.remaining(), 3);
    assert_eq!(bits.unpacked_unsigned(3).unwrap(), 0b101);
    assert_eq!(bits.remaining(), 0);
}

#[test]
fn unpack_signed_sign_extends() {
    let mut bits = SpeexBits::new();
    bits.pack(0b1111, 4).unwrap();
    bits.rewind();
    assert_eq!(bits.unpack_signed(4).unwrap(), -1);

    let mut bits = SpeexBits::new();
    bits.pack(0b0111, 4).unwrap();
    bits.rewind();
    assert_eq!(bits.unpack_signed(4).unwrap(), 7);

    let mut bits = SpeexBits::new();
    bits.pack(0xffff_fffe, 32).unwrap();
    bits.rewind();
    assert_eq!(bits.unpack_signed(32).unwrap(), -2);
}

#[test]
fn advance_skips_bits() {
    let mut bits = SpeexBits::new();
    bits.pack(0b10, 2).unwrap();
    bits.pack(0b0110, 4).unwrap();
    bits.rewind();
    bits.advance(2).unwrap();
    assert_eq!(bits.unpacked_unsigned(4).unwrap(), 0b0110);
    assert_eq!(bits.advance(1), Err(BitsError::EndOfBuffer));
}

#[test]
fn reading_past_the_end_fails() {
    let mut bits = SpeexBits::new();
    bits.pack(3, 2).unwrap();
    bits.rewind();
    assert_eq!(bits.unpacked_unsigned(3), Err(BitsError::EndOfBuffer));
    assert_eq!(bits.remaining(), 2);
    assert_eq!(bits.peek_unsigned(3), Err(BitsError::EndOfBuffer));
    bits.unpacked_unsigned(2).unwrap();
    assert_eq!(bits.peek(), Err(BitsError::EndOfBuffer));
}

#[test]
fn fixed_capacity_overflows_are_checked() {
    let mut bits = SpeexBits::new_with_buffer(vec![0u8; 1]);
    bits.pack(0b1010, 4).unwrap();
    assert_eq!(bits.pack(0x1f, 5), Err(BitsError::CapacityExceeded));
    assert_eq!(bits.remaining(), 4);
    bits.pack(0xf, 4).unwrap();
    assert_eq!(bits.pack(1, 1), Err(BitsError::CapacityExceeded));
    bits.rewind();
    assert_eq!(bits.unpacked_unsigned(8).unwrap(), 0b1010_1111);
}

#[test]
fn write_pads_the_last_byte_with_zeros() {
    let mut bits = SpeexBits::new();
    bits.pack(0xab, 8).unwrap();
    bits.pack(0b101, 3).unwrap();
    let mut buffer = vec![0xffu8; 4];
    let written = bits.write(&mut buffer);
    assert_eq!(written, 2);
    assert_eq!(buffer, vec![0xab, 0b1010_0000, 0xff, 0xff]);
}

#[test]
fn write_truncates_to_the_buffer() {
    let mut bits = SpeexBits::new();
    bits.pack(0xaabb, 16).unwrap();
    bits.pack(0xcc, 8).unwrap();
    let mut buffer = vec![0u8; 2];
    let written = bits.write(&mut buffer);
    assert_eq!(written, 2);
    assert_eq!(buffer, vec![0xaa, 0xbb]);
}

#[test]
fn write_whole_bytes_flushes_and_shifts() {
    let mut bits = SpeexBits::new();
    bits.pack(0xab, 8).unwrap();
    bits.pack(0b1011, 4).unwrap();
    let mut buffer = vec![0u8; 4];
    let flushed = bits.write_whole_bytes(&mut buffer);
    assert_eq!(flushed, 1);
    assert_eq!(buffer[0], 0xab);
    assert_eq!(bits.remaining(), 4);
    bits.rewind();
    assert_eq!(bits.unpacked_unsigned(4).unwrap(), 0b1011);
}

#[test]
fn read_from_replaces_the_content() {
    let mut bits = SpeexBits::new();
    bits.pack(1, 1).unwrap();
    bits.read_from(&[0xab, 0xcd]).unwrap();
    assert_eq!(bits.num_bytes(), 2);
    assert_eq!(bits.remaining(), 16);
    assert_eq!(bits.unpacked_unsigned(16).unwrap(), 0xabcd);
}

#[test]
fn read_whole_bytes_appends() {
    let mut bits = SpeexBits::new();
    bits.pack(0xab, 8).unwrap();
    bits.read_whole_bytes(&[0xcd]).unwrap();
    bits.rewind();
    assert_eq!(bits.unpacked_unsigned(16).unwrap(), 0xabcd);
}

#[test]
fn set_bit_buffer_takes_the_bytes_as_content() {
    let mut bits = SpeexBits::new();
    bits.set_bit_buffer(vec![0x12, 0x34]);
    assert_eq!(bits.remaining(), 16);
    assert_eq!(bits.unpacked_unsigned(16).unwrap(), 0x1234);
    assert_eq!(bits.pack(0, 1), Err(BitsError::CapacityExceeded));
}

#[test]
fn write_then_read_from_restores_the_stream() {
    let mut bits = SpeexBits::new();
    bits.pack(0xabc, 12).unwrap();
    let mut packet = vec![0u8; 2];
    assert_eq!(bits.write(&mut packet), 2);

    let mut reloaded = SpeexBits::new();
    reloaded.read_from(&packet).unwrap();
    assert_eq!(reloaded.remaining(), 16);
    assert_eq!(reloaded.unpacked_unsigned(12).unwrap(), 0xabc);
    // the padding bits of the trailing partial byte read as zero
    assert_eq!(reloaded.unpacked_unsigned(4).unwrap(), 0);
}

#[test]
fn buffer_exposes_the_backing_bytes() {
    let mut bits = SpeexBits::new();
    bits.pack(0xab, 8).unwrap();
    assert_eq!(bits.buffer()[0], 0xab);
}

#[test]
fn insert_terminator_appends_the_sentinel() {
    let mut bits = SpeexBits::new();
    bits.insert_terminator().unwrap();
    assert_eq!(bits.remaining(), 5);
    assert_eq!(bits.unpacked_unsigned(5).unwrap(), 15);
}

#[test]
fn default_is_an_empty_owned_buffer() {
    let mut bits = SpeexBits::default();
    assert_eq!(bits.num_bytes(), 0);
    bits.pack(1, 1).unwrap();
    assert_eq!(bits.num_bytes(), 1);
}

#[test]
fn bits_error_messages() {
    assert_eq!(BitsError::CapacityExceeded.message(), "capacity exceeded");
    assert_eq!(BitsError::EndOfBuffer.message(), "end of buffer");
}
