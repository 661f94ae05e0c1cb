use wav::bit_depth::BitDepth;
use wav::error::WavError;
use wav::header::{Header, WAV_FORMAT_IEEE_FLOAT, WAV_FORMAT_PCM};

/// One chunk as it stands in a stream, built by hand.
fn chunk(id: &[u8; 4], contents: &[u8]) -> Vec<u8> {
    let mut out = Vec::new();
    out.extend_from_slice(id);
    out.extend_from_slice(&(contents.len() as u32).to_le_bytes());
    out.extend_from_slice(contents);
    if contents.len() % 2 == 1 {
        out.push(0);
    }
    out
}

/// A stream of the given form type and chunks, built by hand.
fn form(form_type: &[u8; 4], chunks: &[Vec<u8>]) -> Vec<u8> {
    let mut body = Vec::new();
    body.extend_from_slice(form_type);
    for c in chunks {
        body.extend_from_slice(c);
    }
    let mut out = Vec::new();
    out.extend_from_slice(b"RIFF");
    out.extend_from_slice(&(body.len() as u32).to_le_bytes());
    out.extend_from_slice(&body);
    out
}

/// The sixteen bytes of a format chunk, built by hand.
fn fmt_bytes(format: u16, channels: u16, rate: u32, per_second: u32, per_sample: u16, bits: u16) -> Vec<u8> {
    let mut out = Vec::new();
    out.extend_from_slice(&format.to_le_bytes());
    out.extend_from_slice(&channels.to_le_bytes());
    out.extend_from_slice(&rate.to_le_bytes());
    out.extend_from_slice(&per_second.to_le_bytes());
    out.extend_from_slice(&per_sample.to_le_bytes());
    out.extend_from_slice(&bits.to_le_bytes());
    out
}

/// A stereo sine at 48 kHz, one value in -1.0..=1.0 for each channel of each frame.
fn sine(frames: usize) -> Vec<f64> {
    let mut out = Vec::new();
    for i in 0..frames {
        let phase = (i as f64) * 440.0 * 2.0 * std::f64::consts::PI / 48_000.0;
        out.push(phase.sin());
        out.push(phase.cos());
    }
    out
}

fn wave(fmt: &[u8], data: &[u8]) -> Vec<u8> {
    form(b"WAVE", &[chunk(b"fmt ", fmt), chunk(b"data", data)])
}

#[test]
fn sine_8bit_48khz() {
    let mut data = Vec::new();
    for s in sine(200) {
        data.push((128.0 + 127.0 * s) as u8);
    }
    let raw = wave(&fmt_bytes(1, 2, 48_000, 96_000, 2, 8), &data);

    let (header, track) = wav::read(&raw).unwrap();

    assert_eq!(header.audio_format, 0x01);
    assert_eq!(header.channel_count, 2);
    assert_eq!(header.sampling_rate, 48_000);
    assert_eq!(header.bits_per_sample, 8);
    assert_eq!(header.bytes_per_sample, 2);
    assert_eq!(header.bytes_per_second, 96_000);
    assert!(wav::bit_depth::BitDepth::is_eight(&track));
    assert_eq!(track.as_eight().unwrap(), &data);

    let mut out = Vec::new();
    wav::write(header, &track, &mut out).unwrap();
    assert_eq!(raw, out);
}

#[test]
fn sine_16bit_48khz() {
    let mut data = Vec::new();
    let mut samples = Vec::new();
    for s in sine(200) {
        let v = (32_767.0 * s) as i16;
        samples.push(v);
        data.extend_from_slice(&v.to_le_bytes());
    }
    let raw = wave(&fmt_bytes(1, 2, 48_000, 192_000, 4, 16), &data);

    let (header, track) = wav::read(&raw).unwrap();

    assert_eq!(header.audio_format, 0x01);
    assert_eq!(header.channel_count, 2);
    assert_eq!(header.sampling_rate, 48_000);
    assert_eq!(header.bits_per_sample, 16);
    assert_eq!(header.bytes_per_sample, 4);
    assert_eq!(header.bytes_per_second, 192_000);
    assert!(wav::bit_depth::BitDepth::is_sixteen(&track));
    assert_eq!(track.as_sixteen().unwrap(), &samples);

    let mut out = Vec::new();
    wav::write(header, &track, &mut out).unwrap();
    assert_eq!(raw, out);
}

#[test]
fn sine_24bit_48khz() {
    let mut data = Vec::new();
    for s in sine(201) {
        let v = (8_388_607.0 * s) as i32;
        data.extend_from_slice(&v.to_le_bytes()[0..3]);
    }
    let raw = wave(&fmt_bytes(1, 2, 48_000, 288_000, 6, 24), &data);

    let (header, track) = wav::read(&raw).unwrap();

    assert_eq!(header.audio_format, 0x01);
    assert_eq!(header.channel_count, 2);
    assert_eq!(header.sampling_rate, 48_000);
    assert_eq!(header.bits_per_sample, 24);
    assert_eq!(header.bytes_per_sample, 6);
    assert_eq!(header.bytes_per_second, 288_000);
    assert!(wav::bit_depth::BitDepth::is_twenty_four(&track));
    assert_eq!(track.as_twenty_four().unwrap().len(), 402);

    let mut out = Vec::new();
    wav::write(header, &track, &mut out).unwrap();
    assert_eq!(raw, out);
}

#[test]
fn sine_32bit_float_48khz() {
    let mut data = Vec::new();
    let mut bits = Vec::new();
    for s in sine(200) {
        let v = s as f32;
        bits.push(v.to_bits());
        data.extend_from_slice(&v.to_le_bytes());
    }
    let raw = wave(&fmt_bytes(3, 2, 48_000, 384_000, 8, 32), &data);

    let (header, track) = wav::read(&raw).unwrap();

    assert_eq!(header.audio_format, 0x03);
    assert_eq!(header.channel_count, 2);
    assert_eq!(header.sampling_rate, 48_000);
    assert_eq!(header.bits_per_sample, 32);
    assert_eq!(header.bytes_per_sample, 8);
    assert_eq!(header.bytes_per_second, 384_000);
    assert!(wav::bit_depth::BitDepth::is_thirty_two_float(&track));
    assert_eq!(track.as_thirty_two_float().unwrap(), &bits);
    assert_eq!(f32::from_bits(bits[1]), 1.0);

    let mut out = Vec::new();
    wav::write(header, &track, &mut out).unwrap();
    assert_eq!(raw, out);
}

#[test]
fn derived_fields_follow_the_formula_for_each_depth() {
    for (format, bits) in [(WAV_FORMAT_PCM, 8u16), (WAV_FORMAT_PCM, 16), (WAV_FORMAT_PCM, 24), (WAV_FORMAT_IEEE_FLOAT, 32)] {
        let made = Header::new(format, 2, 48_000, bits);
        let raw = wave(&<[u8; 16]>::from(made), &[0u8; 24]);
        let (header, _) = wav::read(&raw).unwrap();
        assert!(header.audio_format == 1 || header.audio_format == 3);
        assert_eq!(header.channel_count, 2);
        assert_eq!(header.sampling_rate, 48_000);
        assert_eq!(header.bytes_per_sample, (bits / 8) * 2);
        assert_eq!(header.bytes_per_second, u32::from((bits / 8) * 2) * 48_000);
    }
}

#[test]
fn write_gives_the_exact_stream() {
    let header = Header::new(WAV_FORMAT_PCM, 1, 8_000, 16);
    let track = BitDepth::Sixteen(vec![1, -2, 0x1234]);
    let mut out = Vec::new();
    assert_eq!(wav::write(header, &track, &mut out), Ok(()));
    let expected: Vec<u8> = vec![
        b'R', b'I', b'F', b'F', 42, 0, 0, 0, b'W', b'A', b'V', b'E',
        b'f', b'm', b't', b' ', 16, 0, 0, 0,
        1, 0, 1, 0, 0x40, 0x1f, 0, 0, 0x80, 0x3e, 0, 0, 2, 0, 16, 0,
        b'd', b'a', b't', b'a', 6, 0, 0, 0,
        1, 0, 0xfe, 0xff, 0x34, 0x12,
    ];
    assert_eq!(out, expected);
}

#[test]
fn write_of_two_sixteen_bit_samples() {
    let header = Header::new(1, 1, 8_000, 16);
    let track = BitDepth::Sixteen(vec![1, -2]);
    let mut out = Vec::new();
    assert_eq!(wav::write(header, &track, &mut out), Ok(()));
    let mut expected = Vec::new();
    expected.extend_from_slice(b"RIFF");
    expected.extend_from_slice(&[40, 0, 0, 0]);
    expected.extend_from_slice(b"WAVE");
    expected.extend_from_slice(b"fmt ");
    expected.extend_from_slice(&[16, 0, 0, 0]);
    expected.extend_from_slice(&[1, 0, 1, 0, 0x40, 0x1f, 0, 0, 0x80, 0x3e, 0, 0, 2, 0, 16, 0]);
    expected.extend_from_slice(b"data");
    expected.extend_from_slice(&[4, 0, 0, 0]);
    expected.extend_from_slice(&[0x01, 0x00, 0xfe, 0xff]);
    assert_eq!(expected.len(), 48);
    assert_eq!(out, expected);
}

#[test]
fn write_of_two_twenty_four_bit_samples() {
    let header = Header::new(1, 1, 8_000, 24);
    let track = BitDepth::TwentyFour(vec![0x0003_0201, 0x00ff_ffff]);
    let mut out = Vec::new();
    assert_eq!(wav::write(header, &track, &mut out), Ok(()));
    assert_eq!(out.len(), 50);
    assert_eq!(&out[36..40], b"data");
    assert_eq!(&out[40..], &[6, 0, 0, 0, 0x01, 0x02, 0x03, 0xff, 0xff, 0xff]);
}

#[test]
fn write_of_two_float_samples() {
    let header = Header::new(3, 1, 8_000, 32);
    let track = BitDepth::ThirtyTwoFloat(vec![1.0f32.to_bits(), (-0.5f32).to_bits()]);
    let mut out = Vec::new();
    assert_eq!(wav::write(header, &track, &mut out), Ok(()));
    assert_eq!(out.len(), 52);
    assert_eq!(&out[20..36], &[3, 0, 1, 0, 0x40, 0x1f, 0, 0, 0x00, 0x7d, 0, 0, 4, 0, 32, 0]);
    assert_eq!(&out[36..40], b"data");
    assert_eq!(&out[40..], &[8, 0, 0, 0, 0, 0, 0x80, 0x3f, 0, 0, 0, 0xbf]);
}

#[test]
fn write_pads_an_odd_data_chunk() {
    let header = Header::new(WAV_FORMAT_PCM, 1, 8_000, 8);
    let track = BitDepth::Eight(vec![7, 8, 9]);
    let mut out = Vec::new();
    wav::write(header, &track, &mut out).unwrap();
    assert_eq!(out.len(), 48);
    assert_eq!(&out[4..8], &[40, 0, 0, 0]);
    assert_eq!(&out[40..48], &[3, 0, 0, 0, 7, 8, 9, 0]);
    assert_eq!(wav::read(&out), Ok((header, BitDepth::Eight(vec![7, 8, 9]))));
}

#[test]
fn write_appends_to_what_is_there() {
    let header = Header::new(WAV_FORMAT_PCM, 1, 8_000, 8);
    let track = BitDepth::Eight(vec![5, 6]);
    let mut out = vec![0xaa, 0xbb];
    wav::write(header, &track, &mut out).unwrap();
    assert_eq!(&out[0..2], &[0xaa, 0xbb]);
    assert_eq!(&out[2..6], b"RIFF");
    assert_eq!(wav::read(&out[2..]), Ok((header, BitDepth::Eight(vec![5, 6]))));
}

#[test]
fn write_of_a_track_without_samples_is_a_stream_without_data() {
    let header = Header::new(WAV_FORMAT_PCM, 2, 44_100, 16);
    let track = BitDepth::Sixteen(Vec::new());
    let mut out = Vec::new();
    wav::write(header, &track, &mut out).unwrap();
    assert_eq!(out.len(), 44);
    assert_eq!(wav::read(&out), Ok((header, BitDepth::Sixteen(Vec::new()))));
}

#[test]
fn write_refuses_the_empty_track_and_writes_nothing() {
    let header = Header::new(WAV_FORMAT_PCM, 2, 48_000, 16);
    let mut out = vec![1, 2, 3];
    assert_eq!(wav::write(header, &BitDepth::Empty, &mut out), Err(WavError::EmptyData));
    assert_eq!(out, vec![1, 2, 3]);
    let mut out = Vec::new();
    assert_eq!(wav::write(header, &BitDepth::default(), &mut out), Err(WavError::EmptyData));
    assert!(out.is_empty());
}

#[test]
fn append_built_takes_the_stream_or_reports_the_failure() {
    let mut out = vec![9];
    assert_eq!(wav::append_built(&mut out, Ok(vec![1, 2])), Ok(()));
    assert_eq!(out, vec![9, 1, 2]);
    let failure = std::io::Error::new(std::io::ErrorKind::InvalidData, "Data too big");
    assert_eq!(wav::append_built(&mut out, Err(failure)), Err(WavError::Io));
    assert_eq!(out, vec![9, 1, 2]);
}

#[test]
fn roundtrip_for_every_supported_pair() {
    let tracks = vec![
        (Header::new(WAV_FORMAT_PCM, 2, 48_000, 8), BitDepth::Eight(vec![0, 1, 127, 128, 255])),
        (Header::new(WAV_FORMAT_PCM, 2, 48_000, 16), BitDepth::Sixteen(vec![0, 1, -1, i16::MIN, i16::MAX])),
        (Header::new(WAV_FORMAT_PCM, 2, 48_000, 24), BitDepth::TwentyFour(vec![0, 1, 0x7f_ffff, 0x80_0000, 0xff_ffff])),
        (
            Header::new(WAV_FORMAT_IEEE_FLOAT, 2, 48_000, 32),
            BitDepth::ThirtyTwoFloat(vec![
                0.0f32.to_bits(),
                (-0.0f32).to_bits(),
                1.5f32.to_bits(),
                f32::NAN.to_bits(),
                f32::NEG_INFINITY.to_bits(),
                0xffff_ffff,
            ]),
        ),
    ];
    for (header, track) in tracks {
        let mut out = Vec::new();
        wav::write(header, &track, &mut out).unwrap();
        assert_eq!(wav::read(&out), Ok((header, track)));
    }
}

#[test]
fn roundtrip_keeps_a_descriptor_that_is_not_consistent() {
    let header = Header {
        audio_format: WAV_FORMAT_PCM,
        channel_count: 7,
        sampling_rate: 1,
        bytes_per_second: 0xdead_beef,
        bytes_per_sample: 0xffff,
        bits_per_sample: 16,
    };
    let track = BitDepth::Sixteen(vec![3, 4]);
    let mut out = Vec::new();
    wav::write(header, &track, &mut out).unwrap();
    assert_eq!(wav::read(&out), Ok((header, track)));
}

#[test]
fn one_round_trip_is_a_fixed_point() {
    let stream = form(
        b"WAVE",
        &[
            chunk(b"LIST", &[1, 2, 3]),
            chunk(b"fmt ", &[1, 0, 2, 0, 0x80, 0xbb, 0, 0, 0, 0xee, 2, 0, 4, 0, 16, 0, 0, 0]),
            chunk(b"data", &[1, 2, 3, 4, 5]),
            chunk(b"data", &[9, 9]),
        ],
    );
    let first = wav::read(&stream).unwrap();
    assert_eq!(first.1, BitDepth::Sixteen(vec![0x0201, 0x0403]));
    let mut again = Vec::new();
    wav::write(first.0, &first.1, &mut again).unwrap();
    assert_ne!(again, stream);
    let second = wav::read(&again).unwrap();
    assert_eq!(first, second);
    let mut third = Vec::new();
    wav::write(second.0, &second.1, &mut third).unwrap();
    assert_eq!(again, third);
}

#[test]
fn twenty_four_bit_roundtrip_drops_the_high_byte() {
    let header = Header::new(WAV_FORMAT_PCM, 1, 48_000, 24);
    let track = BitDepth::TwentyFour(vec![-1, 0x0100_0002, i32::MIN]);
    let mut out = Vec::new();
    wav::write(header, &track, &mut out).unwrap();
    assert_eq!(&out[44..], &[0xff, 0xff, 0xff, 2, 0, 0, 0, 0, 0, 0]);
    assert_eq!(wav::read(&out), Ok((header, BitDepth::TwentyFour(vec![0xff_ffff, 2, 0]))));
}

#[test]
fn read_refuses_another_form_type() {
    let stream = form(b"AVI ", &[chunk(b"fmt ", &fmt_bytes(1, 2, 48_000, 192_000, 4, 16)), chunk(b"data", &[0, 0])]);
    assert_eq!(wav::read(&stream), Err(WavError::NotWave));
    assert_eq!(wav::read_header(&stream), Err(WavError::NotWave));
    assert_eq!(wav::read_data(&stream, &Header::new(1, 2, 48_000, 16)), Err(WavError::NotWave));
    assert_eq!(wav::read(b"RIFF\x04\x00\x00\x00wave"), Err(WavError::NotWave));
    assert_eq!(wav::read(&[0u8; 12]), Err(WavError::NotWave));
    assert_eq!(wav::read(b"\x00\x00\x00\x00\x04\x00\x00\x00WAVE"), Err(WavError::NotWave));
}

#[test]
fn read_refuses_another_outer_id() {
    for id in [b"RIFX", b"FORM", b"JUNK", b"riff"] {
        let mut stream = wave(&fmt_bytes(1, 1, 8_000, 8_000, 1, 8), &[1, 2]);
        stream[0..4].copy_from_slice(id);
        assert_eq!(wav::read(&stream), Err(WavError::NotWave));
        assert_eq!(wav::read_header(&stream), Err(WavError::NotWave));
        assert_eq!(wav::read_data(&stream, &Header::new(1, 1, 8_000, 8)), Err(WavError::NotWave));
        assert_eq!(wav::verify_wav_file(&stream).map(|c| c.len), Err(WavError::NotWave));
    }
    let stream = wave(&fmt_bytes(1, 1, 8_000, 8_000, 1, 8), &[1, 2]);
    assert_eq!(wav::read(&stream), Ok((Header::new(1, 1, 8_000, 8), BitDepth::Eight(vec![1, 2]))));
    // a stream that is too short is a failure of the chunk layer first
    assert_eq!(wav::read(b"RIFX\x04\x00\x00\x00WAV"), Err(WavError::Io));
}

#[test]
fn read_of_a_stream_that_is_too_short() {
    assert_eq!(wav::read(&[]), Err(WavError::Io));
    assert_eq!(wav::read(b"RIFF"), Err(WavError::Io));
    assert_eq!(wav::read(b"RIFF\x04\x00\x00\x00"), Err(WavError::Io));
    assert_eq!(wav::read(b"RIFF\x04\x00\x00\x00WAV"), Err(WavError::Io));
}

#[test]
fn read_misses_the_format_chunk() {
    let stream = form(b"WAVE", &[chunk(b"data", &[0, 0])]);
    assert_eq!(wav::read(&stream), Err(WavError::MissingFormatChunk));
    let stream = form(b"WAVE", &[]);
    assert_eq!(wav::read(&stream), Err(WavError::MissingFormatChunk));
    let stream = form(b"WAVE", &[chunk(b"fmt\0", &fmt_bytes(1, 2, 48_000, 192_000, 4, 16)), chunk(b"data", &[0, 0])]);
    assert_eq!(wav::read(&stream), Err(WavError::MissingFormatChunk));
}

#[test]
fn read_misses_the_data_chunk() {
    let stream = form(b"WAVE", &[chunk(b"fmt ", &fmt_bytes(1, 2, 48_000, 192_000, 4, 16))]);
    assert_eq!(wav::read_header(&stream), Ok(Header::new(1, 2, 48_000, 16)));
    assert_eq!(wav::read(&stream), Err(WavError::MissingDataChunk));
    let stream = form(b"WAVE", &[chunk(b"fmt ", &fmt_bytes(1, 2, 48_000, 192_000, 4, 16)), chunk(b"DATA", &[0, 0])]);
    assert_eq!(wav::read(&stream), Err(WavError::MissingDataChunk));
}

#[test]
fn read_refuses_a_short_format_chunk() {
    let stream = form(b"WAVE", &[chunk(b"fmt ", &[1, 0, 2, 0, 0x80, 0xbb, 0, 0, 0, 0xee, 2, 0, 4, 0, 16]), chunk(b"data", &[0, 0])]);
    assert_eq!(wav::read(&stream), Err(WavError::MalformedHeader));
    let stream = form(b"WAVE", &[chunk(b"fmt ", &[]), chunk(b"data", &[0, 0])]);
    assert_eq!(wav::read(&stream), Err(WavError::MalformedHeader));
}

#[test]
fn read_takes_the_first_sixteen_bytes_of_a_longer_format_chunk() {
    let mut fmt = fmt_bytes(1, 2, 48_000, 192_000, 4, 16);
    fmt.extend_from_slice(&[0, 0, 0xff]);
    let stream = form(b"WAVE", &[chunk(b"fmt ", &fmt), chunk(b"data", &[1, 0])]);
    assert_eq!(wav::read(&stream), Ok((Header::new(1, 2, 48_000, 16), BitDepth::Sixteen(vec![1]))));
}

#[test]
fn read_refuses_another_format() {
    for format in [0u16, 2, 4, 0xfffe] {
        let stream = wave(&fmt_bytes(format, 2, 48_000, 192_000, 4, 16), &[0, 0]);
        assert_eq!(wav::read(&stream), Err(WavError::UnsupportedFormat));
    }
}

#[test]
fn read_refuses_twelve_bits() {
    let stream = wave(&fmt_bytes(1, 2, 48_000, 96_000, 2, 12), &[0, 0, 0, 0]);
    assert_eq!(wav::read_header(&stream).map(|h| h.bits_per_sample), Ok(12));
    assert_eq!(wav::read(&stream), Err(WavError::UnsupportedBitDepth));
    let stream = wave(&fmt_bytes(3, 2, 48_000, 96_000, 2, 12), &[0, 0, 0, 0]);
    assert_eq!(wav::read(&stream), Err(WavError::UnsupportedBitDepth));
}

#[test]
fn read_refuses_other_depths() {
    for bits in [0u16, 1, 32, 64] {
        let stream = wave(&fmt_bytes(1, 2, 48_000, 0, 0, bits), &[0; 8]);
        assert_eq!(wav::read(&stream), Err(WavError::UnsupportedBitDepth));
    }
    for bits in [8u16, 16, 24, 64] {
        let stream = wave(&fmt_bytes(3, 2, 48_000, 0, 0, bits), &[0; 8]);
        assert_eq!(wav::read(&stream), Err(WavError::UnsupportedBitDepth));
    }
}

#[test]
fn read_takes_the_first_of_two_chunks_with_one_id() {
    let stream = form(
        b"WAVE",
        &[
            chunk(b"fmt ", &fmt_bytes(1, 1, 8_000, 8_000, 1, 8)),
            chunk(b"fmt ", &fmt_bytes(1, 2, 48_000, 192_000, 4, 16)),
            chunk(b"data", &[1, 2, 3]),
            chunk(b"data", &[4, 5, 6, 7]),
        ],
    );
    assert_eq!(wav::read(&stream), Ok((Header::new(1, 1, 8_000, 8), BitDepth::Eight(vec![1, 2, 3]))));
}

#[test]
fn read_steps_over_other_chunks_and_their_padding() {
    let stream = form(
        b"WAVE",
        &[
            chunk(b"JUNK", &[1, 2, 3]),
            chunk(b"data", &[1, 2, 3, 4, 5]),
            chunk(b"fact", &[]),
            chunk(b"fmt ", &fmt_bytes(3, 1, 8_000, 32_000, 4, 32)),
        ],
    );
    assert_eq!(
        wav::read(&stream),
        Ok((Header::new(3, 1, 8_000, 32), BitDepth::ThirtyTwoFloat(vec![0x0403_0201])))
    );
}

#[test]
fn read_of_a_stream_that_ends_within_a_chunk() {
    let whole = wave(&fmt_bytes(1, 1, 8_000, 8_000, 1, 8), &[1, 2, 3, 4]);
    assert_eq!(whole.len(), 48);
    // the data are cut short
    assert_eq!(wav::read(&whole[..47]), Err(WavError::Io));
    // the head of the data chunk is cut short
    assert_eq!(wav::read(&whole[..43]), Err(WavError::Io));
    assert_eq!(wav::read_header(&whole[..43]), Ok(Header::new(1, 1, 8_000, 8)));
    // the format chunk is cut short
    assert_eq!(wav::read(&whole[..30]), Err(WavError::Io));
    // the head of the format chunk is cut short
    assert_eq!(wav::read(&whole[..19]), Err(WavError::Io));
    // nothing follows the form type, and the outer length says that chunks do
    assert_eq!(wav::read(&whole[..12]), Err(WavError::Io));
}

#[test]
fn read_stops_where_the_outer_length_says() {
    let mut stream = wave(&fmt_bytes(1, 1, 8_000, 8_000, 1, 8), &[1, 2, 3, 4]);
    // the outer chunk ends behind the format chunk
    stream[4..8].copy_from_slice(&32u32.to_le_bytes());
    assert_eq!(wav::read_header(&stream), Ok(Header::new(1, 1, 8_000, 8)));
    assert_eq!(wav::read(&stream), Err(WavError::MissingDataChunk));
    // the outer chunk is empty
    stream[4..8].copy_from_slice(&4u32.to_le_bytes());
    assert_eq!(wav::read(&stream), Err(WavError::MissingFormatChunk));
    stream[4..8].copy_from_slice(&0u32.to_le_bytes());
    assert_eq!(wav::read(&stream), Err(WavError::MissingFormatChunk));
}

#[test]
fn read_of_a_chunk_that_announces_more_than_there_is() {
    let mut stream = wave(&fmt_bytes(1, 1, 8_000, 8_000, 1, 8), &[1, 2, 3, 4]);
    stream[40..44].copy_from_slice(&0xffff_ffffu32.to_le_bytes());
    assert_eq!(wav::read(&stream), Err(WavError::Io));
    stream[40..44].copy_from_slice(&5u32.to_le_bytes());
    assert_eq!(wav::read(&stream), Err(WavError::Io));
    stream[40..44].copy_from_slice(&3u32.to_le_bytes());
    assert_eq!(wav::read(&stream), Ok((Header::new(1, 1, 8_000, 8), BitDepth::Eight(vec![1, 2, 3]))));
}

#[test]
fn verify_wav_file_gives_the_outer_chunk() {
    let stream = wave(&fmt_bytes(1, 1, 8_000, 8_000, 1, 8), &[1, 2, 3, 4]);
    let outer = wav::verify_wav_file(&stream).unwrap();
    assert_eq!(outer.pos, 0);
    assert_eq!(&outer.id, b"RIFF");
    assert_eq!(outer.len, 40);
    assert_eq!(wav::verify_wav_file(b"RIFF\x00\x00\x00\x00WAVE").map(|c| c.len), Ok(0));
    assert_eq!(wav::verify_wav_file(b"RIFF\x00\x00\x00\x00WAVe").map(|c| c.len), Err(WavError::NotWave));
    assert_eq!(wav::verify_wav_file(b"RIFF\x00\x00\x00\x00WAV").map(|c| c.len), Err(WavError::Io));
    assert_eq!(wav::verify_wav_file(b"RIFX\x00\x00\x00\x00WAVE").map(|c| c.len), Err(WavError::NotWave));
    assert_eq!(wav::verify_wav_file(b"FORM\x00\x00\x00\x00WAVE").map(|c| c.len), Err(WavError::NotWave));
}

#[test]
fn error_messages() {
    assert_eq!(WavError::Io.message(), "RIFF chunk could not be read or written");
    assert_eq!(WavError::NotWave.message(), "RIFF file type not \"WAVE\"");
    assert_eq!(WavError::MissingFormatChunk.message(), "RIFF data is missing the \"fmt \" chunk, aborting");
    assert_eq!(WavError::MissingDataChunk.message(), "Could not parse audio data");
    assert_eq!(WavError::MalformedHeader.message(), "Slice is smaller than the minimum-required 16 bytes");
    assert_eq!(
        WavError::UnsupportedFormat.message(),
        "Unsupported data format, data is not in uncompressed PCM format, aborting"
    );
    assert_eq!(WavError::UnsupportedBitDepth.message(), "Unsupported bit depth");
    assert_eq!(WavError::EmptyData.message(), "Empty audio data given");
}
