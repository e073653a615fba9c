use echo_capture::wav::{render_wav, HEADER_LEN};

#[test]
fn empty_recording_renders_exactly_the_header() {
    let bytes = render_wav(&vec![]);
    assert_eq!(bytes.len(), HEADER_LEN);
    let expected: Vec<u8> = vec![
        b'R', b'I', b'F', b'F', 36, 0, 0, 0, // RIFF chunk, size 36 + 0
        b'W', b'A', b'V', b'E', b'f', b'm', b't', b' ', 16, 0, 0, 0, // fmt chunk, 16 bytes
        1, 0, // integer PCM
        2, 0, // 2 channels
        0x44, 0xAC, 0, 0, // 44100 Hz
        0x10, 0xB1, 0x02, 0, // 176400 bytes per second
        4, 0, // block align
        16, 0, // bits per sample
        b'd', b'a', b't', b'a', 0, 0, 0, 0, // data chunk, 0 bytes
    ];
    assert_eq!(bytes, expected);
}

#[test]
fn samples_are_stored_little_endian_in_twos_complement() {
    let bytes = render_wav(&vec![0, 257, -1, i16::MAX, i16::MIN]);
    assert_eq!(bytes.len(), HEADER_LEN + 10);
    assert_eq!(&bytes[44..46], &[0, 0]);
    assert_eq!(&bytes[46..48], &[1, 1]);
    assert_eq!(&bytes[48..50], &[0xFF, 0xFF]);
    assert_eq!(&bytes[50..52], &[0xFF, 0x7F]);
    assert_eq!(&bytes[52..54], &[0x00, 0x80]);
    // RIFF and data sizes follow the sample count.
    assert_eq!(&bytes[4..8], &[46, 0, 0, 0]);
    assert_eq!(&bytes[40..44], &[10, 0, 0, 0]);
}

#[test]
fn rendered_file_round_trips_through_a_wav_reader() {
    let samples: Vec<i16> = vec![0, 1, -1, 1000, -1000, i16::MAX, -i16::MAX, 123];
    let bytes = render_wav(&samples);
    let reader = hound::WavReader::new(std::io::Cursor::new(bytes)).unwrap();
    let spec = reader.spec();
    assert_eq!(spec.channels, 2);
    assert_eq!(spec.sample_rate, 44100);
    assert_eq!(spec.bits_per_sample, 16);
    assert_eq!(spec.sample_format, hound::SampleFormat::Int);
    let decoded: Vec<i16> = reader
        .into_samples::<i16>()
        .map(|s| s.unwrap())
        .collect();
    assert_eq!(decoded, samples);
}

#[test]
fn rendered_bytes_match_a_wav_writer_byte_for_byte() {
    let samples: Vec<i16> = vec![5, -5, 32767, -32767, 0, 17];
    let bytes = render_wav(&samples);

    let spec = hound::WavSpec {
        channels: 2,
        sample_rate: 44100,
        bits_per_sample: 16,
        sample_format: hound::SampleFormat::Int,
    };
    let mut cursor = std::io::Cursor::new(Vec::new());
    {
        let mut writer = hound::WavWriter::new(&mut cursor, spec).unwrap();
        for s in &samples {
            writer.write_sample(*s).unwrap();
        }
        writer.finalize().unwrap();
    }
    assert_eq!(bytes, cursor.into_inner());
}
