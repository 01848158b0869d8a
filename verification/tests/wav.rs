use linwhisper::wav::encode_wav;

#[test]
fn container_bytes_are_exact() {
    let bytes = encode_wav(8000, &vec![0i16, -1i16, 258i16]);
    let mut expected: Vec<u8> = Vec::new();
    expected.extend_from_slice(b"RIFF");
    expected.extend_from_slice(&[42, 0, 0, 0]); // 36 + 6
    expected.extend_from_slice(b"WAVE");
    expected.extend_from_slice(b"fmt ");
    expected.extend_from_slice(&[16, 0, 0, 0]);
    expected.extend_from_slice(&[1, 0]); // integer PCM
    expected.extend_from_slice(&[1, 0]); // mono
    expected.extend_from_slice(&[0x40, 0x1f, 0, 0]); // 8000 Hz
    expected.extend_from_slice(&[0x80, 0x3e, 0, 0]); // 16000 bytes per second
    expected.extend_from_slice(&[2, 0]); // frame stride
    expected.extend_from_slice(&[16, 0]); // bit depth
    expected.extend_from_slice(b"data");
    expected.extend_from_slice(&[6, 0, 0, 0]);
    expected.extend_from_slice(&[0, 0]); // 0
    expected.extend_from_slice(&[0xff, 0xff]); // -1
    expected.extend_from_slice(&[2, 1]); // 258
    assert_eq!(bytes, expected);
}

#[test]
fn empty_track_is_a_bare_header() {
    let bytes = encode_wav(44100, &vec![]);
    assert_eq!(bytes.len(), 44);
    assert_eq!(&bytes[36..40], b"data");
    assert_eq!(&bytes[40..44], &[0, 0, 0, 0]);
}

#[test]
fn container_round_trips_through_an_independent_reader() {
    let track: Vec<i16> = vec![0, 1, -1, 32767, -32768, 12345, -12345];
    let bytes = encode_wav(16000, &track);
    let mut reader = hound::WavReader::new(std::io::Cursor::new(bytes)).unwrap();
    let spec = reader.spec();
    assert_eq!(spec.channels, 1);
    assert_eq!(spec.sample_rate, 16000);
    assert_eq!(spec.bits_per_sample, 16);
    assert_eq!(spec.sample_format, hound::SampleFormat::Int);
    let decoded: Vec<i16> = reader.samples::<i16>().map(|s| s.unwrap()).collect();
    assert_eq!(decoded, track);
}

#[test]
fn container_matches_an_independent_writer() {
    let track: Vec<i16> = vec![7, -7, 300, -300];
    let ours = encode_wav(8000, &track);
    let spec = hound::WavSpec {
        channels: 1,
        sample_rate: 8000,
        bits_per_sample: 16,
        sample_format: hound::SampleFormat::Int,
    };
    let mut buf = std::io::Cursor::new(Vec::new());
    let mut writer = hound::WavWriter::new(&mut buf, spec).unwrap();
    for &s in &track {
        writer.write_sample(s).unwrap();
    }
    writer.finalize().unwrap();
    assert_eq!(ours, buf.into_inner());
}
