use linwhisper::device::DeviceProbe;
use linwhisper::device::SampleFormat;
use linwhisper::device::StreamConfig;
use linwhisper::recorder::EncodingError;
use linwhisper::recorder::Recorder;
use linwhisper::recorder::StreamError;

fn probe(name: &str, config: Option<StreamConfig>) -> DeviceProbe {
    DeviceProbe { name: name.to_string(), config }
}

fn cfg(sample_rate: u32, channels: u16, format: SampleFormat) -> StreamConfig {
    StreamConfig { sample_rate, channels, format }
}

fn fresh_recorder(sample_rate: u32, channels: u16) -> Recorder {
    Recorder {
        samples: Vec::new(),
        sample_rate,
        channels,
        recording: false,
        device_name: "test".to_string(),
    }
}

fn read_u16_le(b: &[u8], at: usize) -> u16 {
    (b[at] as u16) | ((b[at + 1] as u16) << 8)
}

fn read_u32_le(b: &[u8], at: usize) -> u32 {
    (b[at] as u32) | ((b[at + 1] as u32) << 8) | ((b[at + 2] as u32) << 16)
        | ((b[at + 3] as u32) << 24)
}

fn read_i16_le(b: &[u8], at: usize) -> i16 {
    read_u16_le(b, at) as i16
}

#[test]
fn new_records_rate_and_channels_of_the_default_device() {
    let r = Recorder::new(
        Some(probe("mic", Some(cfg(44100, 2, SampleFormat::F32)))),
        vec![],
    )
    .unwrap();
    assert_eq!(r.sample_rate, 44100);
    assert_eq!(r.sample_rate(), 44100);
    assert_eq!(r.channels, 2);
    assert_eq!(r.device_name, "mic");
    assert!(r.samples.is_empty());
    assert!(!r.recording);
}

#[test]
fn new_with_nothing_usable_reports_every_name() {
    let err = Recorder::new(
        Some(probe("broken-default", None)),
        vec![probe("a", None), probe("b", None)],
    )
    .unwrap_err();
    assert_eq!(err.enumerated, vec!["a".to_string(), "b".to_string()]);
}

#[test]
fn start_clears_buffer_and_marks_recording() {
    let mut r = fresh_recorder(8000, 1);
    r.samples = vec![1, 2, 3];
    let got = r
        .start(Some(probe("mic", Some(cfg(48000, 1, SampleFormat::I16)))), vec![])
        .unwrap();
    assert_eq!(got.config, cfg(48000, 1, SampleFormat::I16));
    assert_eq!(got.name, "mic");
    assert_eq!(got.source, linwhisper::device::DeviceSource::SystemDefault);
    assert!(r.samples.is_empty());
    assert!(r.recording);
    // The configuration of construction is not rewritten.
    assert_eq!(r.sample_rate, 8000);
    assert_eq!(r.channels, 1);
}

#[test]
fn start_with_no_device_leaves_engine_untouched() {
    let mut r = fresh_recorder(8000, 1);
    r.samples = vec![1, 2, 3];
    match r.start(None, vec![probe("a", None)]) {
        Err(StreamError::NoDevice(e)) => {
            assert_eq!(e.enumerated, vec!["a".to_string()]);
        }
        _ => panic!("expected a no-device failure"),
    }
    assert_eq!(r.samples, vec![1, 2, 3]);
    assert!(!r.recording);
}

#[test]
fn start_with_unsupported_format_fails() {
    let mut r = fresh_recorder(8000, 1);
    match r.start(Some(probe("odd", Some(cfg(8000, 1, SampleFormat::Other)))), vec![]) {
        Err(StreamError::UnsupportedFormat(f)) => assert_eq!(f, SampleFormat::Other),
        _ => panic!("expected an unsupported-format failure"),
    }
    assert!(!r.recording);
}

#[test]
fn cancel_session_marks_not_recording() {
    let mut r = fresh_recorder(8000, 1);
    r.recording = true;
    r.samples = vec![7];
    r.cancel_session();
    assert!(!r.recording);
    assert_eq!(r.samples, vec![7]);
}

#[test]
fn append_samples_accumulates_in_order() {
    let mut r = fresh_recorder(8000, 1);
    r.append_samples(&[1, 2]);
    r.append_samples(&[3]);
    assert_eq!(r.samples, vec![1, 2, 3]);
}

#[test]
fn stop_with_empty_buffer_fails_and_produces_no_bytes() {
    let mut r = fresh_recorder(8000, 1);
    r.recording = true;
    let got = r.stop();
    assert_eq!(got, Err(EncodingError::EmptyBuffer));
    assert!(!r.recording);
}

#[test]
fn stop_with_a_rate_beyond_the_container_fails() {
    // The container's 32-bit byte-rate field cannot hold twice this rate.
    let mut r = fresh_recorder(3_000_000_000, 1);
    r.append_samples(&[1]);
    assert_eq!(r.stop(), Err(EncodingError::ContainerLimit));
}

#[test]
fn stop_two_seconds_of_half_scale_yields_16000_samples_of_16383() {
    // 8000 Hz, one channel, two seconds of constant amplitude one half.
    let half: i32 = (0.5f32 * 32767.0f32) as i32;
    assert_eq!(half, 16383);
    let mut r = fresh_recorder(8000, 1);
    r.append_samples(&vec![half; 16000]);
    let bytes = r.stop().unwrap();
    assert_eq!(bytes.len(), 44 + 2 * 16000);
    // Header: RIFF size, format, mono, rate, byte rate, stride, depth.
    assert_eq!(&bytes[0..4], b"RIFF");
    assert_eq!(read_u32_le(&bytes, 4), 36 + 32000);
    assert_eq!(&bytes[8..12], b"WAVE");
    assert_eq!(&bytes[12..16], b"fmt ");
    assert_eq!(read_u32_le(&bytes, 16), 16);
    assert_eq!(read_u16_le(&bytes, 20), 1);
    assert_eq!(read_u16_le(&bytes, 22), 1);
    assert_eq!(read_u32_le(&bytes, 24), 8000);
    assert_eq!(read_u32_le(&bytes, 28), 16000);
    assert_eq!(read_u16_le(&bytes, 32), 2);
    assert_eq!(read_u16_le(&bytes, 34), 16);
    assert_eq!(&bytes[36..40], b"data");
    assert_eq!(read_u32_le(&bytes, 40), 32000);
    for i in 0..16000 {
        assert_eq!(read_i16_le(&bytes, 44 + 2 * i), 16383);
    }
}

#[test]
fn stop_stereo_full_scale_pair_downmixes_to_one_silent_sample() {
    let mut r = fresh_recorder(44100, 2);
    let left: i32 = (1.0f32 * 32767.0f32) as i32;
    let right: i32 = (-1.0f32 * 32767.0f32) as i32;
    r.append_samples(&[left, right]);
    let bytes = r.stop().unwrap();
    assert_eq!(bytes.len(), 44 + 2);
    assert_eq!(read_u16_le(&bytes, 22), 1);
    assert_eq!(read_u32_le(&bytes, 40), 2);
    assert_eq!(read_i16_le(&bytes, 44), 0);
}

#[test]
fn stop_clamps_overdriven_samples() {
    let mut r = fresh_recorder(8000, 1);
    r.append_samples(&[40000, -40000, -1]);
    let bytes = r.stop().unwrap();
    assert_eq!(read_i16_le(&bytes, 44), 32767);
    assert_eq!(read_i16_le(&bytes, 46), -32767);
    assert_eq!(read_i16_le(&bytes, 48), -1);
}

#[test]
fn stop_output_decodes_with_an_independent_reader() {
    let mut r = fresh_recorder(22050, 2);
    r.append_samples(&[100, 200, -100, -201, 32767, 32767]);
    let bytes = r.stop().unwrap();
    let mut reader = hound::WavReader::new(std::io::Cursor::new(bytes)).unwrap();
    let spec = reader.spec();
    assert_eq!(spec.channels, 1);
    assert_eq!(spec.sample_rate, 22050);
    assert_eq!(spec.bits_per_sample, 16);
    assert_eq!(spec.sample_format, hound::SampleFormat::Int);
    let samples: Vec<i16> = reader.samples::<i16>().map(|s| s.unwrap()).collect();
    assert_eq!(samples, vec![150, -150, 32767]);
}
