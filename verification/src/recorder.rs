//! The audio capture engine: owner of the accumulation buffer and of
//! stop-time encoding.
//!
//! Opening and tearing down the platform stream is the caller's
//! plumbing; the engine holds the session's state — the normalized
//! sample buffer, the configuration recorded at construction, and
//! whether a session is live — and turns the buffer into the finished
//! waveform container when the session stops.

use vstd::prelude::*;

use crate::audio::clamp16;
use crate::audio::downmix;
use crate::audio::downmix_spec;
use crate::audio::quantize;
use crate::device::DeviceProbe;
use crate::device::DeviceSelection;
use crate::device::DeviceSource;
use crate::device::usable;
use crate::device::NoDeviceError;
use crate::device::SampleFormat;
use crate::device::StreamConfig;
use crate::device::any_usable;
use crate::device::chosen_probe;
use crate::device::find_input_device;
use crate::wav::encode_wav;
use crate::wav::wav_bytes;

verus! {

/// Why a capture stream could not be started.
#[derive(Debug)]
pub enum StreamError {
    /// Discovery found nothing usable.
    NoDevice(NoDeviceError),
    /// The selected device's sample representation is not one the
    /// engine can normalize.
    UnsupportedFormat(SampleFormat),
    /// The platform failed to open or play the stream; carries its
    /// report. Produced by the stream-opening caller, never by the
    /// engine itself.
    Build(String),
}

/// Why stop-time encoding failed.
#[derive(Clone, Copy, Debug, PartialEq, Eq, Structural)]
pub enum EncodingError {
    /// Nothing was ever captured: no container is produced.
    EmptyBuffer,
    /// The container's 32-bit size fields cannot hold the session
    /// (data payload or byte rate out of range).
    ContainerLimit,
}

/// The capture engine.
#[derive(Debug)]
pub struct Recorder {
    /// Normalized fixed-point samples, interleaved by channel;
    /// append-only while a session is live.
    pub samples: Vec<i32>,
    /// Samples per second, recorded at construction.
    pub sample_rate: u32,
    /// Interleaved channel count, recorded at construction.
    pub channels: u16,
    /// Whether a capture session is live.
    pub recording: bool,
    /// Name of the device selected at construction.
    pub device_name: String,
}

/// The mono 16-bit track a recorder's buffer encodes to: downmix, then
/// quantize each mean to the container's range.
pub open spec fn encoded_track(samples: Seq<i32>, channels: u16) -> Seq<int> {
    downmix_spec(samples, channels as int).map_values(|k: int| clamp16(k))
}

impl Recorder {
    /// Resolve a device by the discovery policy and record its sample
    /// rate and channel count. No stream is opened yet.
    pub fn new(default: Option<DeviceProbe>, devices: Vec<DeviceProbe>) -> (r: Result<
        Recorder,
        NoDeviceError,
    >)
        ensures
            r is Ok <==> any_usable(default, devices@),
            r matches Ok(rec) ==> {
                &&& Some(
                    StreamConfig {
                        sample_rate: rec.sample_rate,
                        channels: rec.channels,
                        format: chosen_probe(default, devices@).config->0.format,
                    },
                ) == chosen_probe(default, devices@).config
                &&& rec.device_name@ == chosen_probe(default, devices@).name@
                &&& rec.samples@ == Seq::<i32>::empty()
                &&& !rec.recording
            },
            r matches Err(e) ==> {
                &&& e.enumerated@.len() == devices@.len()
                &&& forall|i: int|
                    0 <= i < devices@.len() ==> e.enumerated@[i]@ == devices@[i].name@
            },
    {
        match find_input_device(default, devices) {
            Ok(sel) => Ok(Recorder {
                samples: Vec::new(),
                sample_rate: sel.config.sample_rate,
                channels: sel.config.channels,
                recording: false,
                device_name: sel.name,
            }),
            Err(e) => Err(e),
        }
    }

    /// Begin a capture session: re-resolve a working device (devices
    /// may have come or gone since construction), clear the buffer and
    /// mark the session live. Returns the configuration the stream
    /// must be opened with. Fails when nothing usable is found — the
    /// engine untouched — or when the resolved device's sample
    /// representation is unsupported — the buffer already cleared, no
    /// session live. The recorded rate and channel count are those of
    /// construction; they are not rewritten here.
    pub fn start(&mut self, default: Option<DeviceProbe>, devices: Vec<DeviceProbe>) -> (r: Result<
        DeviceSelection,
        StreamError,
    >)
        ensures
            final(self).sample_rate == old(self).sample_rate,
            final(self).channels == old(self).channels,
            final(self).device_name@ == old(self).device_name@,
            r is Ok <==> (any_usable(default, devices@) && !(chosen_probe(default, devices@).config->0.format
                is Other)),
            r matches Ok(sel) ==> {
                &&& Some(sel.config) == chosen_probe(default, devices@).config
                &&& sel.name@ == chosen_probe(default, devices@).name@
                &&& (sel.source is SystemDefault <==> (default is Some && usable(default->0)))
                &&& sel.source matches DeviceSource::Enumerated(i) ==> i as int
                    == crate::device::first_usable_index(devices@)
                &&& final(self).samples@ == Seq::<i32>::empty()
                &&& final(self).recording
            },
            r matches Err(e) ==> match e {
                StreamError::NoDevice(nd) => {
                    &&& !any_usable(default, devices@)
                    &&& final(self).samples@ == old(self).samples@
                    &&& final(self).recording == old(self).recording
                    &&& nd.enumerated@.len() == devices@.len()
                },
                StreamError::UnsupportedFormat(f) => {
                    &&& !final(self).recording
                    &&& any_usable(default, devices@)
                    &&& chosen_probe(default, devices@).config->0.format is Other
                    &&& f == chosen_probe(default, devices@).config->0.format
                    &&& final(self).samples@ == Seq::<i32>::empty()
                },
                StreamError::Build(_) => false,
            },
    {
        let sel: DeviceSelection = match find_input_device(default, devices) {
            Ok(sel) => sel,
            Err(e) => {
                return Err(StreamError::NoDevice(e));
            },
        };
        self.samples = Vec::new();
        self.recording = false;
        match sel.config.format {
            SampleFormat::F32 | SampleFormat::I16 | SampleFormat::U16 => {
                self.recording = true;
                Ok(sel)
            },
            SampleFormat::Other => Err(StreamError::UnsupportedFormat(sel.config.format)),
        }
    }

    /// Abandon a session whose stream the caller failed to open: mark
    /// no session live, everything else untouched.
    pub fn cancel_session(&mut self)
        ensures
            final(self).samples@ == old(self).samples@,
            final(self).sample_rate == old(self).sample_rate,
            final(self).channels == old(self).channels,
            final(self).device_name@ == old(self).device_name@,
            !final(self).recording,
    {
        self.recording = false;
    }

    /// Append normalized samples delivered by the capture callback.
    pub fn append_samples(&mut self, chunk: &[i32])
        ensures
            final(self).samples@ == old(self).samples@ + chunk@,
            final(self).sample_rate == old(self).sample_rate,
            final(self).channels == old(self).channels,
            final(self).device_name@ == old(self).device_name@,
            final(self).recording == old(self).recording,
    {
        let mut j: usize = 0;
        while j < chunk.len()
            invariant
                j <= chunk@.len(),
                self.samples@ == old(self).samples@ + chunk@.take(j as int),
                self.sample_rate == old(self).sample_rate,
                self.channels == old(self).channels,
                self.device_name@ == old(self).device_name@,
                self.recording == old(self).recording,
            decreases chunk@.len() - j,
        {
            self.samples.push(chunk[j]);
            proof {
                assert(old(self).samples@ + chunk@.take(j + 1 as int) =~= (old(self).samples@
                    + chunk@.take(j as int)).push(chunk@[j as int]));
            }
            j = j + 1;
        }
        proof {
            assert(chunk@.take(chunk@.len() as int) =~= chunk@);
        }
    }

    /// End the session and encode what was captured: the buffer is
    /// downmixed to mono, quantized to 16 bits and serialized into the
    /// waveform container at the recorded sample rate. Fails when the
    /// buffer is empty — no container bytes are produced — or when the
    /// session cannot fit the container's 32-bit size fields. The
    /// buffer is left as it was; the next session clears it.
    pub fn stop(&mut self) -> (r: Result<Vec<u8>, EncodingError>)
        ensures
            final(self).samples@ == old(self).samples@,
            final(self).sample_rate == old(self).sample_rate,
            final(self).channels == old(self).channels,
            final(self).device_name@ == old(self).device_name@,
            !final(self).recording,
            old(self).samples@.len() == 0 <==> r == Err::<Vec<u8>, EncodingError>(
                EncodingError::EmptyBuffer,
            ),
            r matches Ok(bytes) ==> {
                &&& 2 * encoded_track(old(self).samples@, old(self).channels).len() + 36
                    <= u32::MAX
                &&& old(self).sample_rate <= u32::MAX / 2
                &&& bytes@ == wav_bytes(
                    old(self).sample_rate,
                    encoded_track(old(self).samples@, old(self).channels),
                )
            },
            r == Err::<Vec<u8>, EncodingError>(EncodingError::ContainerLimit) <==> {
                &&& old(self).samples@.len() > 0
                &&& (2 * encoded_track(old(self).samples@, old(self).channels).len() + 36
                    > u32::MAX || old(self).sample_rate > u32::MAX / 2)
            },
    {
        self.recording = false;
        if self.samples.len() == 0 {
            return Err(EncodingError::EmptyBuffer);
        }
        let mono: Vec<i32> = downmix(&self.samples, self.channels);
        if mono.len() > ((u32::MAX - 36) / 2) as usize || self.sample_rate > u32::MAX / 2 {
            return Err(EncodingError::ContainerLimit);
        }
        let mut track: Vec<i16> = Vec::new();
        let ghost q = encoded_track(self.samples@, self.channels);
        let mut i: usize = 0;
        while i < mono.len()
            invariant
                i <= mono@.len(),
                mono@.map_values(|x: i32| x as int) == downmix_spec(
                    self.samples@,
                    self.channels as int,
                ),
                q == encoded_track(self.samples@, self.channels),
                q.len() == mono@.len(),
                track@.map_values(|s: i16| s as int) =~= q.take(i as int),
                track@.len() == i,
            decreases mono@.len() - i,
        {
            let s = quantize(mono[i]);
            track.push(s);
            proof {
                let m = mono@.map_values(|x: i32| x as int);
                let tm = track@.map_values(|x: i16| x as int);
                let tq = q.take(i + 1 as int);
                assert(m[i as int] == mono@[i as int] as int);
                assert(q[i as int] == clamp16(m[i as int]));
                assert(track@.len() == i + 1);
                assert(track@[i as int] == s);
                assert forall|k: int| 0 <= k < i + 1 implies tm[k] == tq[k] by {
                    assert(tq[k] == q[k]);
                    assert(tm[k] == track@[k] as int);
                    if k < i {
                        assert(q.take(i as int)[k] == q[k]);
                    }
                }
                assert(tm =~= tq);
            }
            i = i + 1;
        }
        proof {
            assert(track@.map_values(|s: i16| s as int) =~= q);
        }
        let bytes = encode_wav(self.sample_rate, &track);
        Ok(bytes)
    }

    /// The sample rate recorded at construction.
    pub fn sample_rate(&self) -> (r: u32)
        ensures
            r == self.sample_rate,
    {
        self.sample_rate
    }
}

} // verus!
