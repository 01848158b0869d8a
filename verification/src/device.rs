//! Input-device discovery: the default-first, fallback-scan selection
//! policy over the devices the audio host reports.
//!
//! Probing the host is platform work; the policy itself is a pure
//! decision over the probed results. A probe carries a device's name
//! and its resolved stream configuration, or `None` where the
//! configuration could not be resolved.

use vstd::prelude::*;

verus! {

/// The sample representations a capture stream can deliver. Anything
/// else the platform might offer is unsupported.
#[derive(Clone, Copy, Debug, PartialEq, Eq, Structural)]
pub enum SampleFormat {
    F32,
    I16,
    U16,
    Other,
}

/// The immutable configuration a stream is opened with.
#[derive(Clone, Copy, Debug, PartialEq, Eq, Structural)]
pub struct StreamConfig {
    /// Samples per second, per channel.
    pub sample_rate: u32,
    /// Interleaved channel count.
    pub channels: u16,
    /// Native sample representation.
    pub format: SampleFormat,
}

/// One enumerated input device: its name and its resolved default
/// configuration, or `None` where resolution failed.
#[derive(Debug)]
pub struct DeviceProbe {
    pub name: String,
    pub config: Option<StreamConfig>,
}

/// No device in the full scan yielded a usable configuration. Carries
/// the names of every enumerated device, for diagnostics; the listing
/// is empty when nothing was enumerable.
#[derive(Debug)]
pub struct NoDeviceError {
    pub enumerated: Vec<String>,
}

/// Where the selected device came from.
#[derive(Clone, Copy, Debug, PartialEq, Eq, Structural)]
pub enum DeviceSource {
    /// The system default input device resolved.
    SystemDefault,
    /// The fallback scan picked the enumerated device at this index.
    Enumerated(usize),
}

/// A selected input device.
#[derive(Debug)]
pub struct DeviceSelection {
    pub source: DeviceSource,
    pub name: String,
    pub config: StreamConfig,
}

/// A probe is usable when its configuration resolved.
pub open spec fn usable(p: DeviceProbe) -> bool {
    p.config is Some
}

/// Whether the policy can select anything at all.
pub open spec fn any_usable(default: Option<DeviceProbe>, devs: Seq<DeviceProbe>) -> bool {
    ||| (default is Some && usable(default->0))
    ||| exists|i: int| 0 <= i < devs.len() && usable(devs[i])
}

/// Index of the first usable probe of the scan.
pub open spec fn first_usable_index(devs: Seq<DeviceProbe>) -> int
    decreases devs.len(),
{
    if devs.len() == 0 {
        0
    } else if usable(devs[0]) {
        0
    } else {
        1 + first_usable_index(devs.drop_first())
    }
}

/// The probe the policy selects, when one is usable: the system
/// default where it resolved, else the first usable probe of the scan.
pub open spec fn chosen_probe(default: Option<DeviceProbe>, devs: Seq<DeviceProbe>) -> DeviceProbe {
    if default is Some && usable(default->0) {
        default->0
    } else {
        devs[first_usable_index(devs)]
    }
}

/// `first_usable_index` names the least usable index: where some probe
/// is usable, the index is in range, usable, and preceded only by
/// unusable probes.
pub proof fn lemma_first_usable_least(devs: Seq<DeviceProbe>)
    requires
        exists|i: int| 0 <= i < devs.len() && usable(devs[i]),
    ensures
        0 <= first_usable_index(devs) < devs.len(),
        usable(devs[first_usable_index(devs)]),
        forall|j: int| 0 <= j < first_usable_index(devs) ==> !usable(devs[j]),
    decreases devs.len(),
{
    if devs.len() > 0 && !usable(devs[0]) {
        let rest = devs.drop_first();
        let w = choose|i: int| 0 <= i < devs.len() && usable(devs[i]);
        assert(rest[w - 1] == devs[w]);
        lemma_first_usable_least(rest);
        assert forall|j: int| 0 <= j < first_usable_index(devs) implies !usable(devs[j]) by {
            if j > 0 {
                assert(devs[j] == rest[j - 1]);
            }
        }
    }
}

/// Select an input device: try the system default first; where it is
/// absent or its configuration did not resolve, scan the enumerated
/// devices in order and take the first whose configuration resolved.
/// Fails only when the full scan yields nothing usable, and then
/// reports every enumerated device name.
pub fn find_input_device(default: Option<DeviceProbe>, devices: Vec<DeviceProbe>) -> (r: Result<
    DeviceSelection,
    NoDeviceError,
>)
    ensures
        r is Ok <==> any_usable(default, devices@),
        r matches Ok(sel) ==> {
            &&& sel.name@ == chosen_probe(default, devices@).name@
            &&& Some(sel.config) == chosen_probe(default, devices@).config
            &&& (sel.source is SystemDefault <==> (default is Some && usable(default->0)))
            &&& sel.source matches DeviceSource::Enumerated(i) ==> i as int == first_usable_index(
                devices@,
            )
        },
        r matches Err(e) ==> {
            &&& e.enumerated@.len() == devices@.len()
            &&& forall|i: int|
                0 <= i < devices@.len() ==> e.enumerated@[i]@ == devices@[i].name@
        },
{
    if let Some(d) = &default {
        if let Some(cfg) = d.config {
            return Ok(DeviceSelection {
                source: DeviceSource::SystemDefault,
                name: d.name.clone(),
                config: cfg,
            });
        }
    }
    let mut i: usize = 0;
    while i < devices.len()
        invariant
            i <= devices@.len(),
            !(default is Some && usable(default->0)),
            forall|j: int| 0 <= j < i ==> !usable(devices@[j]),
        decreases devices@.len() - i,
    {
        if let Some(cfg) = devices[i].config {
            proof {
                lemma_first_usable_least(devices@);
                let f = first_usable_index(devices@);
                assert(!(f < i) && !(i < f));
            }
            return Ok(DeviceSelection {
                source: DeviceSource::Enumerated(i),
                name: devices[i].name.clone(),
                config: cfg,
            });
        }
        i = i + 1;
    }
    let mut names: Vec<String> = Vec::new();
    let mut k: usize = 0;
    while k < devices.len()
        invariant
            k <= devices@.len(),
            !(default is Some && usable(default->0)),
            forall|j: int| 0 <= j < devices@.len() ==> !usable(devices@[j]),
            names@.len() == k,
            forall|j: int| 0 <= j < k ==> names@[j]@ == devices@[j].name@,
        decreases devices@.len() - k,
    {
        names.push(devices[k].name.clone());
        k = k + 1;
    }
    Err(NoDeviceError { enumerated: names })
}

} // verus!
