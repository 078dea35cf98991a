//! CUDA devices: what the driver reports of them, which of them are used,
//! and which is the main one.
//!
//! The driver is not queried here. A caller reads each device once and
//! hands the readings over.

use vstd::prelude::*;
use vstd::string::*;
use super::gpu::GpuDevice;
use crate::requests::stop_sequence::opt_view;
use crate::text::{clone_opt, decimal, decimal_text};

verus! {

/// Memory that the CUDA runtime keeps for itself on every device, in bytes.
pub const CUDA_OVERHEAD: u64 = 524288000;

/// What the driver reports of the device with one ordinal.
#[derive(Debug, Clone, PartialEq, Eq)]
pub struct DeviceReading {
    pub ordinal: u32,
    /// The device's memory in bytes; `None` where the device or its memory could not be read.
    pub total_memory: Option<u64>,
    pub name: Option<String>,
    /// The enforced power limit in milliwatts.
    pub power_limit: Option<u32>,
    /// Major and minor number of the compute capability.
    pub compute_capability: Option<(i32, i32)>,
}

/// Why devices could not be set up.
#[derive(Debug, Clone, Copy, PartialEq, Eq, Structural)]
pub enum DeviceError {
    /// No usable device was found.
    NoDevices,
    /// The driver reports more devices than could be found usable.
    FewerDevices { reported: u32, found: u32 },
    /// There is no device to take as the main one.
    NoDevicesForMainGpu,
    /// The device could not be read.
    DeviceUnavailable(u32),
    /// The device reports no memory.
    NoVram(u32),
    /// The device has less memory than the runtime keeps for itself.
    VramBelowOverhead(u32),
    /// A device that the configuration names could not be used, for the reason given.
    ConfiguredDevice(u32),
    /// The main device that the configuration names is not among the devices in use.
    MainGpuNotFound(u32),
    /// The memory of the devices does not add up within 64 bits.
    TotalVramOverflow,
}

impl DeviceError {
    /// The text that `message` renders.
    pub open spec fn message_text(&self) -> Seq<char> {
        match self {
            DeviceError::NoDevices => "No CUDA devices found"@,
            DeviceError::FewerDevices { reported, found } => "nvml_wrapper reported "@
                + decimal_text(*reported as nat) + " devices, but we were only able to get "@
                + decimal_text(*found as nat),
            DeviceError::NoDevicesForMainGpu => "No devices found when setting main gpu"@,
            DeviceError::DeviceUnavailable(ordinal) => "Failed to get device "@ + decimal_text(
                *ordinal as nat,
            ),
            DeviceError::NoVram(ordinal) => "Device "@ + decimal_text(*ordinal as nat)
                + " has 0 bytes of VRAM. Skipping device."@,
            DeviceError::VramBelowOverhead(ordinal) => "Device "@ + decimal_text(*ordinal as nat)
                + " has less VRAM than the CUDA overhead. Skipping device."@,
            DeviceError::ConfiguredDevice(ordinal) => "Failed to get device "@ + decimal_text(
                *ordinal as nat,
            ) + " specified in cuda_devices"@,
            DeviceError::MainGpuNotFound(ordinal) => "Main GPU set by user "@ + decimal_text(
                *ordinal as nat,
            ) + " not found in CUDA devices"@,
            DeviceError::TotalVramOverflow => "Total VRAM does not fit in 64 bits"@,
        }
    }

    /// A line that says what went wrong.
    pub fn message(&self) -> (line: String)
        ensures
            line@ == self.message_text(),
    {
        match self {
            DeviceError::NoDevices => "No CUDA devices found".to_owned(),
            DeviceError::FewerDevices { reported, found } => {
                let wanted = decimal(*reported as u64);
                let had = decimal(*found as u64);
                "nvml_wrapper reported ".to_owned().concat(wanted.as_str()).concat(
                    " devices, but we were only able to get ",
                ).concat(had.as_str())
            },
            DeviceError::NoDevicesForMainGpu => "No devices found when setting main gpu".to_owned(),
            DeviceError::DeviceUnavailable(ordinal) => {
                let n = decimal(*ordinal as u64);
                "Failed to get device ".to_owned().concat(n.as_str())
            },
            DeviceError::NoVram(ordinal) => {
                let n = decimal(*ordinal as u64);
                "Device ".to_owned().concat(n.as_str()).concat(
                    " has 0 bytes of VRAM. Skipping device.",
                )
            },
            DeviceError::VramBelowOverhead(ordinal) => {
                let n = decimal(*ordinal as u64);
                "Device ".to_owned().concat(n.as_str()).concat(
                    " has less VRAM than the CUDA overhead. Skipping device.",
                )
            },
            DeviceError::ConfiguredDevice(ordinal) => {
                let n = decimal(*ordinal as u64);
                "Failed to get device ".to_owned().concat(n.as_str()).concat(
                    " specified in cuda_devices",
                )
            },
            DeviceError::MainGpuNotFound(ordinal) => {
                let n = decimal(*ordinal as u64);
                "Main GPU set by user ".to_owned().concat(n.as_str()).concat(
                    " not found in CUDA devices",
                )
            },
            DeviceError::TotalVramOverflow => "Total VRAM does not fit in 64 bits".to_owned(),
        }
    }
}

/// A CUDA device that can be used.
#[derive(Debug, Clone, PartialEq, Eq)]
pub struct CudaDevice {
    pub ordinal: u32,
    /// Memory left for the model: the device's memory less the runtime's overhead.
    pub available_vram_bytes: u64,
    pub name: Option<String>,
    pub power_limit: Option<u32>,
    pub driver_major: Option<i32>,
    pub driver_minor: Option<i32>,
}

/// A device as plain values.
pub struct CudaDeviceView {
    pub ordinal: u32,
    pub available_vram_bytes: u64,
    pub name: Option<Seq<char>>,
    pub power_limit: Option<u32>,
    pub driver_major: Option<i32>,
    pub driver_minor: Option<i32>,
}

impl View for CudaDevice {
    type V = CudaDeviceView;

    open spec fn view(&self) -> CudaDeviceView {
        CudaDeviceView {
            ordinal: self.ordinal,
            available_vram_bytes: self.available_vram_bytes,
            name: opt_view(self.name),
            power_limit: self.power_limit,
            driver_major: self.driver_major,
            driver_minor: self.driver_minor,
        }
    }
}

/// The device that a reading describes, or why it cannot be used.
pub open spec fn device_of(reading: DeviceReading) -> Result<CudaDeviceView, DeviceError> {
    match reading.total_memory {
        None => Err(DeviceError::DeviceUnavailable(reading.ordinal)),
        Some(total) => if total == 0 {
            Err(DeviceError::NoVram(reading.ordinal))
        } else if total < CUDA_OVERHEAD {
            Err(DeviceError::VramBelowOverhead(reading.ordinal))
        } else {
            Ok(
                CudaDeviceView {
                    ordinal: reading.ordinal,
                    available_vram_bytes: (total - CUDA_OVERHEAD) as u64,
                    name: opt_view(reading.name),
                    power_limit: reading.power_limit,
                    driver_major: match reading.compute_capability {
                        Some(c) => Some(c.0),
                        None => None,
                    },
                    driver_minor: match reading.compute_capability {
                        Some(c) => Some(c.1),
                        None => None,
                    },
                },
            )
        },
    }
}

/// The views of devices.
pub open spec fn device_views(devices: Seq<CudaDevice>) -> Seq<CudaDeviceView> {
    devices.map_values(|d: CudaDevice| d@)
}

/// The usable devices among the readings, in order, `limit` of them at most.
pub open spec fn usable_devices(readings: Seq<DeviceReading>, limit: nat) -> Seq<CudaDeviceView>
    decreases readings.len(),
{
    if readings.len() == 0 {
        Seq::empty()
    } else {
        let before = usable_devices(readings.drop_last(), limit);
        match device_of(readings.last()) {
            Ok(device) => if before.len() < limit {
                before.push(device)
            } else {
                before
            },
            Err(_) => before,
        }
    }
}

/// The position of the first reading for `ordinal`, or the number of readings.
pub open spec fn reading_position(readings: Seq<DeviceReading>, ordinal: u32) -> nat
    decreases readings.len(),
{
    if readings.len() > 0 && readings[0].ordinal != ordinal {
        1 + reading_position(readings.skip(1), ordinal)
    } else {
        0
    }
}

/// The device with `ordinal` as the readings describe it. A device
/// without a reading counts as one that could not be read.
pub open spec fn configured_device(readings: Seq<DeviceReading>, ordinal: u32) -> Result<
    CudaDeviceView,
    DeviceError,
> {
    let position = reading_position(readings, ordinal);
    if position < readings.len() {
        device_of(readings[position as int])
    } else {
        Err(DeviceError::DeviceUnavailable(ordinal))
    }
}

/// The devices that a configuration names, added to `devices` in the
/// order of `ordinals`. A device that cannot be used is an error where
/// `strict`, and is left out otherwise.
pub open spec fn with_configured(
    devices: Seq<CudaDeviceView>,
    readings: Seq<DeviceReading>,
    ordinals: Seq<u32>,
    strict: bool,
) -> Result<Seq<CudaDeviceView>, DeviceError>
    decreases ordinals.len(),
{
    if ordinals.len() == 0 {
        Ok(devices)
    } else {
        match with_configured(devices, readings, ordinals.drop_last(), strict) {
            Err(e) => Err(e),
            Ok(before) => match configured_device(readings, ordinals.last()) {
                Ok(device) => Ok(before.push(device)),
                Err(_) => if strict {
                    Err(DeviceError::ConfiguredDevice(ordinals.last()))
                } else {
                    Ok(before)
                },
            },
        }
    }
}

/// Every device that the driver reports: the usable devices among the
/// readings, in the order of the readings, as many as the driver counts.
/// It is an error when none is usable, and when fewer are usable than
/// the driver counts.
pub open spec fn all_devices(readings: Seq<DeviceReading>, device_count: u32) -> Result<
    Seq<CudaDeviceView>,
    DeviceError,
> {
    let found = usable_devices(readings, device_count as nat);
    if found.len() == 0 {
        Err(DeviceError::NoDevices)
    } else if found.len() < device_count {
        Err(DeviceError::FewerDevices { reported: device_count, found: found.len() as u32 })
    } else {
        Ok(found)
    }
}

/// The highest ordinal that is probed for a device.
pub const LAST_PROBED_ORDINAL: u32 = 100;

/// The ordinal to read next, for a table that holds the readings of the
/// ordinals from zero on: the one after the last that was read, as long
/// as fewer devices are usable than the driver counts and the ordinal
/// does not pass the highest that is probed.
pub open spec fn next_probe_of(readings: Seq<DeviceReading>, device_count: u32) -> Option<u32> {
    if usable_devices(readings, device_count as nat).len() < device_count && readings.len()
        <= LAST_PROBED_ORDINAL {
        Some(readings.len() as u32)
    } else {
        None
    }
}

/// Whether the ordinals of the readings rise from each to the next.
pub open spec fn readings_ascend(readings: Seq<DeviceReading>) -> bool {
    forall|i: int, j: int|
        0 <= i < j < readings.len() ==> (#[trigger] readings[i]).ordinal < (
        #[trigger] readings[j]).ordinal
}

/// Whether the ordinals of the devices rise from each to the next.
pub open spec fn devices_ascend(devices: Seq<CudaDeviceView>) -> bool {
    forall|i: int, j: int|
        0 <= i < j < devices.len() ==> (#[trigger] devices[i]).ordinal < (
        #[trigger] devices[j]).ordinal
}

/// Whether a reading is for `ordinal`.
pub open spec fn reads_ordinal(readings: Seq<DeviceReading>, ordinal: u32) -> bool {
    exists|i: int| 0 <= i < readings.len() && (#[trigger] readings[i]).ordinal == ordinal
}

/// The usable devices are no more than the limit and no more than the
/// readings, each is the device of one of the readings, and their
/// ordinals rise where those of the readings do.
pub proof fn lemma_usable_devices(readings: Seq<DeviceReading>, limit: nat)
    ensures
        usable_devices(readings, limit).len() <= limit,
        usable_devices(readings, limit).len() <= readings.len(),
        forall|k: int|
            0 <= k < usable_devices(readings, limit).len() ==> reads_ordinal(
                readings,
                (#[trigger] usable_devices(readings, limit)[k]).ordinal,
            ),
        readings_ascend(readings) ==> devices_ascend(usable_devices(readings, limit)),
    decreases readings.len(),
{
    if readings.len() > 0 {
        let rest = readings.drop_last();
        let before = usable_devices(rest, limit);
        let found = usable_devices(readings, limit);
        lemma_usable_devices(rest, limit);
        assert forall|k: int| 0 <= k < found.len() implies reads_ordinal(
            readings,
            (#[trigger] found[k]).ordinal,
        ) by {
            if k < before.len() {
                assert(found[k] == before[k]);
                assert(reads_ordinal(rest, before[k].ordinal));
                let i = choose|i: int|
                    0 <= i < rest.len() && (#[trigger] rest[i]).ordinal == before[k].ordinal;
                assert(readings[i] == rest[i]);
            } else {
                assert(readings[readings.len() - 1].ordinal == found[k].ordinal);
            }
        }
        if readings_ascend(readings) {
            assert(readings_ascend(rest)) by {
                assert forall|i: int, j: int| 0 <= i < j < rest.len() implies (
                #[trigger] rest[i]).ordinal < (#[trigger] rest[j]).ordinal by {
                    assert(rest[i] == readings[i]);
                    assert(rest[j] == readings[j]);
                }
            }
            assert forall|i: int, j: int| 0 <= i < j < found.len() implies (
            #[trigger] found[i]).ordinal < (#[trigger] found[j]).ordinal by {
                if j < before.len() {
                    assert(found[i] == before[i]);
                    assert(found[j] == before[j]);
                } else {
                    assert(found[i] == before[i]);
                    assert(reads_ordinal(rest, before[i].ordinal));
                    let r = choose|r: int|
                        0 <= r < rest.len() && (#[trigger] rest[r]).ordinal == before[i].ordinal;
                    assert(readings[r] == rest[r]);
                    assert(readings[r].ordinal < readings[readings.len() - 1].ordinal);
                    assert(found[j].ordinal == readings[readings.len() - 1].ordinal);
                }
            }
        }
    }
}

/// The devices in use after initialization: every usable device where
/// the configuration names none, else the devices in use before and
/// those that the configuration names.
pub open spec fn devices_after(
    devices: Seq<CudaDeviceView>,
    ordinals: Seq<u32>,
    readings: Seq<DeviceReading>,
    device_count: u32,
    strict: bool,
) -> Result<Seq<CudaDeviceView>, DeviceError> {
    if ordinals.len() == 0 {
        all_devices(readings, device_count)
    } else {
        with_configured(devices, readings, ordinals, strict)
    }
}

/// What initialization finds: the devices in use, the main one among
/// them, and their memory together.
pub open spec fn initialized(
    devices: Seq<CudaDeviceView>,
    ordinals: Seq<u32>,
    wanted: Option<u32>,
    readings: Seq<DeviceReading>,
    device_count: u32,
    strict: bool,
) -> Result<(Seq<CudaDeviceView>, u32, u64), DeviceError> {
    match devices_after(devices, ordinals, readings, device_count, strict) {
        Err(e) => Err(e),
        Ok(found) => if found.len() == 0 {
            Err(DeviceError::NoDevices)
        } else {
            match main_device(found, wanted, strict) {
                Err(e) => Err(e),
                Ok(main) => if total_vram(found) > u64::MAX {
                    Err(DeviceError::TotalVramOverflow)
                } else {
                    Ok((found, main, total_vram(found) as u64))
                },
            }
        },
    }
}

/// Whether a device has `ordinal`.
pub open spec fn has_ordinal(devices: Seq<CudaDeviceView>, ordinal: u32) -> bool {
    exists|i: int| 0 <= i < devices.len() && (#[trigger] devices[i]).ordinal == ordinal
}

/// The position of the device with the most memory, the last of them where several have it.
pub open spec fn largest(devices: Seq<CudaDeviceView>) -> int
    decreases devices.len(),
{
    if devices.len() <= 1 {
        0
    } else {
        let before = largest(devices.drop_last());
        if devices.last().available_vram_bytes >= devices[before].available_vram_bytes {
            devices.len() - 1
        } else {
            before
        }
    }
}

/// The main device: the one that the configuration names, where it is in
/// use; else, unless `strict`, the device with the most memory.
pub open spec fn main_device(devices: Seq<CudaDeviceView>, wanted: Option<u32>, strict: bool) -> Result<
    u32,
    DeviceError,
> {
    if wanted is Some && has_ordinal(devices, wanted->0) {
        Ok(wanted->0)
    } else if wanted is Some && strict {
        Err(DeviceError::MainGpuNotFound(wanted->0))
    } else if devices.len() == 0 {
        Err(DeviceError::NoDevicesForMainGpu)
    } else {
        Ok(devices[largest(devices)].ordinal)
    }
}

/// The memory of the devices together.
pub open spec fn total_vram(devices: Seq<CudaDeviceView>) -> int
    decreases devices.len(),
{
    if devices.len() == 0 {
        0
    } else {
        total_vram(devices.drop_last()) + devices.last().available_vram_bytes
    }
}

/// The device as the layer allocator sees it, marked where it is the main one.
pub open spec fn generic_gpu(device: CudaDeviceView, main: u32) -> GpuDevice {
    GpuDevice {
        ordinal: device.ordinal,
        available_vram_bytes: device.available_vram_bytes,
        allocated_layer_bytes: 0,
        allocated_buffer_bytes: 0,
        allocated_layers: 0,
        is_main_gpu: device.ordinal == main,
    }
}

/// The largest device has at least the memory of every device, and more
/// than every device after it.
pub proof fn lemma_largest(devices: Seq<CudaDeviceView>)
    requires
        devices.len() > 0,
    ensures
        0 <= largest(devices) < devices.len(),
        forall|i: int|
            0 <= i < devices.len() ==> (#[trigger] devices[i]).available_vram_bytes
                <= devices[largest(devices)].available_vram_bytes,
        forall|i: int|
            largest(devices) < i < devices.len() ==> (#[trigger] devices[i]).available_vram_bytes
                < devices[largest(devices)].available_vram_bytes,
    decreases devices.len(),
{
    if devices.len() > 1 {
        let rest = devices.drop_last();
        lemma_largest(rest);
        assert forall|i: int| 0 <= i < devices.len() implies (#[trigger] devices[i]).available_vram_bytes
            <= devices[largest(devices)].available_vram_bytes by {
            if i < rest.len() {
                assert(devices[i] == rest[i]);
            }
        }
        assert forall|i: int| largest(devices) < i < devices.len() implies (
        #[trigger] devices[i]).available_vram_bytes
            < devices[largest(devices)].available_vram_bytes by {
            if i < rest.len() {
                assert(devices[i] == rest[i]);
            }
        }
    }
}

impl CudaDevice {
    /// The device that a reading describes.
    ///
    /// A device that could not be read, that reports no memory, or that
    /// has less memory than the runtime's overhead is refused.
    pub fn new(reading: &DeviceReading) -> (device: Result<CudaDevice, DeviceError>)
        ensures
            match device_of(*reading) {
                Ok(view) => device matches Ok(d) && d@ == view,
                Err(e) => device == Err::<CudaDevice, DeviceError>(e),
            },
    {
        match reading.total_memory {
            None => Err(DeviceError::DeviceUnavailable(reading.ordinal)),
            Some(total) => {
                if total == 0 {
                    Err(DeviceError::NoVram(reading.ordinal))
                } else if total < CUDA_OVERHEAD {
                    Err(DeviceError::VramBelowOverhead(reading.ordinal))
                } else {
                    let (driver_major, driver_minor) = match reading.compute_capability {
                        Some(c) => (Some(c.0), Some(c.1)),
                        None => (None, None),
                    };
                    Ok(
                        CudaDevice {
                            ordinal: reading.ordinal,
                            available_vram_bytes: total - CUDA_OVERHEAD,
                            name: clone_opt(&reading.name),
                            power_limit: reading.power_limit,
                            driver_major,
                            driver_minor,
                        },
                    )
                }
            },
        }
    }

    /// The device as the layer allocator sees it: nothing placed on it, and not the main one.
    pub fn to_generic_gpu(&self) -> (gpu: GpuDevice)
        ensures
            gpu == (GpuDevice {
                ordinal: self.ordinal,
                available_vram_bytes: self.available_vram_bytes,
                allocated_layer_bytes: 0,
                allocated_buffer_bytes: 0,
                allocated_layers: 0,
                is_main_gpu: false,
            }),
    {
        GpuDevice {
            ordinal: self.ordinal,
            available_vram_bytes: self.available_vram_bytes,
            ..GpuDevice::default()
        }
    }
}

/// The usable devices among the readings, in order, `limit` of them at most.
fn collect_usable(readings: &Vec<DeviceReading>, limit: u32) -> (devices: Vec<CudaDevice>)
    ensures
        device_views(devices@) == usable_devices(readings@, limit as nat),
{
    let mut cuda_devices: Vec<CudaDevice> = Vec::new();
    let mut i: usize = 0;
    assert(readings@.take(0) =~= Seq::empty());
    assert(device_views(cuda_devices@) =~= Seq::empty());
    while i < readings.len()
        invariant
            i <= readings.len(),
            device_views(cuda_devices@) == usable_devices(readings@.take(i as int), limit as nat),
        decreases readings.len() - i,
    {
        let ghost before = device_views(cuda_devices@);
        proof {
            let now = readings@.take(i + 1);
            assert(now.drop_last() =~= readings@.take(i as int));
            assert(now.last() == readings@[i as int]);
        }
        if cuda_devices.len() < limit as usize {
            if let Ok(device) = CudaDevice::new(&readings[i]) {
                cuda_devices.push(device);
                assert(device_views(cuda_devices@) =~= before.push(device@));
            }
        }
        i += 1;
    }
    assert(readings@.take(i as int) =~= readings@);
    cuda_devices
}

/// Every device that the driver reports: the usable devices among the
/// readings, in the order of the readings, `device_count` of them.
///
/// It is an error when no reading is usable, and when the readings hold
/// fewer usable devices than the driver counts. Where the ordinals of the
/// readings rise, so do those of the devices.
pub fn get_all_cuda_devices(readings: &Vec<DeviceReading>, device_count: u32) -> (devices: Result<
    Vec<CudaDevice>,
    DeviceError,
>)
    ensures
        match all_devices(readings@, device_count) {
            Err(e) => devices == Err::<Vec<CudaDevice>, DeviceError>(e),
            Ok(found) => devices matches Ok(list) && device_views(list@) == found,
        },
        devices matches Ok(list) ==> {
            &&& list@.len() == device_count
            &&& list@.len() > 0
            &&& readings_ascend(readings@) ==> devices_ascend(device_views(list@))
        },
{
    proof {
        lemma_usable_devices(readings@, device_count as nat);
    }
    let cuda_devices = collect_usable(readings, device_count);
    let found = cuda_devices.len();
    if found == 0 {
        Err(DeviceError::NoDevices)
    } else if found < device_count as usize {
        Err(DeviceError::FewerDevices { reported: device_count, found: found as u32 })
    } else {
        Ok(cuda_devices)
    }
}

/// The ordinal to read next while the table of readings is filled from
/// ordinal zero on, or `None` when the table is complete: as many
/// devices are usable as the driver counts, or the highest ordinal that
/// is probed has been read.
pub fn next_probe(readings: &Vec<DeviceReading>, device_count: u32) -> (ordinal: Option<u32>)
    ensures
        ordinal == next_probe_of(readings@, device_count),
{
    if readings.len() > LAST_PROBED_ORDINAL as usize {
        return None;
    }
    let usable = collect_usable(readings, device_count);
    if usable.len() < device_count as usize {
        Some(readings.len() as u32)
    } else {
        None
    }
}

/// The first reading for `ordinal`.
pub fn find_reading(readings: &Vec<DeviceReading>, ordinal: u32) -> (position: Option<usize>)
    ensures
        match position {
            Some(p) => p == reading_position(readings@, ordinal) && p < readings@.len(),
            None => reading_position(readings@, ordinal) == readings@.len(),
        },
{
    let mut i: usize = 0;
    assert(readings@.skip(0) =~= readings@);
    while i < readings.len()
        invariant
            i <= readings.len(),
            reading_position(readings@, ordinal) == i + reading_position(
                readings@.skip(i as int),
                ordinal,
            ),
        decreases readings.len() - i,
    {
        assert(readings@.skip(i as int)[0] == readings@[i as int]);
        if readings[i].ordinal == ordinal {
            return Some(i);
        }
        assert(readings@.skip(i as int).skip(1) =~= readings@.skip(i + 1));
        i += 1;
    }
    None
}

/// Which CUDA devices to use, and what is known of them.
#[derive(Debug, Clone, PartialEq, Eq)]
pub struct CudaConfig {
    /// The ordinal of the main device. Where none is set, the device
    /// with the most memory is the main one.
    pub main_gpu: Option<u32>,
    /// The ordinals of the devices to use. Where none is named, every usable device is used.
    pub use_cuda_devices: Vec<u32>,
    /// The devices in use, once the configuration is initialized.
    pub cuda_devices: Vec<CudaDevice>,
    /// The memory of the devices in use together, in bytes.
    pub total_vram_bytes: u64,
}

impl Default for CudaConfig {
    /// No device named, none in use.
    fn default() -> (config: CudaConfig)
        ensures
            config.main_gpu is None,
            config.use_cuda_devices@.len() == 0,
            config.cuda_devices@.len() == 0,
            config.total_vram_bytes == 0,
    {
        CudaConfig {
            main_gpu: None,
            use_cuda_devices: Vec::new(),
            cuda_devices: Vec::new(),
            total_vram_bytes: 0,
        }
    }
}

impl CudaConfig {
    /// The views of the devices in use.
    pub open spec fn devices(&self) -> Seq<CudaDeviceView> {
        device_views(self.cuda_devices@)
    }

    /// A configuration that names the devices to use.
    pub fn new_from_cuda_devices(use_cuda_devices: Vec<u32>) -> (config: CudaConfig)
        ensures
            config.main_gpu is None,
            config.use_cuda_devices == use_cuda_devices,
            config.cuda_devices@.len() == 0,
            config.total_vram_bytes == 0,
    {
        CudaConfig { use_cuda_devices, ..CudaConfig::default() }
    }

    /// A configuration that names the devices to use and the main one among them.
    pub fn new_with_main_device(use_cuda_devices: Vec<u32>, main_gpu: u32) -> (config: CudaConfig)
        ensures
            config.main_gpu == Some(main_gpu),
            config.use_cuda_devices == use_cuda_devices,
            config.cuda_devices@.len() == 0,
            config.total_vram_bytes == 0,
    {
        CudaConfig { main_gpu: Some(main_gpu), use_cuda_devices, ..CudaConfig::default() }
    }

    /// A copy of the devices in use.
    fn copy_devices(&self) -> (copy: Vec<CudaDevice>)
        ensures
            device_views(copy@) == self.devices(),
    {
        let mut copy: Vec<CudaDevice> = Vec::new();
        let mut i: usize = 0;
        while i < self.cuda_devices.len()
            invariant
                i <= self.cuda_devices.len(),
                device_views(copy@) == self.devices().take(i as int),
            decreases self.cuda_devices.len() - i,
        {
            let ghost before = copy@;
            let device = &self.cuda_devices[i];
            let same = CudaDevice {
                ordinal: device.ordinal,
                available_vram_bytes: device.available_vram_bytes,
                name: clone_opt(&device.name),
                power_limit: device.power_limit,
                driver_major: device.driver_major,
                driver_minor: device.driver_minor,
            };
            assert(device_views(before).len() == i);
            copy.push(same);
            assert forall|j: int| 0 <= j < i + 1 implies device_views(copy@)[j]
                == self.devices().take(i + 1)[j] by {
                if j < i {
                    assert(device_views(before)[j] == self.devices().take(i as int)[j]);
                }
            }
            assert(device_views(copy@) =~= self.devices().take(i + 1));
            i += 1;
        }
        assert(self.devices().take(i as int) =~= self.devices());
        copy
    }

    /// The devices in use before and those that the configuration names.
    fn configured_devices(&self, readings: &Vec<DeviceReading>, strict: bool) -> (devices: Result<
        Vec<CudaDevice>,
        DeviceError,
    >)
        ensures
            match with_configured(self.devices(), readings@, self.use_cuda_devices@, strict) {
                Err(e) => devices == Err::<Vec<CudaDevice>, DeviceError>(e),
                Ok(found) => devices matches Ok(list) && device_views(list@) == found,
            },
    {
        let mut devices = self.copy_devices();
        let mut i: usize = 0;
        assert(self.use_cuda_devices@.take(0) =~= Seq::empty());
        while i < self.use_cuda_devices.len()
            invariant
                i <= self.use_cuda_devices.len(),
                with_configured(
                    self.devices(),
                    readings@,
                    self.use_cuda_devices@.take(i as int),
                    strict,
                ) == Ok::<Seq<CudaDeviceView>, DeviceError>(device_views(devices@)),
            decreases self.use_cuda_devices.len() - i,
        {
            let ghost before = device_views(devices@);
            let ordinal = self.use_cuda_devices[i];
            proof {
                let now = self.use_cuda_devices@.take(i + 1);
                assert(now.drop_last() =~= self.use_cuda_devices@.take(i as int));
                assert(now.last() == ordinal);
            }
            let device = match find_reading(readings, ordinal) {
                Some(p) => CudaDevice::new(&readings[p]),
                None => Err(DeviceError::DeviceUnavailable(ordinal)),
            };
            match device {
                Ok(d) => {
                    devices.push(d);
                    assert(device_views(devices@) =~= before.push(d@));
                },
                Err(_) => {
                    if strict {
                        proof {
                            lemma_configured_fails(
                                self.devices(),
                                readings@,
                                self.use_cuda_devices@,
                                strict,
                                i + 1,
                            );
                        }
                        return Err(DeviceError::ConfiguredDevice(ordinal));
                    }
                },
            }
            i += 1;
        }
        assert(self.use_cuda_devices@.take(i as int) =~= self.use_cuda_devices@);
        Ok(devices)
    }

    /// Finds the devices to use among the readings, the main device, and
    /// the memory of the devices together.
    ///
    /// Where the configuration names no devices, the usable devices
    /// among the readings are used, `device_count` of them at most. Where
    /// it names some, each is looked up among the readings and added to
    /// the devices in use; one that cannot be used is an error if
    /// `error_on_config_issue` and is left out otherwise. There has to be
    /// a device in the end. A configuration that cannot be initialized
    /// stays as it is.
    pub fn initialize(
        &mut self,
        readings: &Vec<DeviceReading>,
        device_count: u32,
        error_on_config_issue: bool,
    ) -> (result: Result<(), DeviceError>)
        ensures
            match initialized(
                old(self).devices(),
                old(self).use_cuda_devices@,
                old(self).main_gpu,
                readings@,
                device_count,
                error_on_config_issue,
            ) {
                Err(e) => result == Err::<(), DeviceError>(e) && *final(self) == *old(self),
                Ok((devices, main, total)) => {
                    &&& result is Ok
                    &&& final(self).devices() == devices
                    &&& final(self).main_gpu == Some(main)
                    &&& final(self).total_vram_bytes == total
                    &&& final(self).use_cuda_devices == old(self).use_cuda_devices
                },
            },
    {
        let found = if self.use_cuda_devices.len() == 0 {
            get_all_cuda_devices(readings, device_count)
        } else {
            self.configured_devices(readings, error_on_config_issue)
        };
        let mut devices = match found {
            Err(e) => {
                return Err(e);
            },
            Ok(d) => d,
        };
        if devices.len() == 0 {
            return Err(DeviceError::NoDevices);
        }
        core::mem::swap(&mut devices, &mut self.cuda_devices);
        let main = match self.main_gpu(error_on_config_issue) {
            Err(e) => {
                core::mem::swap(&mut devices, &mut self.cuda_devices);
                return Err(e);
            },
            Ok(m) => m,
        };
        match self.sum_vram() {
            None => {
                core::mem::swap(&mut devices, &mut self.cuda_devices);
                Err(DeviceError::TotalVramOverflow)
            },
            Some(total) => {
                self.main_gpu = Some(main);
                self.total_vram_bytes = total;
                Ok(())
            },
        }
    }

    /// The number of devices in use.
    pub fn device_count(&self) -> (count: usize)
        ensures
            count == self.cuda_devices@.len(),
    {
        self.cuda_devices.len()
    }

    /// Whether a device in use has `ordinal`.
    pub fn uses(&self, ordinal: u32) -> (found: bool)
        ensures
            found == has_ordinal(self.devices(), ordinal),
    {
        let mut i: usize = 0;
        while i < self.cuda_devices.len()
            invariant
                i <= self.cuda_devices.len(),
                forall|j: int| 0 <= j < i ==> (#[trigger] self.devices()[j]).ordinal != ordinal,
            decreases self.cuda_devices.len() - i,
        {
            if self.cuda_devices[i].ordinal == ordinal {
                assert(self.devices()[i as int].ordinal == ordinal);
                return true;
            }
            i += 1;
        }
        false
    }

    /// The ordinal of the main device.
    ///
    /// It is the device that the configuration names, where that device
    /// is in use. Where it is not, this is an error if
    /// `error_on_config_issue`; else, and where no device is named, the
    /// device with the most memory is the main one, the last of them
    /// where several have it. Without devices there is no main device.
    pub fn main_gpu(&self, error_on_config_issue: bool) -> (main: Result<u32, DeviceError>)
        ensures
            main == main_device(self.devices(), self.main_gpu, error_on_config_issue),
    {
        if let Some(main_gpu) = self.main_gpu {
            if self.uses(main_gpu) {
                return Ok(main_gpu);
            }
            if error_on_config_issue {
                return Err(DeviceError::MainGpuNotFound(main_gpu));
            }
        }
        if self.cuda_devices.len() == 0 {
            return Err(DeviceError::NoDevicesForMainGpu);
        }
        let mut best: usize = 0;
        let mut i: usize = 1;
        assert(self.devices().take(1).len() == 1);
        while i < self.cuda_devices.len()
            invariant
                1 <= i <= self.cuda_devices.len(),
                best < i,
                best == largest(self.devices().take(i as int)),
            decreases self.cuda_devices.len() - i,
        {
            proof {
                let now = self.devices().take(i + 1);
                assert(now.drop_last() =~= self.devices().take(i as int));
                assert(now.last() == self.devices()[i as int]);
                assert(now[best as int] == self.devices()[best as int]);
            }
            if self.cuda_devices[i].available_vram_bytes
                >= self.cuda_devices[best].available_vram_bytes {
                best = i;
            }
            i += 1;
        }
        assert(self.devices().take(i as int) =~= self.devices());
        Ok(self.cuda_devices[best].ordinal)
    }

    /// The devices in use as the layer allocator sees them, the main one marked.
    pub fn to_generic_gpu_devices(&self, error_on_config_issue: bool) -> (gpus: Result<
        Vec<GpuDevice>,
        DeviceError,
    >)
        ensures
            match main_device(self.devices(), self.main_gpu, error_on_config_issue) {
                Err(e) => gpus == Err::<Vec<GpuDevice>, DeviceError>(e),
                Ok(main) => gpus matches Ok(list) && list@ == self.devices().map_values(
                    |d: CudaDeviceView| generic_gpu(d, main),
                ),
            },
    {
        let main_gpu = match self.main_gpu(error_on_config_issue) {
            Err(e) => {
                return Err(e);
            },
            Ok(m) => m,
        };
        let mut gpu_devices: Vec<GpuDevice> = Vec::new();
        let mut i: usize = 0;
        while i < self.cuda_devices.len()
            invariant
                i <= self.cuda_devices.len(),
                gpu_devices@ == self.devices().take(i as int).map_values(
                    |d: CudaDeviceView| generic_gpu(d, main_gpu),
                ),
            decreases self.cuda_devices.len() - i,
        {
            let mut gpu = self.cuda_devices[i].to_generic_gpu();
            if gpu.ordinal == main_gpu {
                gpu.is_main_gpu = true;
            }
            gpu_devices.push(gpu);
            assert(gpu_devices@ =~= self.devices().take(i + 1).map_values(
                |d: CudaDeviceView| generic_gpu(d, main_gpu),
            ));
            i += 1;
        }
        assert(self.devices().take(i as int) =~= self.devices());
        Ok(gpu_devices)
    }

    /// The memory of the devices in use together, where it fits in 64 bits.
    pub fn sum_vram(&self) -> (total: Option<u64>)
        ensures
            match total {
                Some(t) => t == total_vram(self.devices()),
                None => total_vram(self.devices()) > u64::MAX,
            },
    {
        let mut total: u64 = 0;
        let mut i: usize = 0;
        assert(self.devices().take(0) =~= Seq::empty());
        while i < self.cuda_devices.len()
            invariant
                i <= self.cuda_devices.len(),
                total == total_vram(self.devices().take(i as int)),
            decreases self.cuda_devices.len() - i,
        {
            proof {
                let now = self.devices().take(i + 1);
                assert(now.drop_last() =~= self.devices().take(i as int));
                assert(now.last() == self.devices()[i as int]);
            }
            let vram = self.cuda_devices[i].available_vram_bytes;
            if vram > u64::MAX - total {
                proof {
                    lemma_total_vram_grows(self.devices(), i + 1);
                }
                return None;
            }
            total = total + vram;
            i += 1;
        }
        assert(self.devices().take(i as int) =~= self.devices());
        Some(total)
    }
}

/// Once a named device fails under a strict configuration, the whole list fails.
proof fn lemma_configured_fails(
    devices: Seq<CudaDeviceView>,
    readings: Seq<DeviceReading>,
    ordinals: Seq<u32>,
    strict: bool,
    n: int,
)
    requires
        0 <= n <= ordinals.len(),
        with_configured(devices, readings, ordinals.take(n), strict) is Err,
    ensures
        with_configured(devices, readings, ordinals, strict) == with_configured(
            devices,
            readings,
            ordinals.take(n),
            strict,
        ),
    decreases ordinals.len() - n,
{
    if n < ordinals.len() {
        assert(ordinals.take(n + 1).drop_last() =~= ordinals.take(n));
        lemma_configured_fails(devices, readings, ordinals, strict, n + 1);
    } else {
        assert(ordinals.take(n) =~= ordinals);
    }
}

/// The memory of the first devices is no more than the memory of all.
pub proof fn lemma_total_vram_grows(devices: Seq<CudaDeviceView>, n: int)
    requires
        0 <= n <= devices.len(),
    ensures
        total_vram(devices.take(n)) <= total_vram(devices),
    decreases devices.len() - n,
{
    if n < devices.len() {
        lemma_total_vram_grows(devices, n + 1);
        assert(devices.take(n + 1).drop_last() =~= devices.take(n));
    } else {
        assert(devices.take(n) =~= devices);
    }
}

} // verus!
