use alith_engine::devices::cuda::{
    find_reading, get_all_cuda_devices, next_probe, CudaConfig, CudaDevice, DeviceError,
    DeviceReading, CUDA_OVERHEAD, LAST_PROBED_ORDINAL,
};
use alith_engine::devices::gpu::GpuDevice;

const GIB: u64 = 1024 * 1024 * 1024;

fn reading(ordinal: u32, total_memory: Option<u64>) -> DeviceReading {
    DeviceReading {
        ordinal,
        total_memory,
        name: Some(format!("gpu{}", ordinal)),
        power_limit: Some(250_000),
        compute_capability: Some((8, 6)),
    }
}

fn device(ordinal: u32, available_vram_bytes: u64) -> CudaDevice {
    CudaDevice {
        ordinal,
        available_vram_bytes,
        name: None,
        power_limit: None,
        driver_major: None,
        driver_minor: None,
    }
}

fn config(devices: Vec<CudaDevice>, main_gpu: Option<u32>) -> CudaConfig {
    CudaConfig { main_gpu, use_cuda_devices: Vec::new(), cuda_devices: devices, total_vram_bytes: 0 }
}

#[test]
fn overhead_is_five_hundred_mebibytes() {
    assert_eq!(CUDA_OVERHEAD, 500 * 1024 * 1024);
}

#[test]
fn device_keeps_the_memory_beyond_the_overhead() {
    let found = CudaDevice::new(&reading(3, Some(8 * GIB))).unwrap();
    assert_eq!(found.ordinal, 3);
    assert_eq!(found.available_vram_bytes, 8 * GIB - CUDA_OVERHEAD);
    assert_eq!(found.name, Some("gpu3".to_string()));
    assert_eq!(found.power_limit, Some(250_000));
    assert_eq!(found.driver_major, Some(8));
    assert_eq!(found.driver_minor, Some(6));
    let bare = DeviceReading {
        ordinal: 0,
        total_memory: Some(CUDA_OVERHEAD),
        name: None,
        power_limit: None,
        compute_capability: None,
    };
    let found = CudaDevice::new(&bare).unwrap();
    assert_eq!(found.available_vram_bytes, 0);
    assert_eq!(found.driver_major, None);
    assert_eq!(found.driver_minor, None);
}

#[test]
fn device_that_cannot_be_used_is_refused() {
    assert_eq!(CudaDevice::new(&reading(1, None)), Err(DeviceError::DeviceUnavailable(1)));
    assert_eq!(CudaDevice::new(&reading(2, Some(0))), Err(DeviceError::NoVram(2)));
    assert_eq!(
        CudaDevice::new(&reading(4, Some(CUDA_OVERHEAD - 1))),
        Err(DeviceError::VramBelowOverhead(4))
    );
}

#[test]
fn device_error_messages() {
    assert_eq!(DeviceError::NoDevices.message(), "No CUDA devices found");
    assert_eq!(
        DeviceError::FewerDevices { reported: 4, found: 3 }.message(),
        "nvml_wrapper reported 4 devices, but we were only able to get 3"
    );
    assert_eq!(
        DeviceError::NoDevicesForMainGpu.message(),
        "No devices found when setting main gpu"
    );
    assert_eq!(DeviceError::DeviceUnavailable(12).message(), "Failed to get device 12");
    assert_eq!(
        DeviceError::NoVram(3).message(),
        "Device 3 has 0 bytes of VRAM. Skipping device."
    );
    assert_eq!(
        DeviceError::VramBelowOverhead(3).message(),
        "Device 3 has less VRAM than the CUDA overhead. Skipping device."
    );
    assert_eq!(
        DeviceError::ConfiguredDevice(7).message(),
        "Failed to get device 7 specified in cuda_devices"
    );
    assert_eq!(
        DeviceError::MainGpuNotFound(9).message(),
        "Main GPU set by user 9 not found in CUDA devices"
    );
    assert_eq!(DeviceError::TotalVramOverflow.message(), "Total VRAM does not fit in 64 bits");
}

#[test]
fn generic_gpu_has_nothing_placed_on_it() {
    assert_eq!(
        device(2, 77).to_generic_gpu(),
        GpuDevice {
            ordinal: 2,
            available_vram_bytes: 77,
            allocated_layer_bytes: 0,
            allocated_buffer_bytes: 0,
            allocated_layers: 0,
            is_main_gpu: false,
        }
    );
    assert_eq!(GpuDevice::default().ordinal, 0);
}

#[test]
fn usable_devices_are_collected_in_order() {
    let readings = vec![
        reading(0, Some(8 * GIB)),
        reading(1, None),
        reading(2, Some(0)),
        reading(3, Some(4 * GIB)),
        reading(4, Some(2 * GIB)),
    ];
    let all = get_all_cuda_devices(&readings, 3).unwrap();
    assert_eq!(all.iter().map(|d| d.ordinal).collect::<Vec<_>>(), vec![0, 3, 4]);
    assert_eq!(all[1].available_vram_bytes, 4 * GIB - CUDA_OVERHEAD);
    let two = get_all_cuda_devices(&readings, 2).unwrap();
    assert_eq!(two.iter().map(|d| d.ordinal).collect::<Vec<_>>(), vec![0, 3]);
    let one = get_all_cuda_devices(&readings, 1).unwrap();
    assert_eq!(one.iter().map(|d| d.ordinal).collect::<Vec<_>>(), vec![0]);
}

#[test]
fn fewer_usable_devices_than_the_driver_counts_is_an_error() {
    let readings = vec![
        reading(0, Some(8 * GIB)),
        reading(1, None),
        reading(2, Some(0)),
        reading(3, Some(4 * GIB)),
        reading(4, Some(2 * GIB)),
    ];
    assert_eq!(
        get_all_cuda_devices(&readings, 10),
        Err(DeviceError::FewerDevices { reported: 10, found: 3 })
    );
    assert_eq!(
        get_all_cuda_devices(&readings, 4),
        Err(DeviceError::FewerDevices { reported: 4, found: 3 })
    );
    assert_eq!(
        get_all_cuda_devices(&readings[..1].to_vec(), 2),
        Err(DeviceError::FewerDevices { reported: 2, found: 1 })
    );
    assert_eq!(get_all_cuda_devices(&readings, 0), Err(DeviceError::NoDevices));
    assert_eq!(get_all_cuda_devices(&readings[1..3].to_vec(), 5), Err(DeviceError::NoDevices));
    assert_eq!(get_all_cuda_devices(&Vec::new(), 5), Err(DeviceError::NoDevices));
    assert_eq!(get_all_cuda_devices(&Vec::new(), 0), Err(DeviceError::NoDevices));
}

#[test]
fn devices_keep_the_order_of_the_readings() {
    let readings = vec![reading(7, Some(8 * GIB)), reading(2, Some(8 * GIB))];
    let found = get_all_cuda_devices(&readings, 2).unwrap();
    assert_eq!(found.iter().map(|d| d.ordinal).collect::<Vec<_>>(), vec![7, 2]);
}

#[test]
fn probing_goes_on_until_enough_devices_are_usable() {
    let mut readings = Vec::new();
    assert_eq!(next_probe(&readings, 2), Some(0));
    assert_eq!(next_probe(&readings, 0), None);
    readings.push(reading(0, Some(8 * GIB)));
    assert_eq!(next_probe(&readings, 2), Some(1));
    assert_eq!(next_probe(&readings, 1), None);
    readings.push(reading(1, None));
    assert_eq!(next_probe(&readings, 2), Some(2));
    readings.push(reading(2, Some(8 * GIB)));
    assert_eq!(next_probe(&readings, 2), None);
    assert_eq!(next_probe(&readings, 3), Some(3));
}

#[test]
fn probing_ends_after_the_last_probed_ordinal() {
    assert_eq!(LAST_PROBED_ORDINAL, 100);
    let mut readings: Vec<DeviceReading> = (0..100).map(|ordinal| reading(ordinal, None)).collect();
    assert_eq!(next_probe(&readings, 1), Some(100));
    readings.push(reading(100, None));
    assert_eq!(readings.len(), 101);
    assert_eq!(next_probe(&readings, 1), None);
    assert_eq!(get_all_cuda_devices(&readings, 1), Err(DeviceError::NoDevices));
}

#[test]
fn readings_are_found_by_ordinal() {
    let readings = vec![reading(5, None), reading(7, Some(1)), reading(5, Some(2))];
    assert_eq!(find_reading(&readings, 5), Some(0));
    assert_eq!(find_reading(&readings, 7), Some(1));
    assert_eq!(find_reading(&readings, 0), None);
}

#[test]
fn configurations_name_their_devices() {
    let named = CudaConfig::new_from_cuda_devices(vec![1, 0]);
    assert_eq!(named.main_gpu, None);
    assert_eq!(named.use_cuda_devices, vec![1, 0]);
    assert_eq!(named.device_count(), 0);
    assert_eq!(named.total_vram_bytes, 0);
    let with_main = CudaConfig::new_with_main_device(vec![1, 0], 1);
    assert_eq!(with_main.main_gpu, Some(1));
    assert_eq!(with_main.use_cuda_devices, vec![1, 0]);
    assert_eq!(CudaConfig::default().use_cuda_devices, Vec::<u32>::new());
}

#[test]
fn main_gpu_is_the_named_device_where_it_is_in_use() {
    let devices = vec![device(0, 10), device(1, 30), device(2, 20)];
    assert_eq!(config(devices.clone(), Some(2)).main_gpu(true), Ok(2));
    assert_eq!(config(devices.clone(), Some(2)).main_gpu(false), Ok(2));
    assert_eq!(
        config(devices.clone(), Some(9)).main_gpu(true),
        Err(DeviceError::MainGpuNotFound(9))
    );
    assert_eq!(config(devices.clone(), Some(9)).main_gpu(false), Ok(1));
    assert_eq!(config(devices, None).main_gpu(true), Ok(1));
}

#[test]
fn main_gpu_is_the_last_of_the_largest_devices() {
    let devices = vec![device(4, 30), device(5, 10), device(6, 30), device(7, 5)];
    assert_eq!(config(devices, None).main_gpu(false), Ok(6));
    assert_eq!(config(vec![device(3, 0)], None).main_gpu(false), Ok(3));
    assert_eq!(config(Vec::new(), None).main_gpu(false), Err(DeviceError::NoDevicesForMainGpu));
    assert_eq!(config(Vec::new(), None).main_gpu(true), Err(DeviceError::NoDevicesForMainGpu));
    assert_eq!(
        config(Vec::new(), Some(1)).main_gpu(false),
        Err(DeviceError::NoDevicesForMainGpu)
    );
    assert_eq!(config(Vec::new(), Some(1)).main_gpu(true), Err(DeviceError::MainGpuNotFound(1)));
}

#[test]
fn generic_gpus_mark_the_main_device() {
    let devices = vec![device(0, 10), device(1, 30)];
    let gpus = config(devices.clone(), None).to_generic_gpu_devices(true).unwrap();
    assert_eq!(gpus.len(), 2);
    assert_eq!((gpus[0].ordinal, gpus[0].available_vram_bytes, gpus[0].is_main_gpu), (0, 10, false));
    assert_eq!((gpus[1].ordinal, gpus[1].available_vram_bytes, gpus[1].is_main_gpu), (1, 30, true));
    assert_eq!(
        config(devices, Some(5)).to_generic_gpu_devices(true),
        Err(DeviceError::MainGpuNotFound(5))
    );
    assert_eq!(
        config(Vec::new(), None).to_generic_gpu_devices(false),
        Err(DeviceError::NoDevicesForMainGpu)
    );
}

#[test]
fn memory_adds_up() {
    assert_eq!(config(vec![device(0, 10), device(1, 30)], None).sum_vram(), Some(40));
    assert_eq!(config(Vec::new(), None).sum_vram(), Some(0));
    assert_eq!(config(vec![device(0, u64::MAX), device(1, 1)], None).sum_vram(), None);
    assert!(config(vec![device(0, 10)], None).uses(0));
    assert!(!config(vec![device(0, 10)], None).uses(1));
}

#[test]
fn initialize_uses_every_usable_device_where_none_is_named() {
    let readings = vec![reading(0, Some(8 * GIB)), reading(1, None), reading(2, Some(16 * GIB))];
    let mut cuda = CudaConfig::default();
    assert_eq!(cuda.initialize(&readings, 2, true), Ok(()));
    assert_eq!(cuda.device_count(), 2);
    assert_eq!(cuda.cuda_devices[0].ordinal, 0);
    assert_eq!(cuda.cuda_devices[1].ordinal, 2);
    assert_eq!(cuda.main_gpu, Some(2));
    assert_eq!(cuda.total_vram_bytes, 24 * GIB - 2 * CUDA_OVERHEAD);
}

#[test]
fn initialize_needs_as_many_devices_as_the_driver_counts() {
    let readings = vec![reading(0, Some(8 * GIB)), reading(1, None)];
    let mut cuda = CudaConfig::default();
    assert_eq!(
        cuda.initialize(&readings, 2, false),
        Err(DeviceError::FewerDevices { reported: 2, found: 1 })
    );
    assert_eq!(cuda, CudaConfig::default());
    assert_eq!(cuda.initialize(&readings, 1, false), Ok(()));
    assert_eq!(cuda.device_count(), 1);
}

#[test]
fn initialize_looks_the_named_devices_up() {
    let readings = vec![reading(0, Some(8 * GIB)), reading(1, None), reading(2, Some(16 * GIB))];
    let mut cuda = CudaConfig::new_with_main_device(vec![2, 0], 0);
    assert_eq!(cuda.initialize(&readings, 3, true), Ok(()));
    assert_eq!(cuda.cuda_devices.iter().map(|d| d.ordinal).collect::<Vec<_>>(), vec![2, 0]);
    assert_eq!(cuda.main_gpu, Some(0));
    assert_eq!(cuda.total_vram_bytes, 24 * GIB - 2 * CUDA_OVERHEAD);
    assert_eq!(cuda.use_cuda_devices, vec![2, 0]);
}

#[test]
fn initialize_fails_on_a_named_device_that_cannot_be_used_where_strict() {
    let readings = vec![reading(0, Some(8 * GIB)), reading(1, None)];
    let mut strict = CudaConfig::new_from_cuda_devices(vec![0, 1, 5]);
    let before = strict.clone();
    assert_eq!(strict.initialize(&readings, 2, true), Err(DeviceError::ConfiguredDevice(1)));
    assert_eq!(strict, before);
    let mut lenient = CudaConfig::new_from_cuda_devices(vec![0, 1, 5]);
    assert_eq!(lenient.initialize(&readings, 2, false), Ok(()));
    assert_eq!(lenient.cuda_devices.iter().map(|d| d.ordinal).collect::<Vec<_>>(), vec![0]);
    assert_eq!(lenient.main_gpu, Some(0));
    let mut missing = CudaConfig::new_from_cuda_devices(vec![5]);
    assert_eq!(missing.initialize(&readings, 2, true), Err(DeviceError::ConfiguredDevice(5)));
}

#[test]
fn initialize_fails_without_devices_and_changes_nothing() {
    let readings = vec![reading(1, None)];
    let mut none = CudaConfig::default();
    assert_eq!(none.initialize(&readings, 1, false), Err(DeviceError::NoDevices));
    assert_eq!(none, CudaConfig::default());
    let mut named = CudaConfig::new_from_cuda_devices(vec![1]);
    assert_eq!(named.initialize(&readings, 1, false), Err(DeviceError::NoDevices));
    let usable = vec![reading(0, Some(8 * GIB))];
    let mut wrong_main = CudaConfig::new_with_main_device(vec![0], 3);
    let before = wrong_main.clone();
    assert_eq!(wrong_main.initialize(&usable, 1, true), Err(DeviceError::MainGpuNotFound(3)));
    assert_eq!(wrong_main, before);
    assert_eq!(wrong_main.initialize(&usable, 1, false), Ok(()));
    assert_eq!(wrong_main.main_gpu, Some(0));
}

#[test]
fn initialize_adds_named_devices_to_those_in_use() {
    let readings = vec![reading(1, Some(8 * GIB))];
    let mut cuda = CudaConfig::new_from_cuda_devices(vec![1]);
    cuda.cuda_devices.push(device(0, 5));
    assert_eq!(cuda.initialize(&readings, 1, true), Ok(()));
    assert_eq!(cuda.cuda_devices.iter().map(|d| d.ordinal).collect::<Vec<_>>(), vec![0, 1]);
    assert_eq!(cuda.total_vram_bytes, 5 + 8 * GIB - CUDA_OVERHEAD);
    let mut overflow = CudaConfig::new_from_cuda_devices(vec![1]);
    overflow.cuda_devices.push(device(0, u64::MAX));
    assert_eq!(overflow.initialize(&readings, 1, true), Err(DeviceError::TotalVramOverflow));
    assert_eq!(overflow.cuda_devices.len(), 1);
}
