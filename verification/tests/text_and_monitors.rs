use verostat::dashboard::{cores_spec_line, gpu_detail_line, peak_core_mhz, process_label_line, shorten_name, threads_title};
use verostat::monitors::{top_positions, 
    disk_usage, is_cpu_sensor_label, is_listed_process, nvml_device_name, nvml_reading, sum_pairs, CpuMonitor,
    GenericGpuProvider, GpuProvider, MemoryMonitor, TrafficCounter,
};
use verostat::network::NetworkData;
use verostat::text::to_wide;

fn reference_shorten(name: &str, max_len: usize) -> String {
    let trimmed = name
        .replace("11th Gen ", "")
        .replace("(R)", "")
        .replace("(TM)", "")
        .replace("Intel Core ", "")
        .replace("NVIDIA GeForce ", "")
        .trim()
        .to_string();
    if trimmed.chars().count() > max_len {
        let short: String = trimmed.chars().take(max_len.saturating_sub(1)).collect();
        format!("{}\u{2026}", short)
    } else {
        trimmed
    }
}

#[test]
fn shorten_name_examples() {
    assert_eq!(shorten_name("11th Gen Intel(R) Core(TM) i5-11400H @ 2.70GHz", 18), "i5-11400H @ 2.70G\u{2026}");
    assert_eq!(shorten_name("NVIDIA GeForce RTX 3060 Laptop GPU", 18), "RTX 3060 Laptop GPU".chars().take(17).collect::<String>() + "\u{2026}");
    assert_eq!(shorten_name("  AMD Ryzen 7  ", 18), "AMD Ryzen 7");
    assert_eq!(shorten_name("abc", 0), "\u{2026}");
    for name in [
        "11th Gen Intel(R) Core(TM) i7-1165G7 @ 2.80GHz",
        "Intel Core i9",
        "(R)(R)(TM)x\u{3000}",
        "\u{2003}NVIDIA GeForce NVIDIA GeForce GTX 1080\t",
        "11th Gen 11th Gen ",
        "(T(TM)M)",
        "",
        "\u{e9}\u{e8} caf\u{e9} long name with accents and more",
    ] {
        for k in [0usize, 1, 2, 5, 14, 18, 38, 100] {
            assert_eq!(shorten_name(name, k), reference_shorten(name, k), "{:?} {}", name, k);
        }
    }
}

#[test]
fn wide_strings() {
    for s in ["", "Software\\Microsoft\\Windows\\CurrentVersion\\Run", "VeroStat", "\u{e9}\u{1F600}x"] {
        let expected: Vec<u16> = s.encode_utf16().chain(std::iter::once(0)).collect();
        assert_eq!(to_wide(s), expected);
    }
}

#[test]
fn cpu_model_is_cached() {
    let mut m = CpuMonitor::new();
    assert_eq!(m.model(Some("  Intel(R) Core(TM) i5  ")), "Intel(R) Core(TM) i5");
    assert_eq!(m.model(Some("Other")), "Intel(R) Core(TM) i5");
    let mut m = CpuMonitor::new();
    assert_eq!(m.model(Some("   ")), "Unknown CPU");
    let mut m = CpuMonitor::new();
    assert_eq!(m.model(None), "Unknown CPU");
    let _ = MemoryMonitor::new();
}

#[test]
fn generic_gpu_provider() {
    let mut p = GenericGpuProvider::try_new().unwrap();
    let d = p.sample().unwrap();
    assert_eq!(d.name, "Generic / Integrated GPU");
    assert!(d.usage.is_none() && d.temperature.is_none() && d.memory_used.is_none() && d.memory_total.is_none());
}

#[test]
fn nvml_results() {
    let name = String::from("RTX");
    let d = nvml_reading(&name, 0, 37, 0, 64, 0, 10, 20);
    assert_eq!((d.usage, d.temperature, d.memory_used, d.memory_total), (Some(37), Some(64), Some(10), Some(20)));
    let d = nvml_reading(&name, 3, 37, 999, 64, 1, 10, 20);
    assert_eq!((d.usage, d.temperature, d.memory_used, d.memory_total), (None, None, None, None));
    let mut buf = [0u8; 96];
    buf[..22].copy_from_slice(b" NVIDIA GeForce RTX 30");
    assert_eq!(nvml_device_name(0, &buf), "NVIDIA GeForce RTX 30");
    assert_eq!(nvml_device_name(1, &buf), "NVIDIA GPU");
    let full = [b'A'; 96];
    assert_eq!(nvml_device_name(0, &full), "A".repeat(96));
    let bad = [0xffu8, b'x', 0, b'y'];
    assert_eq!(nvml_device_name(0, &bad), "\u{fffd}x");
}

#[test]
fn sensor_labels_and_processes() {
    assert!(is_cpu_sensor_label("CPU Package"));
    assert!(is_cpu_sensor_label("acpitz Thermal"));
    assert!(is_cpu_sensor_label("Core 0"));
    assert!(!is_cpu_sensor_label("nvme Composite"));
    assert!(!is_cpu_sensor_label(""));
    assert!(is_listed_process("chrome.exe"));
    assert!(!is_listed_process("System"));
    assert!(!is_listed_process("System Idle Process"));
    assert!(!is_listed_process(""));
    assert!(is_listed_process("Systemd"));
}

#[test]
fn counters_and_disks() {
    assert_eq!(sum_pairs(&vec![(1, 2), (3, 4), (5, 6)]), (9, 12));
    assert_eq!(disk_usage(&vec![(100, 30), (50, 50)]), (150, 70));
    assert_eq!(disk_usage(&vec![(10, 30)]), (10, 0));
    let mut c = TrafficCounter::new(1000, 500);
    assert_eq!(c.advance(1500, 400), (500, 0));
    assert_eq!(c.advance(1500, 400), (0, 0));
    let d = NetworkData::default();
    assert_eq!((d.download_speed, d.upload_speed), (0, 0));
}

#[test]
fn inspector_texts() {
    assert_eq!(peak_core_mhz(&vec![]), 0);
    assert_eq!(peak_core_mhz(&vec![2400, 4100, 3900]), 4100);
    assert_eq!(cores_spec_line(6, 12, " \u{2022} Base 2.7 GHz"), "6 Physical Cores \u{2022} 12 Logical Threads \u{2022} Base 2.7 GHz");
    assert_eq!(cores_spec_line(0, 8, ""), "8 Logical Threads");
    assert_eq!(threads_title(16), "LOGICAL PROCESSORS (16 THREADS)");
    assert_eq!(process_label_line(0, "Code.exe"), "1. Code.exe");
    assert_eq!(gpu_detail_line(Some(51), Some(3 * 1024 * 1024 * 1024 / 2), Some(8 * 1024 * 1024 * 1024)), "51\u{b0}C \u{2022} 1.5/8G");
    assert_eq!(gpu_detail_line(None, Some(1), Some(2)), "N/A");
    assert_eq!(gpu_detail_line(Some(40), None, Some(2)), "40\u{b0}C");
}

/// Positions a stable descending sort puts first, cut to `count`.
fn reference_top(keys: &[u32], count: usize) -> Vec<usize> {
    let mut idx: Vec<usize> = (0..keys.len()).collect();
    idx.sort_by(|a, b| keys[*b].cmp(&keys[*a]));
    idx.truncate(count);
    idx
}

#[test]
fn top_positions_picks_highest_loads_stably() {
    assert_eq!(top_positions(&vec![5, 9, 5, 9], 3), vec![1, 3, 0]);
    assert_eq!(top_positions(&vec![], 3), Vec::<usize>::new());
    assert_eq!(top_positions(&vec![7, 7], 3), vec![0, 1]);
    assert_eq!(top_positions(&vec![1, 2, 3, 4], 0), Vec::<usize>::new());
    assert_eq!(top_positions(&vec![1, 2, 3, 4, 5], 3), vec![4, 3, 2]);
    let mut seed: u64 = 12345;
    for round in 0..300 {
        let n = (round % 9) as usize;
        let keys: Vec<u32> = (0..n)
            .map(|_| {
                seed = seed.wrapping_mul(6364136223846793005).wrapping_add(1442695040888963407);
                ((seed >> 33) % 5) as u32
            })
            .collect();
        for count in 0..5 {
            assert_eq!(top_positions(&keys, count), reference_top(&keys, count), "{:?} {}", keys, count);
        }
    }
}

#[test]
fn traffic_deltas_add_up() {
    let mut whole = TrafficCounter::new(1000, 50);
    let mut steps = TrafficCounter::new(1000, 50);
    let (a, b) = steps.advance(1700, 90);
    let (c, d) = steps.advance(2600, 90);
    assert_eq!(whole.advance(2600, 90), (a + c, b + d));
    assert_eq!(steps.advance(2600, 90), (0, 0));
    assert_eq!(steps.advance(10, 5), (0, 0));
}
