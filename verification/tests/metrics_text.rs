use status_bar::config::AppConfig;
use status_bar::float_bits::{u32_to_f32, F32Bits};
use status_bar::gpu::GpuInfo;
use status_bar::system_metrics::{
    clamp_percent, compact_speed, format_bytes, format_compact, format_full,
    format_optional_value, format_tooltip, format_vram, format_vram_value, pressure_level,
    short_gpu_name, snapshot_texts, used_memory, MemoryInfo, PressureLevel,
};
use status_bar::text::{chars_of, is_white_space, parse_u64};

fn bits(v: f32) -> F32Bits {
    F32Bits(v.to_bits())
}

fn speed_text(bytes_per_second: f64) -> String {
    if bytes_per_second >= 1024.0 * 1024.0 {
        format!("{:.1} MB/s", bytes_per_second / 1024.0 / 1024.0)
    } else {
        format!("{:.0} KB/s", bytes_per_second / 1024.0)
    }
}

fn reference_short_gpu_name(name: Option<&str>) -> String {
    let Some(name) = name else {
        return "N/A".to_string();
    };
    let cleaned = name
        .replace("NVIDIA", "")
        .replace("GeForce", "")
        .replace("Laptop GPU", "")
        .replace("GPU", "")
        .split_whitespace()
        .collect::<Vec<_>>()
        .join(" ");
    let value = if cleaned.is_empty() { name.trim() } else { cleaned.trim() };
    value
        .split_whitespace()
        .find(|part| part.chars().any(|ch| ch.is_ascii_digit()) && part.chars().count() >= 3)
        .map(ToOwned::to_owned)
        .unwrap_or_else(|| value.to_string())
}

fn reference_pressure(cpu: f32, memory: f32, gpu: Option<f32>) -> PressureLevel {
    let g = gpu.unwrap_or(0.0);
    if memory >= 95.0 {
        PressureLevel::High
    } else if cpu.max(memory).max(g) >= 85.0 {
        PressureLevel::Medium
    } else {
        PressureLevel::Normal
    }
}

#[test]
fn formats_compact_metrics() {
    let _config = AppConfig::default();
    let memory = MemoryInfo {
        used_bytes: 8 * 1024 * 1024 * 1024,
        total_bytes: 16 * 1024 * 1024 * 1024,
        percent: bits(50.0),
    };
    let down = compact_speed(&speed_text(2_097_152.0));
    let up = compact_speed(&speed_text(307_200.0));
    let text = format_compact(bits(12.0), &memory, &down, &up);

    assert_eq!(text, "CPU 12% | MEM 50% | ↓ 2.0M | ↑ 300K");
}

#[test]
fn compact_speed_shortens_units() {
    assert_eq!(compact_speed("2.5 MB/s"), "2.5M");
    assert_eq!(compact_speed("300 KB/s"), "300K");
    assert_eq!(compact_speed("1 KB/s 2 MB/s"), "1K 2M");
    assert_eq!(compact_speed("MB/s"), "MB/s");
    for s in ["", " MB/s MB/s", "x KB/sKB/s", " KB/ s"] {
        assert_eq!(compact_speed(s), s.replace(" MB/s", "M").replace(" KB/s", "K"));
    }
}

#[test]
fn short_gpu_name_matches_string_rules() {
    let names = [
        None,
        Some("NVIDIA GeForce RTX 4070 Laptop GPU"),
        Some("NVIDIA RTX 4070"),
        Some("  NVIDIA  "),
        Some("GPU"),
        Some("Apple M2 Pro"),
        Some("Intel(R) UHD Graphics 630"),
        Some("AMD Radeon RX 7900 XTX"),
        Some("NVIDIAGeForceGPU"),
        Some("GeForce GTX 1080 Ti"),
        Some(""),
        Some("   "),
        Some("X1 Y22 Z333"),
        Some("NVNVIDIAIDIA 42"),
        Some("GPUGPU\u{a0}A100\u{2003}"),
        Some("Laptop GPUs 3050"),
    ];
    for name in names {
        assert_eq!(short_gpu_name(name), reference_short_gpu_name(name), "name {name:?}");
    }
}

#[test]
fn white_space_is_unicode_white_space() {
    for v in 0u32..0x11_0000 {
        if let Some(c) = char::from_u32(v) {
            assert_eq!(is_white_space(c), c.is_whitespace(), "U+{v:04X}");
        }
    }
}

#[test]
fn parse_u64_matches_std() {
    let inputs = [
        "", "+", "-", "0", "+0", "-0", "007", "12a", " 1", "1 ", "18446744073709551615",
        "18446744073709551616", "99999999999999999999", "+18446744073709551615", "++1", "١٢",
    ];
    for s in inputs {
        assert_eq!(parse_u64(&chars_of(s)), s.parse::<u64>().ok(), "input {s:?}");
    }
}

#[test]
fn pressure_level_matches_float_comparisons() {
    let samples = [0.0f32, 10.0, 64.9, 65.0, 84.99, 85.0, 94.99, 95.0, 100.0, f32::NAN, -1.0];
    for &cpu in &samples {
        for &mem in &samples {
            for gpu in [None, Some(0.0f32), Some(86.0), Some(f32::NAN), Some(-0.0)] {
                assert_eq!(
                    pressure_level(bits(cpu), bits(mem), gpu.map(bits)),
                    reference_pressure(cpu, mem, gpu),
                    "cpu {cpu} mem {mem} gpu {gpu:?}"
                );
            }
        }
    }
}

#[test]
fn clamp_percent_matches_float_clamp() {
    for v in [-5.0f32, -0.0, 0.0, 12.5, 100.0, 100.5, f32::INFINITY, f32::NAN] {
        assert_eq!(clamp_percent(bits(v)).0, v.clamp(0.0, 100.0).to_bits(), "value {v}");
    }
}

#[test]
fn u32_to_f32_matches_cast() {
    let mut values: Vec<u32> = vec![0, 1, 2, 100, 16_777_215, 16_777_216, 16_777_217,
        16_777_218, 16_777_219, 33_554_435, u32::MAX, u32::MAX - 64, 0x8000_0000];
    let mut x: u32 = 0x2545_f491;
    for _ in 0..100_000 {
        x ^= x << 13;
        x ^= x >> 17;
        x ^= x << 5;
        values.push(x);
        values.push(x >> (x % 32));
    }
    for v in values {
        assert_eq!(u32_to_f32(v).0, (v as f32).to_bits(), "value {v}");
    }
}

#[test]
fn memory_use_never_exceeds_total() {
    assert_eq!(used_memory(5, 10), 5);
    assert_eq!(used_memory(15, 10), 10);
}

#[test]
fn optional_values_and_vram_texts() {
    assert_eq!(format_optional_value(Some("42%".to_string()), false), "42%");
    assert_eq!(format_optional_value(None, true), "N/A");
    assert_eq!(format_optional_value(None, false), "");
    let mut gpu = GpuInfo::default();
    assert_eq!(format_vram(&gpu, true), "VRAM N/A");
    assert_eq!(format_vram(&gpu, false), "");
    assert_eq!(format_vram_value(&gpu, true), "N/A");
    assert_eq!(format_vram_value(&gpu, false), "");
    gpu.memory_used_bytes = Some(1024 * 1024 * 1024);
    assert_eq!(format_vram(&gpu, true), "VRAM N/A");
    gpu.memory_total_bytes = Some(8 * 1024 * 1024 * 1024);
    assert_eq!(format_vram(&gpu, false), "VRAM 1.0 GB / 8.0 GB");
    assert_eq!(format_vram_value(&gpu, false), "1.0 GB / 8.0 GB");
    assert_eq!(format_bytes(512 * 1024 * 1024), "512 MB");
}

fn reference_full(cpu: f32, memory: &MemoryInfo, down: &str, up: &str, gpu: &GpuInfo, show_na: bool) -> String {
    let usage = match gpu.usage_percent {
        Some(p) => format!("{:.0}%", f32::from_bits(p.0)),
        None if show_na => "N/A".to_string(),
        None => String::new(),
    };
    let vram = match (gpu.memory_used_bytes, gpu.memory_total_bytes) {
        (Some(u), Some(t)) => format!("VRAM {} / {}", format_bytes(u), format_bytes(t)),
        _ if show_na => "VRAM N/A".to_string(),
        _ => String::new(),
    };
    let lines = vec![
        format!("CPU {:.0}%", cpu),
        format!("MEM {} / {}", format_bytes(memory.used_bytes), format_bytes(memory.total_bytes)),
        format!("GPU {} {}", usage, reference_short_gpu_name(gpu.name.as_deref())),
        vram,
        format!("NET ↓ {} ↑ {}", down, up),
    ];
    lines.into_iter().filter(|l| !l.is_empty()).collect::<Vec<_>>().join("\n")
}

fn reference_tooltip(cpu: f32, memory: &MemoryInfo, down: &str, up: &str, gpu: &GpuInfo, show_na: bool) -> String {
    let usage = match gpu.usage_percent {
        Some(p) => format!("{:.0}%", f32::from_bits(p.0)),
        None if show_na => "N/A".to_string(),
        None => String::new(),
    };
    let vram = match (gpu.memory_used_bytes, gpu.memory_total_bytes) {
        (Some(u), Some(t)) => format!("{} / {}", format_bytes(u), format_bytes(t)),
        _ if show_na => "N/A".to_string(),
        _ => String::new(),
    };
    format!(
        "CPU: {:.0}%\nMemory: {} / {} ({:.0}%)\nGPU: {} {}\nVRAM: {}\nNET: ↓ {} ↑ {}",
        cpu,
        format_bytes(memory.used_bytes),
        format_bytes(memory.total_bytes),
        f32::from_bits(memory.percent.0),
        usage,
        reference_short_gpu_name(gpu.name.as_deref()),
        vram,
        down,
        up
    )
}

#[test]
fn full_and_tooltip_texts_match_the_layout() {
    let memory = MemoryInfo {
        used_bytes: 6 * 1024 * 1024 * 1024 + 300 * 1024 * 1024,
        total_bytes: 16 * 1024 * 1024 * 1024,
        percent: bits(39.4),
    };
    let gpus = [
        GpuInfo::default(),
        GpuInfo {
            name: Some("NVIDIA GeForce RTX 3060 Laptop GPU".to_string()),
            usage_percent: Some(bits(57.5)),
            memory_used_bytes: Some(900 * 1024 * 1024),
            memory_total_bytes: Some(6 * 1024 * 1024 * 1024),
            temperature_celsius: Some(bits(61.0)),
            available: true,
            source: Some("nvml".to_string()),
        },
    ];
    for gpu in &gpus {
        for show_na in [true, false] {
            let mut config = AppConfig::default();
            config.show_na = show_na;
            let down = speed_text(1_500_000.0);
            let up = speed_text(20_000.0);
            assert_eq!(
                format_full(bits(7.6), &memory, &down, &up, gpu, &config),
                reference_full(7.6, &memory, &down, &up, gpu, show_na)
            );
            assert_eq!(
                format_tooltip(bits(7.6), &memory, &down, &up, gpu, &config),
                reference_tooltip(7.6, &memory, &down, &up, gpu, show_na)
            );
        }
    }
}

#[test]
fn snapshot_clamps_cpu_and_assembles_the_texts() {
    let memory = MemoryInfo { used_bytes: 8 * 1024 * 1024 * 1024, total_bytes: 16 * 1024 * 1024 * 1024, percent: bits(50.0) };
    let gpu = GpuInfo {
        name: Some("NVIDIA GeForce RTX 4070".to_string()),
        usage_percent: Some(bits(90.0)),
        available: true,
        ..GpuInfo::default()
    };
    let config = AppConfig::default();
    let texts = snapshot_texts(bits(130.0), &memory, &gpu, &config, "2.0M", "300K", "2.0 MB/s", "300 KB/s");
    assert_eq!(f32::from_bits(texts.cpu_percent.0), 100.0);
    assert_eq!(texts.pressure, PressureLevel::Medium);
    assert_eq!(texts.compact_text, "CPU 100% | MEM 50% | ↓ 2.0M | ↑ 300K");
    assert_eq!(texts.full_text, format_full(bits(100.0), &memory, "2.0 MB/s", "300 KB/s", &gpu, &config));
    assert_eq!(texts.tooltip, format_tooltip(bits(100.0), &memory, "2.0 MB/s", "300 KB/s", &gpu, &config));

    let texts = snapshot_texts(bits(-3.0), &memory, &GpuInfo::default(), &config, "0K", "0K", "0 KB/s", "0 KB/s");
    assert_eq!(f32::from_bits(texts.cpu_percent.0), 0.0);
    assert_eq!(texts.pressure, PressureLevel::Normal);
}
