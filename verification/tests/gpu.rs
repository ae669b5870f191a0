use parish::gpu::{
    amd_gpu_info, detected_gpu, meminfo_line_update, parse_nvidia_smi, parse_rocm_meminfo,
    split_lines,
};
use parish::setup::{GpuInfo, GpuVendor};
use parish::theme::{gui_palette_for_time, Rgb};
use parish::world::TimeOfDay;

#[test]
fn lines_like_str_lines() {
    for s in ["", "a", "a\n", "a\r\nb", "\n", "a\n\nb\n", "x\ry", "a\r", " \r\n "] {
        let expected: Vec<String> = s.lines().map(|l| l.to_string()).collect();
        assert_eq!(split_lines(s), expected, "input {:?}", s);
    }
}

#[test]
fn nvidia_csv_line() {
    let g = parse_nvidia_smi("16384, 14000\n8192, 8000\n").unwrap();
    assert_eq!(g.vendor, GpuVendor::Nvidia);
    assert_eq!(g.vram_total_mb, 16384);
    assert_eq!(g.vram_free_mb, 14000);
    let g = parse_nvidia_smi("24576,20000,extra").unwrap();
    assert_eq!((g.vram_total_mb, g.vram_free_mb), (24576, 20000));
}

#[test]
fn nvidia_bad_output() {
    assert!(parse_nvidia_smi("").is_none());
    assert!(parse_nvidia_smi("16384").is_none());
    assert!(parse_nvidia_smi("16384, lots").is_none());
    assert!(parse_nvidia_smi("\n16384, 100").is_none());
}

#[test]
fn rocm_meminfo_report() {
    let out = "============ ROCm System Management Interface ============\n\
               GPU[0]\t\t: VRAM Total Memory (B): 17163091968\n\
               GPU[0]\t\t: VRAM Total Used Memory (B): 1073741824\n\
               ==========================================================\n";
    // The "used" line also mentions "total", so it sets the total last.
    assert_eq!(parse_rocm_meminfo(out), (1024, 0));
    let out = "VRAM Total Memory (B): 17163091968\nVRAM Used Memory (B): 2147483648\n";
    assert_eq!(parse_rocm_meminfo(out), (16368, 2048));
    assert_eq!(parse_rocm_meminfo("nothing useful"), (0, 0));
}

#[test]
fn meminfo_line_update_cases() {
    let line = "USED: 3145728";
    assert_eq!(meminfo_line_update((5, 6), line, &line.to_lowercase()), (5, 3));
    let line = "total: 42";
    assert_eq!(meminfo_line_update((5, 6), line, &line.to_lowercase()), (5, 6));
}

#[test]
fn amd_info_from_totals() {
    let g = amd_gpu_info(16368, 2048, false).unwrap();
    assert_eq!((g.vendor, g.vram_total_mb, g.vram_free_mb), (GpuVendor::Amd, 16368, 14320));
    let g = amd_gpu_info(100, 200, false).unwrap();
    assert_eq!(g.vram_free_mb, 0);
    let g = amd_gpu_info(0, 0, true).unwrap();
    assert_eq!((g.vram_total_mb, g.vram_free_mb), (0, 0));
    assert!(amd_gpu_info(0, 5, false).is_none());
}

#[test]
fn detection_order() {
    let nv = GpuInfo { vendor: GpuVendor::Nvidia, vram_total_mb: 1, vram_free_mb: 1 };
    let amd = GpuInfo { vendor: GpuVendor::Amd, vram_total_mb: 2, vram_free_mb: 2 };
    assert_eq!(detected_gpu(Some(nv), Some(amd)).vendor, GpuVendor::Nvidia);
    assert_eq!(detected_gpu(None, Some(amd)).vendor, GpuVendor::Amd);
    assert_eq!(detected_gpu(None, None).vendor, GpuVendor::CpuOnly);
}

const TIMES: [TimeOfDay; 7] = [
    TimeOfDay::Dawn,
    TimeOfDay::Morning,
    TimeOfDay::Midday,
    TimeOfDay::Afternoon,
    TimeOfDay::Dusk,
    TimeOfDay::Night,
    TimeOfDay::Midnight,
];

#[test]
fn test_palette_for_each_time_of_day() {
    for tod in &TIMES {
        let p = gui_palette_for_time(tod);
        for c in [p.bg, p.fg, p.accent, p.panel_bg, p.input_bg, p.border, p.muted] {
            assert_ne!(c, Rgb { r: 0, g: 0, b: 0 });
        }
    }
}

#[test]
fn test_dawn_matches_tui_spec() {
    let p = gui_palette_for_time(&TimeOfDay::Dawn);
    assert_eq!(p.bg, Rgb { r: 255, g: 220, b: 180 });
    assert_eq!(p.fg, Rgb { r: 60, g: 40, b: 20 });
    assert_eq!(p.accent, Rgb { r: 200, g: 140, b: 60 });
}

#[test]
fn test_night_is_dark() {
    let p = gui_palette_for_time(&TimeOfDay::Night);
    assert!(p.bg.r < 50 && p.bg.g < 50 && p.bg.b < 80);
}

#[test]
fn test_midnight_is_darkest() {
    let night = gui_palette_for_time(&TimeOfDay::Night);
    let midnight = gui_palette_for_time(&TimeOfDay::Midnight);
    assert!(midnight.bg.r <= night.bg.r && midnight.bg.g <= night.bg.g && midnight.bg.b <= night.bg.b);
}

#[test]
fn test_day_palettes_have_light_bg() {
    for tod in &[TimeOfDay::Morning, TimeOfDay::Midday, TimeOfDay::Afternoon] {
        let p = gui_palette_for_time(tod);
        assert!(p.bg.r > 200 && p.bg.g > 200);
    }
}

#[test]
fn test_panel_bg_differs_from_main_bg() {
    for tod in &TIMES {
        let p = gui_palette_for_time(tod);
        assert_ne!(p.bg, p.panel_bg);
    }
}
