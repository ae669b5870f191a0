use parish::setup::{
    extract_bytes_from_line, is_model_listed, select_model, select_model_for_vram, GpuInfo,
    GpuVendor, ModelConfig,
};

#[test]
fn test_gpu_vendor_display() {
    assert_eq!(GpuVendor::Nvidia.to_string(), "NVIDIA (CUDA)");
    assert_eq!(GpuVendor::Amd.to_string(), "AMD (ROCm)");
    assert_eq!(GpuVendor::CpuOnly.to_string(), "CPU-only");
}

#[test]
fn test_gpu_info_display_cpu_only() {
    let info = GpuInfo { vendor: GpuVendor::CpuOnly, vram_total_mb: 0, vram_free_mb: 0 };
    assert!(info.to_string().contains("CPU-only"));
}

#[test]
fn test_gpu_info_display_with_vram() {
    let info = GpuInfo { vendor: GpuVendor::Amd, vram_total_mb: 16384, vram_free_mb: 14000 };
    let display = info.to_string();
    assert!(display.contains("AMD"));
    assert!(display.contains("16384"));
    assert!(display.contains("14000"));
}

#[test]
fn gpu_info_display_exact() {
    let info = GpuInfo { vendor: GpuVendor::Amd, vram_total_mb: 16384, vram_free_mb: 14000 };
    assert_eq!(info.to_string(), "AMD (ROCm) — 16384MB VRAM total, ~14000MB free");
    let cpu = GpuInfo { vendor: GpuVendor::CpuOnly, vram_total_mb: 0, vram_free_mb: 0 };
    assert_eq!(cpu.to_string(), "CPU-only (no discrete GPU detected)");
}

#[test]
fn test_model_config_display() {
    let config = ModelConfig {
        model_name: "qwen3:14b".to_string(),
        tier_label: "Tier 1 — Full quality".to_string(),
        vram_required_mb: 10_000,
    };
    let display = config.to_string();
    assert!(display.contains("qwen3:14b"));
    assert!(display.contains("Tier 1"));
    assert!(display.contains("10000"));
}

#[test]
fn model_config_display_exact() {
    let config = ModelConfig {
        model_name: "qwen3:14b".to_string(),
        tier_label: "Tier 1 — Full quality".to_string(),
        vram_required_mb: 10_000,
    };
    assert_eq!(config.to_string(), "qwen3:14b (Tier 1 — Full quality, ~10000MB VRAM)");
}

#[test]
fn test_select_model_large_vram() {
    let config = select_model_for_vram(16_000);
    assert_eq!(config.model_name, "qwen3:14b");
    assert!(config.tier_label.contains("Tier 1"));
}

#[test]
fn test_select_model_12gb() {
    let config = select_model_for_vram(12_000);
    assert_eq!(config.model_name, "qwen3:14b");
}

#[test]
fn test_select_model_8gb() {
    let config = select_model_for_vram(8_000);
    assert_eq!(config.model_name, "qwen3:8b");
    assert!(config.tier_label.contains("Tier 2"));
}

#[test]
fn test_select_model_6gb() {
    let config = select_model_for_vram(6_000);
    assert_eq!(config.model_name, "qwen3:8b");
}

#[test]
fn test_select_model_4gb() {
    let config = select_model_for_vram(4_000);
    assert_eq!(config.model_name, "qwen3:3b");
    assert!(config.tier_label.contains("Tier 3"));
}

#[test]
fn test_select_model_3gb() {
    let config = select_model_for_vram(3_000);
    assert_eq!(config.model_name, "qwen3:3b");
}

#[test]
fn test_select_model_2gb() {
    let config = select_model_for_vram(2_000);
    assert_eq!(config.model_name, "qwen3:1.5b");
    assert!(config.tier_label.contains("Tier 4"));
}

#[test]
fn test_select_model_zero_vram() {
    let config = select_model_for_vram(0);
    assert_eq!(config.model_name, "qwen3:1.5b");
}

#[test]
fn test_select_model_cpu_only_gpu_info() {
    let gpu = GpuInfo { vendor: GpuVendor::CpuOnly, vram_total_mb: 0, vram_free_mb: 0 };
    let config = select_model(&gpu);
    assert_eq!(config.model_name, "qwen3:1.5b");
}

#[test]
fn test_select_model_amd_16gb() {
    let gpu = GpuInfo { vendor: GpuVendor::Amd, vram_total_mb: 16384, vram_free_mb: 14000 };
    let config = select_model(&gpu);
    assert_eq!(config.model_name, "qwen3:14b");
}

#[test]
fn test_select_model_unknown_vram_defaults() {
    let gpu = GpuInfo { vendor: GpuVendor::Amd, vram_total_mb: 0, vram_free_mb: 0 };
    let config = select_model(&gpu);
    assert_eq!(config.model_name, "qwen3:8b");
}

#[test]
fn test_select_model_uses_free_vram_when_available() {
    let gpu = GpuInfo { vendor: GpuVendor::Nvidia, vram_total_mb: 16384, vram_free_mb: 5000 };
    let config = select_model(&gpu);
    assert_eq!(config.model_name, "qwen3:3b");
}

#[test]
fn test_select_model_uses_total_when_free_unknown() {
    let gpu = GpuInfo { vendor: GpuVendor::Nvidia, vram_total_mb: 8192, vram_free_mb: 0 };
    let config = select_model(&gpu);
    assert_eq!(config.model_name, "qwen3:8b");
}

#[test]
fn eighty_percent_of_total_is_used_when_free_unknown() {
    // 15000 * 80% = 12000: exactly the 14b threshold.
    let gpu = GpuInfo { vendor: GpuVendor::Nvidia, vram_total_mb: 15000, vram_free_mb: 0 };
    assert_eq!(select_model(&gpu).model_name, "qwen3:14b");
    let gpu = GpuInfo { vendor: GpuVendor::Nvidia, vram_total_mb: 14999, vram_free_mb: 0 };
    assert_eq!(select_model(&gpu).model_name, "qwen3:8b");
}

#[test]
fn selected_model_vram_requirements() {
    assert_eq!(select_model_for_vram(20_000).vram_required_mb, 10_000);
    assert_eq!(select_model_for_vram(7_000).vram_required_mb, 5_500);
    assert_eq!(select_model_for_vram(3_500).vram_required_mb, 2_500);
    assert_eq!(select_model_for_vram(100).vram_required_mb, 1_200);
}

#[test]
fn test_extract_bytes_from_line() {
    assert_eq!(
        extract_bytes_from_line("VRAM Total Memory (B): 17163091968"),
        Some(17163091968)
    );
    assert_eq!(extract_bytes_from_line("no numbers here"), None);
    assert_eq!(extract_bytes_from_line("small: 42"), None);
}

#[test]
fn extract_bytes_edge_cases() {
    assert_eq!(extract_bytes_from_line("1000000"), None);
    assert_eq!(extract_bytes_from_line("1000001"), Some(1000001));
    assert_eq!(extract_bytes_from_line("  +2000000 bytes"), Some(2000000));
    assert_eq!(extract_bytes_from_line("a 5 2000000x 3000000"), Some(3000000));
    assert_eq!(extract_bytes_from_line("99999999999999999999 2000000"), Some(2000000));
    assert_eq!(extract_bytes_from_line(""), None);
}

#[test]
fn test_gpu_vendor_equality() {
    assert_eq!(GpuVendor::Nvidia, GpuVendor::Nvidia);
    assert_ne!(GpuVendor::Nvidia, GpuVendor::Amd);
    assert_ne!(GpuVendor::Amd, GpuVendor::CpuOnly);
}

#[test]
fn test_select_model_boundary_values() {
    let at_12000 = select_model_for_vram(12_000);
    assert_eq!(at_12000.model_name, "qwen3:14b");

    let at_11999 = select_model_for_vram(11_999);
    assert_eq!(at_11999.model_name, "qwen3:8b");

    let at_6000 = select_model_for_vram(6_000);
    assert_eq!(at_6000.model_name, "qwen3:8b");

    let at_5999 = select_model_for_vram(5_999);
    assert_eq!(at_5999.model_name, "qwen3:3b");

    let at_3000 = select_model_for_vram(3_000);
    assert_eq!(at_3000.model_name, "qwen3:3b");

    let at_2999 = select_model_for_vram(2_999);
    assert_eq!(at_2999.model_name, "qwen3:1.5b");
}

#[test]
fn model_listed_with_implicit_latest() {
    let names = vec!["qwen3:14b".to_string(), "llama3:latest".to_string()];
    assert!(is_model_listed(&names, "qwen3:14b"));
    assert!(is_model_listed(&names, "llama3"));
    assert!(!is_model_listed(&names, "qwen3:8b"));
    let names = vec!["mistral".to_string()];
    assert!(is_model_listed(&names, "mistral:latest"));
    assert!(!is_model_listed(&Vec::new(), "mistral"));
}
