use verostat::config::Preferences;
use verostat::hud::build_hud_text;
use verostat::metrics::DisplayMetrics;

#[test]
fn test_default_config_includes_opacity() {
    let cfg = Preferences::default();
    assert_eq!(cfg.hud_opacity, 90);
}

#[test]
fn test_build_hud_text_all_enabled() {
    let mut m = DisplayMetrics::default();
    m.cpu_usage = Some(18);
    m.cpu_temperature = Some(50);
    m.gpu_usage = Some(0);
    m.gpu_temperature = Some(51);
    m.ram_used = (14.6 * 1024.0 * 1024.0 * 1024.0) as u64;
    m.download_speed = 1024;

    let mut cfg = Preferences::default();
    cfg.hud_show_network = true;
    let text = build_hud_text(&m, &cfg);
    assert!(text.contains("CPU 18% 50\u{b0}C"));
    assert!(text.contains("GPU 0% 51\u{b0}C"));
    assert!(text.contains("RAM 14.6G"));
    assert!(text.contains("\u{2193}1 KB/s"));
}

#[test]
fn test_build_hud_text_empty_fallback() {
    let m = DisplayMetrics::default();
    let mut cfg = Preferences::default();
    cfg.hud_show_cpu = false;
    cfg.hud_show_gpu = false;
    cfg.hud_show_ram = false;
    cfg.hud_show_network = false;

    let text = build_hud_text(&m, &cfg);
    assert_eq!(text, "VeroStat HUD (Select elements in tray)");
}

#[test]
fn hud_text_exact_layout() {
    let mut m = DisplayMetrics::default();
    m.cpu_usage = Some(7);
    m.ram_used = 3 * 1024 * 1024 * 1024 / 2;
    m.download_speed = 5 * 1024 * 1024;
    let mut cfg = Preferences::default();
    cfg.hud_show_network = true;
    assert_eq!(
        build_hud_text(&m, &cfg),
        "CPU 7% N/A   |   GPU N/A N/A   |   RAM 1.5G   |   \u{2193}5.0 MB/s"
    );
    cfg.hud_show_cpu = false;
    cfg.hud_show_gpu = false;
    assert_eq!(build_hud_text(&m, &cfg), "RAM 1.5G   |   \u{2193}5.0 MB/s");
    cfg.hud_show_ram = false;
    assert_eq!(build_hud_text(&m, &cfg), "\u{2193}5.0 MB/s");
}

#[test]
fn hud_cpu_usage_unknown_shows_zero() {
    let mut m = DisplayMetrics::default();
    m.cpu_temperature = Some(-3);
    let mut cfg = Preferences::default();
    cfg.hud_show_gpu = false;
    cfg.hud_show_ram = false;
    assert_eq!(build_hud_text(&m, &cfg), "CPU 0% -3\u{b0}C");
}
