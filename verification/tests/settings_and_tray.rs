use verostat::config::{effective_refresh_interval, hud_alpha, Preferences, TrayDisplayMode};
use verostat::metrics::DisplayMetrics;
use verostat::tray::{
    click_toggles_dashboard, display_mode_item_checks, display_mode_label, finish_autostart,
    initial_icon, opacity_item_checks, settings_summary, tray_tooltip, HudElement, IconReadings,
    IconRequest, MenuCommand, TrayAction, TrayState,
};

#[test]
fn hud_alpha_matches_float_rounding() {
    for pct in 0..=255u8 {
        let clamped = pct.clamp(10, 100);
        let expected = ((clamped as f32 / 100.0) * 255.0).round() as u8;
        assert_eq!(hud_alpha(pct), expected, "opacity {}", pct);
    }
    assert_eq!(hud_alpha(90), 230);
    assert_eq!(hud_alpha(0), 26);
}

#[test]
fn refresh_interval_floor() {
    assert_eq!(effective_refresh_interval(0), 250);
    assert_eq!(effective_refresh_interval(249), 250);
    assert_eq!(effective_refresh_interval(1000), 1000);
}

#[test]
fn default_preferences() {
    let p = Preferences::default();
    assert_eq!(p.refresh_interval_ms, 1000);
    assert!(!p.start_with_windows);
    assert!(p.show_disk_stats);
    assert_eq!(p.tray_display_mode, TrayDisplayMode::CpuUsage);
    assert!(p.hud_show_cpu && p.hud_show_gpu && p.hud_show_ram && !p.hud_show_network);
    assert_eq!(TrayDisplayMode::default(), TrayDisplayMode::CpuUsage);
}

#[test]
fn menu_commands_update_preferences() {
    let mut st = TrayState::new(TrayDisplayMode::CpuUsage);
    let mut p = Preferences::default();
    assert_eq!(st.last_icon_key, (TrayDisplayMode::CpuUsage, 999));

    let a = st.handle_menu_command(&mut p, MenuCommand::ToggleHudElement(HudElement::Network));
    assert_eq!(a, TrayAction::ShowHudElement(HudElement::Network, true));
    assert!(p.hud_show_network);
    let a = st.handle_menu_command(&mut p, MenuCommand::ToggleHudElement(HudElement::Network));
    assert_eq!(a, TrayAction::ShowHudElement(HudElement::Network, false));
    assert_eq!(p, Preferences::default());

    let a = st.handle_menu_command(&mut p, MenuCommand::SetHudOpacity(50));
    assert_eq!(a, TrayAction::ApplyHudOpacity(50));
    assert_eq!(p.hud_opacity, 50);

    let a = st.handle_menu_command(&mut p, MenuCommand::SetDisplayMode(TrayDisplayMode::GpuTemperature));
    assert_eq!(a, TrayAction::ApplyDisplayMode(TrayDisplayMode::GpuTemperature));
    assert_eq!(p.tray_display_mode, TrayDisplayMode::GpuTemperature);
    assert_eq!(st.last_icon_key, (TrayDisplayMode::GpuTemperature, 9999));

    assert_eq!(st.handle_menu_command(&mut p, MenuCommand::Refresh), TrayAction::ShowDashboard);
    assert_eq!(st.handle_menu_command(&mut p, MenuCommand::ToggleAutostart(false)), TrayAction::SetAutostart(true));
    assert_eq!(st.handle_menu_command(&mut p, MenuCommand::Exit), TrayAction::Exit);
}

#[test]
fn autostart_outcome() {
    let mut p = Preferences::default();
    assert_eq!(finish_autostart(&mut p, true, false), Some(false));
    assert!(!p.start_with_windows);
    assert_eq!(finish_autostart(&mut p, true, true), None);
    assert!(p.start_with_windows);
}

#[test]
fn check_marks() {
    assert_eq!(display_mode_item_checks(TrayDisplayMode::RamUsage), [false, false, false, false, true, false]);
    assert_eq!(opacity_item_checks(75), [false, false, true, false, false]);
    assert_eq!(opacity_item_checks(60), [false; 5]);
}

#[test]
fn icon_requests() {
    let mut st = TrayState::new(TrayDisplayMode::CpuTemperature);
    assert_eq!(initial_icon(TrayDisplayMode::CpuTemperature), IconRequest::Stat { value: 0, is_temperature: true });
    assert_eq!(initial_icon(TrayDisplayMode::DefaultLogo), IconRequest::Logo);
    let r = IconReadings { cpu_usage: Some(12), cpu_temperature: Some(61), gpu_usage: None, gpu_temperature: None, ram_usage: 40 };
    let req = st.icon_update(TrayDisplayMode::CpuTemperature, &r);
    assert_eq!(req, Some(IconRequest::Stat { value: 61, is_temperature: true }));
    st.icon_drawn(TrayDisplayMode::CpuTemperature, 61);
    assert_eq!(st.icon_update(TrayDisplayMode::CpuTemperature, &r), None);
    assert_eq!(st.icon_update(TrayDisplayMode::GpuUsage, &r), Some(IconRequest::Stat { value: 0, is_temperature: false }));
    assert_eq!(st.icon_update(TrayDisplayMode::DefaultLogo, &r), Some(IconRequest::Logo));
}

#[test]
fn click_debounce() {
    assert!(!click_toggles_dashboard(true, 250_000_000));
    assert!(click_toggles_dashboard(true, 250_000_001));
    assert!(!click_toggles_dashboard(false, 10_000_000_000));
}

#[test]
fn tooltip_text() {
    let mut m = DisplayMetrics::default();
    m.cpu_usage = Some(23);
    m.cpu_temperature = Some(55);
    m.ram_usage = 41;
    m.download_speed = 2 * 1024 * 1024;
    m.upload_speed = 512;
    let mut st = TrayState::new(TrayDisplayMode::CpuUsage);
    let t = tray_tooltip(&m, true);
    assert_eq!(t, "VeroStat [REC]\nCPU: 23% (55\u{b0}C) | RAM: 41%\nGPU: N/A\nNet: \u{2193}2.0 MB/s \u{2191}512 B/s");
    assert!(st.tooltip_changed(t.clone()));
    assert!(!st.tooltip_changed(t.clone()));
    assert_eq!(st.last_tooltip, t);
}

#[test]
fn settings_text_matches_dialog() {
    let mut p = Preferences::default();
    p.hud_show_gpu = false;
    p.start_with_windows = true;
    p.tray_display_mode = TrayDisplayMode::GpuTemperature;
    let text = settings_summary(&p, 85, "C:\\Users\\u\\AppData\\Roaming\\VeroStat\\config.toml");
    let expected = format!(
        "VeroStat Settings\n\n\
        \u{2022} Tray Icon Display: {}\n\
        \u{2022} In-Game HUD: CPU {}, GPU {}, RAM {}, Net {} (Opacity: {}%)\n\
        \u{2022} Refresh Interval: {} ms\n\
        \u{2022} Start with Windows: {}\n\
        \u{2022} High Temp Warning: {:.0}\u{b0}C\n\
        \u{2022} Show Storage Stats: {}\n\n\
        Hotkeys:\n\
        \u{2022} Win + Shift + V : Toggle Dashboard\n\
        \u{2022} Ctrl + Shift + O : Toggle In-Game HUD Overlay\n\n\
        Configuration file is stored at:\n\
        {}\0",
        "GPU Temperature (\u{b0}C)", "ON", "OFF", "ON", "OFF", 90, 1000, "Enabled", 85.0f32, "Yes",
        "C:\\Users\\u\\AppData\\Roaming\\VeroStat\\config.toml"
    );
    assert_eq!(text, expected);
    assert_eq!(display_mode_label(TrayDisplayMode::DefaultLogo), "Default Logo");
}
