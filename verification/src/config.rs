use vstd::prelude::*;

verus! {

/// Which metric the dynamic tray icon displays.
#[derive(Debug, Clone, Copy, PartialEq, Eq, Structural)]
pub enum TrayDisplayMode {
    CpuUsage,
    CpuTemperature,
    GpuUsage,
    GpuTemperature,
    RamUsage,
    DefaultLogo,
}

impl Default for TrayDisplayMode {
    fn default() -> (m: Self)
        ensures
            m == TrayDisplayMode::CpuUsage,
    {
        TrayDisplayMode::CpuUsage
    }
}

/// The user settings that the tray, HUD and sampling logic read: everything in the
/// configuration file except the temperature warning threshold.
#[derive(Debug, Clone, Copy, PartialEq, Eq)]
pub struct Preferences {
    /// Refresh interval in milliseconds (default 1000).
    pub refresh_interval_ms: u64,
    /// Start automatically when logging into Windows.
    pub start_with_windows: bool,
    /// Show disk statistics in the dashboard.
    pub show_disk_stats: bool,
    /// Which metric the tray icon displays.
    pub tray_display_mode: TrayDisplayMode,
    /// Floating HUD: show CPU stats.
    pub hud_show_cpu: bool,
    /// Floating HUD: show GPU stats.
    pub hud_show_gpu: bool,
    /// Floating HUD: show RAM stats.
    pub hud_show_ram: bool,
    /// Floating HUD: show network stats (default false).
    pub hud_show_network: bool,
    /// Floating HUD opacity percentage, 10..=100 in effect (default 90).
    pub hud_opacity: u8,
}

impl Default for Preferences {
    fn default() -> (p: Self)
        ensures
            p.refresh_interval_ms == 1000,
            !p.start_with_windows,
            p.show_disk_stats,
            p.tray_display_mode == TrayDisplayMode::CpuUsage,
            p.hud_show_cpu,
            p.hud_show_gpu,
            p.hud_show_ram,
            !p.hud_show_network,
            p.hud_opacity == 90,
    {
        Preferences {
            refresh_interval_ms: 1000,
            start_with_windows: false,
            show_disk_stats: true,
            tray_display_mode: TrayDisplayMode::default(),
            hud_show_cpu: true,
            hud_show_gpu: true,
            hud_show_ram: true,
            hud_show_network: false,
            hud_opacity: 90,
        }
    }
}

/// The shortest sampling interval the monitoring loop honours.
pub open spec fn min_refresh_ms() -> nat {
    250
}

/// The interval the monitoring loop waits between samples: the configured one,
/// but never less than 250 ms.
pub fn effective_refresh_interval(configured_ms: u64) -> (ms: u64)
    ensures
        ms == if configured_ms < 250 { 250 } else { configured_ms },
        ms >= min_refresh_ms(),
{
    if configured_ms < 250 {
        250
    } else {
        configured_ms
    }
}

/// The HUD opacity percentage actually applied: clamped to 10..=100.
pub open spec fn effective_opacity(pct: nat) -> nat {
    if pct < 10 {
        10
    } else if pct > 100 {
        100
    } else {
        pct
    }
}

/// Window alpha for an opacity percentage: 255 * clamped / 100 to the nearest
/// integer, halves rounded up.
pub open spec fn opacity_alpha(pct: nat) -> nat {
    (effective_opacity(pct) * 255 + 50) / 100
}

/// The layered-window alpha (0-255) for a HUD opacity percentage.
pub fn hud_alpha(opacity_pct: u8) -> (alpha: u8)
    ensures
        alpha == opacity_alpha(opacity_pct as nat),
        26 <= alpha <= 255,
{
    let clamped: u32 = if opacity_pct < 10 {
        10
    } else if opacity_pct > 100 {
        100
    } else {
        opacity_pct as u32
    };
    ((clamped * 255 + 50) / 100) as u8
}

/// Percentages outside 10..=100 act as the nearest bound.
pub proof fn law_opacity_clamped(pct: nat)
    ensures
        opacity_alpha(pct) == opacity_alpha(effective_opacity(pct)),
        pct >= 100 ==> opacity_alpha(pct) == 255,
{
}

/// A higher opacity percentage never gives a more transparent window.
pub proof fn law_opacity_monotonic(a: nat, b: nat)
    requires
        a <= b,
    ensures
        opacity_alpha(a) <= opacity_alpha(b),
{
    assert(effective_opacity(a) <= effective_opacity(b));
    assert(effective_opacity(a) * 255 + 50 <= effective_opacity(b) * 255 + 50) by (nonlinear_arith)
        requires
            effective_opacity(a) <= effective_opacity(b),
    ;
    vstd::arithmetic::div_mod::lemma_div_is_ordered(
        (effective_opacity(a) * 255 + 50) as int,
        (effective_opacity(b) * 255 + 50) as int,
        100,
    );
}

} // verus!
