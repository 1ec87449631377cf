use vstd::prelude::*;
use crate::config::{Preferences, TrayDisplayMode};
use crate::hud::{percent_text, push_percent};
use crate::metrics::DisplayMetrics;
use crate::network::{push_speed, speed_text};
use crate::numfmt::{decimal, push_decimal, push_signed_decimal, signed_decimal};
use crate::text::contains;

verus! {

/// An item of the tray menu that the user activated.
#[derive(Debug, Clone, Copy, PartialEq, Eq)]
pub enum MenuCommand {
    OpenDashboard,
    Refresh,
    ToggleInspector,
    CopySpecs,
    ToggleHud,
    ToggleHudElement(HudElement),
    SetHudOpacity(u8),
    ToggleBenchmark,
    SetDisplayMode(TrayDisplayMode),
    Settings,
    /// "Start with Windows", carrying whether the item was checked when clicked.
    ToggleAutostart(bool),
    About,
    Exit,
}

/// An element the floating HUD can show.
#[derive(Debug, Clone, Copy, PartialEq, Eq, Structural)]
pub enum HudElement {
    Cpu,
    Gpu,
    Ram,
    Network,
}

/// The outside work a menu command asks for.
#[derive(Debug, Clone, Copy, PartialEq, Eq)]
pub enum TrayAction {
    /// Drop pending tray clicks, restart the click debounce clock, show the dashboard.
    ShowDashboard,
    ToggleInspector,
    CopySpecs,
    /// Toggle the HUD, then tick its menu item to match the HUD's visibility.
    ToggleHud,
    /// Tick the element's item as given, save the configuration, redraw the HUD.
    ShowHudElement(HudElement, bool),
    /// Tick the opacity items per `opacity_checks`, apply the opacity, save.
    ApplyHudOpacity(u8),
    ToggleBenchmark,
    /// Tick the display-mode items per `display_mode_checks`, save.
    ApplyDisplayMode(TrayDisplayMode),
    ShowSettings,
    /// Tick the autostart item as given and write the registry; report the outcome
    /// to `finish_autostart`.
    SetAutostart(bool),
    ShowAbout,
    /// Stop the program.
    Exit,
}

/// Whether the HUD shows `e` under preferences `p`.
pub open spec fn hud_shows(p: Preferences, e: HudElement) -> bool {
    match e {
        HudElement::Cpu => p.hud_show_cpu,
        HudElement::Gpu => p.hud_show_gpu,
        HudElement::Ram => p.hud_show_ram,
        HudElement::Network => p.hud_show_network,
    }
}

/// `p` with the HUD's display of `e` set to `shown`.
pub open spec fn with_hud_element(p: Preferences, e: HudElement, shown: bool) -> Preferences {
    match e {
        HudElement::Cpu => Preferences { hud_show_cpu: shown, ..p },
        HudElement::Gpu => Preferences { hud_show_gpu: shown, ..p },
        HudElement::Ram => Preferences { hud_show_ram: shown, ..p },
        HudElement::Network => Preferences { hud_show_network: shown, ..p },
    }
}

/// The preferences after a menu command.
pub open spec fn prefs_after(p: Preferences, cmd: MenuCommand) -> Preferences {
    match cmd {
        MenuCommand::ToggleHudElement(e) => with_hud_element(p, e, !hud_shows(p, e)),
        MenuCommand::SetHudOpacity(pct) => Preferences { hud_opacity: pct, ..p },
        MenuCommand::SetDisplayMode(m) => Preferences { tray_display_mode: m, ..p },
        _ => p,
    }
}

/// The outside work a menu command asks for, given the preferences before it.
pub open spec fn action_for(p: Preferences, cmd: MenuCommand) -> TrayAction {
    match cmd {
        MenuCommand::OpenDashboard => TrayAction::ShowDashboard,
        MenuCommand::Refresh => TrayAction::ShowDashboard,
        MenuCommand::ToggleInspector => TrayAction::ToggleInspector,
        MenuCommand::CopySpecs => TrayAction::CopySpecs,
        MenuCommand::ToggleHud => TrayAction::ToggleHud,
        MenuCommand::ToggleHudElement(e) => TrayAction::ShowHudElement(e, !hud_shows(p, e)),
        MenuCommand::SetHudOpacity(pct) => TrayAction::ApplyHudOpacity(pct),
        MenuCommand::ToggleBenchmark => TrayAction::ToggleBenchmark,
        MenuCommand::SetDisplayMode(m) => TrayAction::ApplyDisplayMode(m),
        MenuCommand::Settings => TrayAction::ShowSettings,
        MenuCommand::ToggleAutostart(checked) => TrayAction::SetAutostart(!checked),
        MenuCommand::About => TrayAction::ShowAbout,
        MenuCommand::Exit => TrayAction::Exit,
    }
}

/// Icon key recorded after a display-mode change: a value no reading maps to in
/// practice, so the next refresh redraws the icon.
pub open spec fn forced_icon_value() -> u32 {
    9999
}

/// Icon key recorded when the tray is created.
pub open spec fn initial_icon_value() -> u32 {
    999
}

/// Tray-side state that survives between event rounds.
pub struct TrayState {
    /// The (mode, value) pair the current tray icon was drawn for.
    pub last_icon_key: (TrayDisplayMode, u32),
    /// The tooltip text last handed to the tray icon.
    pub last_tooltip: String,
}

/// What the tray icon should be redrawn as.
#[derive(Debug, Clone, Copy, PartialEq, Eq)]
pub enum IconRequest {
    /// The application logo.
    Logo,
    /// A number from 0 to 99 (larger values show as 99).
    Stat { value: u32, is_temperature: bool },
}

/// The readings the tray icon can show, rounded to whole numbers (half away from
/// zero, negative values as 0).
#[derive(Debug, Clone, Copy)]
pub struct IconReadings {
    pub cpu_usage: Option<u32>,
    pub cpu_temperature: Option<u32>,
    pub gpu_usage: Option<u32>,
    pub gpu_temperature: Option<u32>,
    pub ram_usage: u32,
}

/// `o`'s value, or 0 when absent.
pub open spec fn or_zero(o: Option<u32>) -> u32 {
    match o {
        Some(v) => v,
        None => 0,
    }
}

/// The number the icon shows in mode `m`, and whether it is a temperature.
pub open spec fn icon_reading(m: TrayDisplayMode, r: IconReadings) -> (u32, bool) {
    match m {
        TrayDisplayMode::CpuUsage => (or_zero(r.cpu_usage), false),
        TrayDisplayMode::CpuTemperature => (or_zero(r.cpu_temperature), true),
        TrayDisplayMode::GpuUsage => (or_zero(r.gpu_usage), false),
        TrayDisplayMode::GpuTemperature => (or_zero(r.gpu_temperature), true),
        TrayDisplayMode::RamUsage => (r.ram_usage, false),
        TrayDisplayMode::DefaultLogo => (0, false),
    }
}

/// The icon to draw for mode `m` showing `value`.
pub open spec fn icon_for(m: TrayDisplayMode, value: u32, is_temperature: bool) -> IconRequest {
    if m == TrayDisplayMode::DefaultLogo {
        IconRequest::Logo
    } else {
        IconRequest::Stat { value, is_temperature }
    }
}

/// The redraw the tray asks for when its icon was last drawn for
/// (`drawn_mode`, `drawn_value`) and the current mode and readings are `m`, `r`:
/// none when they map to the same key.
pub open spec fn icon_request(drawn_mode: TrayDisplayMode, drawn_value: u32, m: TrayDisplayMode, r: IconReadings) -> Option<IconRequest> {
    let (v, t) = icon_reading(m, r);
    if drawn_mode == m && drawn_value == v {
        None
    } else {
        Some(icon_for(m, v, t))
    }
}

/// Whether the mode shows a temperature.
pub open spec fn is_temperature_mode(m: TrayDisplayMode) -> bool {
    m == TrayDisplayMode::CpuTemperature || m == TrayDisplayMode::GpuTemperature
}

/// The icon the tray starts with for mode `m`: the logo, or the number 0.
pub fn initial_icon(m: TrayDisplayMode) -> (r: IconRequest)
    ensures
        r == icon_for(m, 0, is_temperature_mode(m)),
{
    if m == TrayDisplayMode::DefaultLogo {
        IconRequest::Logo
    } else {
        IconRequest::Stat {
            value: 0,
            is_temperature: m == TrayDisplayMode::CpuTemperature || m
                == TrayDisplayMode::GpuTemperature,
        }
    }
}

/// The number the icon shows in mode `m`, and whether it is a temperature.
pub fn icon_value(m: TrayDisplayMode, r: &IconReadings) -> (v: (u32, bool))
    ensures
        v == icon_reading(m, *r),
{
    let or0 = |o: Option<u32>| -> (x: u32)
        ensures
            x == or_zero(o),
        {
            match o {
                Some(v) => v,
                None => 0,
            }
        };
    match m {
        TrayDisplayMode::CpuUsage => (or0(r.cpu_usage), false),
        TrayDisplayMode::CpuTemperature => (or0(r.cpu_temperature), true),
        TrayDisplayMode::GpuUsage => (or0(r.gpu_usage), false),
        TrayDisplayMode::GpuTemperature => (or0(r.gpu_temperature), true),
        TrayDisplayMode::RamUsage => (r.ram_usage, false),
        TrayDisplayMode::DefaultLogo => (0, false),
    }
}

/// Tick marks of the display-mode items, in menu order: CPU usage, CPU temperature,
/// GPU usage, GPU temperature, RAM usage, default logo.
pub open spec fn display_mode_checks(m: TrayDisplayMode) -> Seq<bool> {
    seq![
        m == TrayDisplayMode::CpuUsage,
        m == TrayDisplayMode::CpuTemperature,
        m == TrayDisplayMode::GpuUsage,
        m == TrayDisplayMode::GpuTemperature,
        m == TrayDisplayMode::RamUsage,
        m == TrayDisplayMode::DefaultLogo,
    ]
}

/// Tick marks of the HUD opacity items, in menu order: 100, 90, 75, 50, 25 percent.
pub open spec fn opacity_checks(pct: u8) -> Seq<bool> {
    seq![pct == 100, pct == 90, pct == 75, pct == 50, pct == 25]
}

/// The tick marks for the display-mode items.
pub fn display_mode_item_checks(m: TrayDisplayMode) -> (c: [bool; 6])
    ensures
        c@ == display_mode_checks(m),
{
    [
        m == TrayDisplayMode::CpuUsage,
        m == TrayDisplayMode::CpuTemperature,
        m == TrayDisplayMode::GpuUsage,
        m == TrayDisplayMode::GpuTemperature,
        m == TrayDisplayMode::RamUsage,
        m == TrayDisplayMode::DefaultLogo,
    ]
}

/// The tick marks for the HUD opacity items.
pub fn opacity_item_checks(pct: u8) -> (c: [bool; 5])
    ensures
        c@ == opacity_checks(pct),
{
    [pct == 100, pct == 90, pct == 75, pct == 50, pct == 25]
}

impl TrayState {
    /// The state right after the tray icon was built for mode `m`.
    pub fn new(m: TrayDisplayMode) -> (s: Self)
        ensures
            s.last_icon_key == (m, initial_icon_value()),
            s.last_tooltip@ == Seq::<char>::empty(),
    {
        TrayState { last_icon_key: (m, 999), last_tooltip: String::new() }
    }

    /// Applies a menu command to the preferences and says what outside work to do.
    pub fn handle_menu_command(&mut self, prefs: &mut Preferences, cmd: MenuCommand) -> (action:
        TrayAction)
        ensures
            action == action_for(*old(prefs), cmd),
            *final(prefs) == prefs_after(*old(prefs), cmd),
            final(self).last_tooltip@ == old(self).last_tooltip@,
            final(self).last_icon_key == match cmd {
                MenuCommand::SetDisplayMode(m) => (m, forced_icon_value()),
                _ => old(self).last_icon_key,
            },
    {
        match cmd {
            MenuCommand::OpenDashboard => TrayAction::ShowDashboard,
            MenuCommand::Refresh => TrayAction::ShowDashboard,
            MenuCommand::ToggleInspector => TrayAction::ToggleInspector,
            MenuCommand::CopySpecs => TrayAction::CopySpecs,
            MenuCommand::ToggleHud => TrayAction::ToggleHud,
            MenuCommand::ToggleHudElement(e) => {
                let shown = match e {
                    HudElement::Cpu => {
                        prefs.hud_show_cpu = !prefs.hud_show_cpu;
                        prefs.hud_show_cpu
                    },
                    HudElement::Gpu => {
                        prefs.hud_show_gpu = !prefs.hud_show_gpu;
                        prefs.hud_show_gpu
                    },
                    HudElement::Ram => {
                        prefs.hud_show_ram = !prefs.hud_show_ram;
                        prefs.hud_show_ram
                    },
                    HudElement::Network => {
                        prefs.hud_show_network = !prefs.hud_show_network;
                        prefs.hud_show_network
                    },
                };
                TrayAction::ShowHudElement(e, shown)
            },
            MenuCommand::SetHudOpacity(pct) => {
                prefs.hud_opacity = pct;
                TrayAction::ApplyHudOpacity(pct)
            },
            MenuCommand::ToggleBenchmark => TrayAction::ToggleBenchmark,
            MenuCommand::SetDisplayMode(m) => {
                prefs.tray_display_mode = m;
                self.last_icon_key = (m, 9999);
                TrayAction::ApplyDisplayMode(m)
            },
            MenuCommand::Settings => TrayAction::ShowSettings,
            MenuCommand::ToggleAutostart(checked) => TrayAction::SetAutostart(!checked),
            MenuCommand::About => TrayAction::ShowAbout,
            MenuCommand::Exit => TrayAction::Exit,
        }
    }

    /// The icon to draw for the current readings, or `None` when the icon already
    /// shows them.
    pub fn icon_update(&self, m: TrayDisplayMode, r: &IconReadings) -> (req: Option<IconRequest>)
        ensures
            req == icon_request(self.last_icon_key.0, self.last_icon_key.1, m, *r),
    {
        let (v, t) = icon_value(m, r);
        if self.last_icon_key.0 == m && self.last_icon_key.1 == v {
            None
        } else if m == TrayDisplayMode::DefaultLogo {
            Some(IconRequest::Logo)
        } else {
            Some(IconRequest::Stat { value: v, is_temperature: t })
        }
    }

    /// Records that the icon now shows `value` in mode `m`.
    pub fn icon_drawn(&mut self, m: TrayDisplayMode, value: u32)
        ensures
            final(self).last_icon_key == (m, value),
            final(self).last_tooltip@ == old(self).last_tooltip@,
    {
        self.last_icon_key = (m, value);
    }

    /// Records a freshly built tooltip; returns whether it differs from the last
    /// one (and so must be handed to the tray icon).
    pub fn tooltip_changed(&mut self, text: String) -> (changed: bool)
        ensures
            (changed, final(self).last_tooltip@) == tooltip_step(old(self).last_tooltip@, text@),
            final(self).last_icon_key == old(self).last_icon_key,
    {
        let changed = text != self.last_tooltip;
        if changed {
            self.last_tooltip = text;
        }
        changed
    }
}

/// Whether a freshly built tooltip `text` is handed to the tray icon when `last`
/// was handed over before, and the tooltip remembered afterwards.
pub open spec fn tooltip_step(last: Seq<char>, text: Seq<char>) -> (bool, Seq<char>) {
    if text != last {
        (true, text)
    } else {
        (false, last)
    }
}

/// A tooltip is handed to the tray icon once: the same text right after is not
/// handed over again, and what is remembered is always the latest text.
pub proof fn law_tooltip_sent_once(last: Seq<char>, text: Seq<char>)
    ensures
        tooltip_step(last, text).1 == text,
        tooltip_step(tooltip_step(last, text).1, text) == (false, text),
{
}

/// Outcome of writing the autostart registry value for a request to turn autostart
/// to `requested`: on success the preference follows the request and the item's
/// tick stays; on failure the preference stays and the tick is to be restored to
/// the returned value.
pub open spec fn autostart_result(p: Preferences, requested: bool, succeeded: bool) -> (Preferences, Option<bool>) {
    if succeeded {
        (Preferences { start_with_windows: requested, ..p }, None)
    } else {
        (p, Some(!requested))
    }
}

/// Applies the outcome of the autostart registry write to the preferences; returns
/// the tick to restore the menu item to, if any.
pub fn finish_autostart(prefs: &mut Preferences, requested: bool, succeeded: bool) -> (revert_to:
    Option<bool>)
    ensures
        (*final(prefs), revert_to) == autostart_result(*old(prefs), requested, succeeded),
{
    if succeeded {
        prefs.start_with_windows = requested;
        None
    } else {
        Some(!requested)
    }
}

/// The shortest gap between two dashboard toggles by tray clicks, in nanoseconds.
pub open spec fn click_debounce_nanos() -> nat {
    250_000_000
}

/// Whether a left click on the tray icon toggles the dashboard: only when more
/// than 250 ms passed since the last toggle.
pub fn click_toggles_dashboard(left_clicked: bool, since_last_toggle_nanos: u128) -> (t: bool)
    ensures
        t == (left_clicked && since_last_toggle_nanos > click_debounce_nanos()),
{
    left_clicked && since_last_toggle_nanos > 250_000_000
}

/// The tray tooltip: recording tag, CPU load and temperature, RAM load, GPU load
/// and temperature, and network rates.
pub open spec fn tooltip_text(m: DisplayMetrics, recording: bool) -> Seq<char> {
    let rec = if recording { " [REC]"@ } else { Seq::<char>::empty() };
    let cpu_temp = match m.cpu_temperature {
        Some(t) => " ("@ + signed_decimal(t as int) + "\u{b0}C)"@,
        None => Seq::<char>::empty(),
    };
    let gpu_temp = match m.gpu_temperature {
        Some(t) => " ("@ + signed_decimal(t as int) + "\u{b0}C)"@,
        None => Seq::<char>::empty(),
    };
    "VeroStat"@ + rec + "\nCPU: "@ + percent_text(m.cpu_usage) + cpu_temp + " | RAM: "@
        + signed_decimal(m.ram_usage as int) + "%"@ + "\nGPU: "@ + percent_text(m.gpu_usage)
        + gpu_temp + "\nNet: "@ + "\u{2193}"@ + speed_text(m.download_speed as nat) + " \u{2191}"@
        + speed_text(m.upload_speed as nat)
}

fn push_paren_temperature(out: &mut String, t: Option<i64>)
    ensures
        final(out)@ == old(out)@ + match t {
            Some(v) => " ("@ + signed_decimal(v as int) + "\u{b0}C)"@,
            None => Seq::<char>::empty(),
        },
{
    match t {
        Some(v) => {
            out.append(" (");
            push_signed_decimal(out, v);
            out.append("\u{b0}C)");
        },
        None => {
            assert(old(out)@ + Seq::<char>::empty() == old(out)@);
        },
    }
}

/// Builds the tray icon's tooltip.
pub fn tray_tooltip(m: &DisplayMetrics, recording: bool) -> (s: String)
    ensures
        s@ == tooltip_text(*m, recording),
{
    let mut out = String::from_str("VeroStat");
    if recording {
        out.append(" [REC]");
    }
    out.append("\nCPU: ");
    push_percent(&mut out, m.cpu_usage);
    push_paren_temperature(&mut out, m.cpu_temperature);
    out.append(" | RAM: ");
    push_signed_decimal(&mut out, m.ram_usage);
    out.append("%");
    out.append("\nGPU: ");
    push_percent(&mut out, m.gpu_usage);
    push_paren_temperature(&mut out, m.gpu_temperature);
    out.append("\nNet: ");
    out.append("\u{2193}");
    push_speed(&mut out, m.download_speed);
    out.append(" \u{2191}");
    push_speed(&mut out, m.upload_speed);
    out
}

/// Menu label of a display mode.
pub open spec fn display_mode_label_text(m: TrayDisplayMode) -> Seq<char> {
    match m {
        TrayDisplayMode::CpuUsage => "CPU Usage (%)"@,
        TrayDisplayMode::CpuTemperature => "CPU Temperature (\u{b0}C)"@,
        TrayDisplayMode::GpuUsage => "GPU Usage (%)"@,
        TrayDisplayMode::GpuTemperature => "GPU Temperature (\u{b0}C)"@,
        TrayDisplayMode::RamUsage => "RAM Usage (%)"@,
        TrayDisplayMode::DefaultLogo => "Default Logo"@,
    }
}

/// The menu label of a display mode.
pub fn display_mode_label(m: TrayDisplayMode) -> (l: &'static str)
    ensures
        l@ == display_mode_label_text(m),
{
    match m {
        TrayDisplayMode::CpuUsage => "CPU Usage (%)",
        TrayDisplayMode::CpuTemperature => "CPU Temperature (\u{b0}C)",
        TrayDisplayMode::GpuUsage => "GPU Usage (%)",
        TrayDisplayMode::GpuTemperature => "GPU Temperature (\u{b0}C)",
        TrayDisplayMode::RamUsage => "RAM Usage (%)",
        TrayDisplayMode::DefaultLogo => "Default Logo",
    }
}

/// "ON" or "OFF".
pub open spec fn on_off(b: bool) -> Seq<char> {
    if b {
        "ON"@
    } else {
        "OFF"@
    }
}

/// The settings summary dialog's text (NUL terminated): display mode, HUD
/// elements and opacity, refresh interval, autostart, temperature warning
/// threshold (whole degrees), storage stats, hotkeys and the configuration file.
pub open spec fn settings_text(p: Preferences, high_temp_whole: i64, config_location: Seq<char>) -> Seq<char> {
    "VeroStat Settings\n\n\u{2022} Tray Icon Display: "@ + display_mode_label_text(p.tray_display_mode)
        + "\n\u{2022} In-Game HUD: CPU "@ + on_off(p.hud_show_cpu) + ", GPU "@ + on_off(p.hud_show_gpu)
        + ", RAM "@ + on_off(p.hud_show_ram) + ", Net "@ + on_off(p.hud_show_network)
        + " (Opacity: "@ + decimal(p.hud_opacity as nat) + "%)\n\u{2022} Refresh Interval: "@ + decimal(
        p.refresh_interval_ms as nat,
    ) + " ms\n\u{2022} Start with Windows: "@ + (if p.start_with_windows {
        "Enabled"@
    } else {
        "Disabled"@
    }) + "\n\u{2022} High Temp Warning: "@ + signed_decimal(high_temp_whole as int)
        + "\u{b0}C\n\u{2022} Show Storage Stats: "@ + (if p.show_disk_stats {
        "Yes"@
    } else {
        "No"@
    })
        + "\n\nHotkeys:\n\u{2022} Win + Shift + V : Toggle Dashboard\n\u{2022} Ctrl + Shift + O : Toggle In-Game HUD Overlay\n\nConfiguration file is stored at:\n"@
        + config_location + "\0"@
}

fn push_on_off(out: &mut String, b: bool)
    ensures
        final(out)@ == old(out)@ + on_off(b),
{
    if b {
        out.append("ON");
    } else {
        out.append("OFF");
    }
}

/// Builds the settings summary dialog's text.
pub fn settings_summary(p: &Preferences, high_temp_whole: i64, config_location: &str) -> (s: String)
    ensures
        s@ == settings_text(*p, high_temp_whole, config_location@),
{
    let mut s = String::from_str("VeroStat Settings\n\n\u{2022} Tray Icon Display: ");
    s.append(display_mode_label(p.tray_display_mode));
    s.append("\n\u{2022} In-Game HUD: CPU ");
    push_on_off(&mut s, p.hud_show_cpu);
    s.append(", GPU ");
    push_on_off(&mut s, p.hud_show_gpu);
    s.append(", RAM ");
    push_on_off(&mut s, p.hud_show_ram);
    s.append(", Net ");
    push_on_off(&mut s, p.hud_show_network);
    s.append(" (Opacity: ");
    push_decimal(&mut s, p.hud_opacity as u128);
    s.append("%)\n\u{2022} Refresh Interval: ");
    push_decimal(&mut s, p.refresh_interval_ms as u128);
    s.append(" ms\n\u{2022} Start with Windows: ");
    if p.start_with_windows {
        s.append("Enabled");
    } else {
        s.append("Disabled");
    }
    s.append("\n\u{2022} High Temp Warning: ");
    push_signed_decimal(&mut s, high_temp_whole);
    s.append("\u{b0}C\n\u{2022} Show Storage Stats: ");
    if p.show_disk_stats {
        s.append("Yes");
    } else {
        s.append("No");
    }
    s.append(
        "\n\nHotkeys:\n\u{2022} Win + Shift + V : Toggle Dashboard\n\u{2022} Ctrl + Shift + O : Toggle In-Game HUD Overlay\n\nConfiguration file is stored at:\n",
    );
    s.append(config_location);
    s.append("\0");
    s
}

/// Each display mode shows its own reading, 0 when that reading is unknown: CPU
/// load, CPU temperature, GPU load, GPU temperature, RAM load, and nothing for the
/// logo; only the two temperature modes are marked as temperatures. An icon drawn
/// for another mode is replaced by exactly that reading.
pub proof fn law_icon_shows_mode_reading(drawn_mode: TrayDisplayMode, drawn_value: u32, m: TrayDisplayMode, r: IconReadings)
    ensures
        icon_reading(TrayDisplayMode::CpuUsage, r) == (match r.cpu_usage {
            Some(v) => v,
            None => 0u32,
        }, false),
        icon_reading(TrayDisplayMode::CpuTemperature, r) == (match r.cpu_temperature {
            Some(v) => v,
            None => 0u32,
        }, true),
        icon_reading(TrayDisplayMode::GpuUsage, r) == (match r.gpu_usage {
            Some(v) => v,
            None => 0u32,
        }, false),
        icon_reading(TrayDisplayMode::GpuTemperature, r) == (match r.gpu_temperature {
            Some(v) => v,
            None => 0u32,
        }, true),
        icon_reading(TrayDisplayMode::RamUsage, r) == (r.ram_usage, false),
        icon_reading(TrayDisplayMode::DefaultLogo, r) == (0u32, false),
        drawn_mode != m && m != TrayDisplayMode::DefaultLogo ==> icon_request(drawn_mode, drawn_value, m, r)
            == Some(
            IconRequest::Stat {
                value: icon_reading(m, r).0,
                is_temperature: m == TrayDisplayMode::CpuTemperature || m == TrayDisplayMode::GpuTemperature,
            },
        ),
        drawn_mode != TrayDisplayMode::GpuTemperature ==> icon_request(
            drawn_mode,
            drawn_value,
            TrayDisplayMode::GpuTemperature,
            r,
        ) == Some(
            IconRequest::Stat {
                value: match r.gpu_temperature {
                    Some(v) => v,
                    None => 0u32,
                },
                is_temperature: true,
            },
        ),
        drawn_mode != m && m == TrayDisplayMode::DefaultLogo ==> icon_request(drawn_mode, drawn_value, m, r)
            == Some(IconRequest::Logo),
{
}

/// Toggling a HUD element flips exactly the preference that belongs to it, leaves
/// every other preference as it was, and tells the menu to tick that element's item
/// as the new preference says.
pub proof fn law_toggle_flips_only_its_element(p: Preferences, e: HudElement)
    ensures
        prefs_after(p, MenuCommand::ToggleHudElement(e)).hud_show_cpu == if e == HudElement::Cpu {
            !p.hud_show_cpu
        } else {
            p.hud_show_cpu
        },
        prefs_after(p, MenuCommand::ToggleHudElement(e)).hud_show_gpu == if e == HudElement::Gpu {
            !p.hud_show_gpu
        } else {
            p.hud_show_gpu
        },
        prefs_after(p, MenuCommand::ToggleHudElement(e)).hud_show_ram == if e == HudElement::Ram {
            !p.hud_show_ram
        } else {
            p.hud_show_ram
        },
        prefs_after(p, MenuCommand::ToggleHudElement(e)).hud_show_network == if e
            == HudElement::Network {
            !p.hud_show_network
        } else {
            p.hud_show_network
        },
        prefs_after(p, MenuCommand::ToggleHudElement(e)).refresh_interval_ms == p.refresh_interval_ms,
        prefs_after(p, MenuCommand::ToggleHudElement(e)).start_with_windows == p.start_with_windows,
        prefs_after(p, MenuCommand::ToggleHudElement(e)).show_disk_stats == p.show_disk_stats,
        prefs_after(p, MenuCommand::ToggleHudElement(e)).tray_display_mode == p.tray_display_mode,
        prefs_after(p, MenuCommand::ToggleHudElement(e)).hud_opacity == p.hud_opacity,
        action_for(p, MenuCommand::ToggleHudElement(e)) == TrayAction::ShowHudElement(
            e,
            match e {
                HudElement::Cpu => !p.hud_show_cpu,
                HudElement::Gpu => !p.hud_show_gpu,
                HudElement::Ram => !p.hud_show_ram,
                HudElement::Network => !p.hud_show_network,
            },
        ),
{
}

/// A prefix of `a` is a prefix of anything that starts with `a`.
proof fn lemma_subrange_of_prefix(a: Seq<char>, b: Seq<char>, i: int, j: int)
    requires
        0 <= i <= j <= a.len(),
    ensures
        (a + b).subrange(i, j) == a.subrange(i, j),
{
    assert((a + b).subrange(i, j) =~= a.subrange(i, j));
}

/// The settings text reports autostart as "Enabled" when it is on and "Disabled"
/// when it is off, on a line of its own.
pub proof fn law_settings_autostart_line(p: Preferences, high_temp_whole: i64, config_location: Seq<char>)
    ensures
        contains(
            settings_text(p, high_temp_whole, config_location),
            "\u{2022} Start with Windows: "@ + (if p.start_with_windows {
                "Enabled"@
            } else {
                "Disabled"@
            }) + "\n"@,
        ),
        p.start_with_windows ==> contains(
            settings_text(p, high_temp_whole, config_location),
            "\u{2022} Start with Windows: Enabled\n"@,
        ),
        !p.start_with_windows ==> contains(
            settings_text(p, high_temp_whole, config_location),
            "\u{2022} Start with Windows: Disabled\n"@,
        ),
{
    reveal_strlit(" ms\n\u{2022} Start with Windows: ");
    reveal_strlit("\n\u{2022} High Temp Warning: ");
    reveal_strlit("\u{2022} Start with Windows: ");
    reveal_strlit("\u{2022} Start with Windows: Enabled\n");
    reveal_strlit("\u{2022} Start with Windows: Disabled\n");
    reveal_strlit("Enabled");
    reveal_strlit("Disabled");
    reveal_strlit("\n");
    let a = "VeroStat Settings\n\n\u{2022} Tray Icon Display: "@ + display_mode_label_text(p.tray_display_mode)
        + "\n\u{2022} In-Game HUD: CPU "@ + on_off(p.hud_show_cpu) + ", GPU "@ + on_off(p.hud_show_gpu)
        + ", RAM "@ + on_off(p.hud_show_ram) + ", Net "@ + on_off(p.hud_show_network)
        + " (Opacity: "@ + decimal(p.hud_opacity as nat) + "%)\n\u{2022} Refresh Interval: "@ + decimal(
        p.refresh_interval_ms as nat,
    );
    let l1 = " ms\n\u{2022} Start with Windows: "@;
    let w = if p.start_with_windows {
        "Enabled"@
    } else {
        "Disabled"@
    };
    let l2 = "\n\u{2022} High Temp Warning: "@;
    let b = a + l1 + w + l2;
    let t1 = b + signed_decimal(high_temp_whole as int);
    let t2 = t1 + "\u{b0}C\n\u{2022} Show Storage Stats: "@;
    let t3 = t2 + (if p.show_disk_stats {
        "Yes"@
    } else {
        "No"@
    });
    let t4 = t3
        + "\n\nHotkeys:\n\u{2022} Win + Shift + V : Toggle Dashboard\n\u{2022} Ctrl + Shift + O : Toggle In-Game HUD Overlay\n\nConfiguration file is stored at:\n"@;
    let t5 = t4 + config_location;
    let text = t5 + "\0"@;
    assert(text == settings_text(p, high_temp_whole, config_location));
    let line = "\u{2022} Start with Windows: "@ + w + "\n"@;
    let i: int = a.len() as int + 4;
    let j: int = i + line.len();
    assert(j <= b.len());
    assert(b.subrange(i, j) =~= line);
    lemma_subrange_of_prefix(b, signed_decimal(high_temp_whole as int), i, j);
    lemma_subrange_of_prefix(t1, "\u{b0}C\n\u{2022} Show Storage Stats: "@, i, j);
    lemma_subrange_of_prefix(t2, (if p.show_disk_stats {
        "Yes"@
    } else {
        "No"@
    }), i, j);
    lemma_subrange_of_prefix(
        t3,
        "\n\nHotkeys:\n\u{2022} Win + Shift + V : Toggle Dashboard\n\u{2022} Ctrl + Shift + O : Toggle In-Game HUD Overlay\n\nConfiguration file is stored at:\n"@,
        i,
        j,
    );
    lemma_subrange_of_prefix(t4, config_location, i, j);
    lemma_subrange_of_prefix(t5, "\0"@, i, j);
    assert(text.subrange(i, j) == line);
    assert(line =~= if p.start_with_windows {
        "\u{2022} Start with Windows: Enabled\n"@
    } else {
        "\u{2022} Start with Windows: Disabled\n"@
    });
}

/// Exactly one display-mode item is ticked: the one of the current mode.
pub proof fn law_one_display_mode_ticked(m: TrayDisplayMode)
    ensures
        display_mode_checks(m).len() == 6,
        display_mode_checks(m).filter(|b: bool| b).len() == 1,
        forall|i: int, j: int|
            0 <= i < 6 && 0 <= j < 6 && #[trigger] display_mode_checks(m)[i] && #[trigger] display_mode_checks(m)[j]
                ==> i == j,
{
    reveal_with_fuel(Seq::filter, 7);
    let c = display_mode_checks(m);
    assert(c.filter(|b: bool| b) == seq![true]) by {
        reveal_with_fuel(Seq::filter, 7);
        match m {
            TrayDisplayMode::CpuUsage => {
                assert(c == seq![true, false, false, false, false, false]);
            },
            TrayDisplayMode::CpuTemperature => {
                assert(c == seq![false, true, false, false, false, false]);
            },
            TrayDisplayMode::GpuUsage => {
                assert(c == seq![false, false, true, false, false, false]);
            },
            TrayDisplayMode::GpuTemperature => {
                assert(c == seq![false, false, false, true, false, false]);
            },
            TrayDisplayMode::RamUsage => {
                assert(c == seq![false, false, false, false, true, false]);
            },
            TrayDisplayMode::DefaultLogo => {
                assert(c == seq![false, false, false, false, false, true]);
            },
        }
    }
}

/// At most one opacity item is ticked, and one is exactly when the opacity is one
/// of the menu's choices (100, 90, 75, 50, 25).
pub proof fn law_at_most_one_opacity_ticked(pct: u8)
    ensures
        forall|i: int, j: int|
            0 <= i < 5 && 0 <= j < 5 && #[trigger] opacity_checks(pct)[i] && #[trigger] opacity_checks(pct)[j] ==> i
                == j,
        (exists|i: int| 0 <= i < 5 && #[trigger] opacity_checks(pct)[i]) <==> (pct == 100 || pct == 90
            || pct == 75 || pct == 50 || pct == 25),
{
    if pct == 100 {
        assert(opacity_checks(pct)[0]);
    } else if pct == 90 {
        assert(opacity_checks(pct)[1]);
    } else if pct == 75 {
        assert(opacity_checks(pct)[2]);
    } else if pct == 50 {
        assert(opacity_checks(pct)[3]);
    } else if pct == 25 {
        assert(opacity_checks(pct)[4]);
    }
}

/// Toggling a HUD element twice restores the preferences.
pub proof fn law_toggle_hud_element_twice(p: Preferences, e: HudElement)
    ensures
        prefs_after(prefs_after(p, MenuCommand::ToggleHudElement(e)), MenuCommand::ToggleHudElement(e))
            == p,
{
}

/// No menu command changes the refresh interval, the disk statistics setting or the
/// autostart preference (which only a successful registry write changes).
pub proof fn law_menu_keeps_other_settings(p: Preferences, cmd: MenuCommand)
    ensures
        prefs_after(p, cmd).refresh_interval_ms == p.refresh_interval_ms,
        prefs_after(p, cmd).show_disk_stats == p.show_disk_stats,
        prefs_after(p, cmd).start_with_windows == p.start_with_windows,
{
}

/// Clicking "Start with Windows" asks for the opposite of the item's tick. When the
/// registry write succeeds, the preference follows the new tick; when it fails, the
/// preference is unchanged and the tick goes back to what it showed before the click.
pub proof fn law_autostart_round(p: Preferences, checked_before: bool, succeeded: bool)
    ensures
        action_for(p, MenuCommand::ToggleAutostart(checked_before)) == TrayAction::SetAutostart(
            !checked_before,
        ),
        prefs_after(p, MenuCommand::ToggleAutostart(checked_before)) == p,
        succeeded ==> autostart_result(p, !checked_before, succeeded).0.start_with_windows
            == !checked_before,
        succeeded ==> autostart_result(p, !checked_before, succeeded).1 is None,
        !succeeded ==> autostart_result(p, !checked_before, succeeded) == (p, Some(checked_before)),
        autostart_result(p, !checked_before, succeeded).0 == (Preferences {
            start_with_windows: autostart_result(p, !checked_before, succeeded).0.start_with_windows,
            ..p
        }),
{
}

/// Once the icon was drawn for a reading, the same reading asks for no redraw.
pub proof fn law_icon_drawn_once(m: TrayDisplayMode, r: IconReadings)
    ensures
        icon_request(m, icon_reading(m, r).0, m, r) is None,
{
}

/// After the display mode changes, the next refresh redraws the icon (unless the
/// reading happens to be the marker value 9999).
pub proof fn law_mode_change_forces_redraw(m: TrayDisplayMode, r: IconReadings)
    requires
        icon_reading(m, r).0 != forced_icon_value(),
    ensures
        icon_request(m, forced_icon_value(), m, r) == Some(
            icon_for(m, icon_reading(m, r).0, icon_reading(m, r).1),
        ),
{
}

/// The logo mode always draws the logo; the other modes draw their reading.
pub proof fn law_icon_kind(m: TrayDisplayMode, r: IconReadings)
    ensures
        m == TrayDisplayMode::DefaultLogo ==> icon_for(m, icon_reading(m, r).0, icon_reading(m, r).1)
            == IconRequest::Logo,
        m != TrayDisplayMode::DefaultLogo ==> icon_for(m, icon_reading(m, r).0, icon_reading(m, r).1)
            == (IconRequest::Stat {
            value: icon_reading(m, r).0,
            is_temperature: is_temperature_mode(m),
        }),
{
}

} // verus!
