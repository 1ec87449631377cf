use vstd::prelude::*;
use crate::config::Preferences;
use crate::metrics::DisplayMetrics;
use crate::network::{push_speed, speed_text};
use crate::numfmt::{gib_text, push_gib, push_signed_decimal, signed_decimal};

verus! {

/// A temperature as "<n>°C", or "N/A" when unknown.
pub open spec fn temperature_text(t: Option<i64>) -> Seq<char> {
    match t {
        Some(v) => signed_decimal(v as int) + "\u{b0}C"@,
        None => "N/A"@,
    }
}

/// A percentage as "<n>%", or "N/A" when unknown.
pub open spec fn percent_text(u: Option<i64>) -> Seq<char> {
    match u {
        Some(v) => signed_decimal(v as int) + "%"@,
        None => "N/A"@,
    }
}

/// CPU segment, e.g. "CPU 18% 50°C"; an unknown load shows as 0%.
pub open spec fn hud_cpu_segment(m: DisplayMetrics) -> Seq<char> {
    let usage = match m.cpu_usage {
        Some(v) => v,
        None => 0,
    };
    "CPU "@ + signed_decimal(usage as int) + "% "@ + temperature_text(m.cpu_temperature)
}

/// GPU segment, e.g. "GPU 0% 51°C".
pub open spec fn hud_gpu_segment(m: DisplayMetrics) -> Seq<char> {
    "GPU "@ + percent_text(m.gpu_usage) + " "@ + temperature_text(m.gpu_temperature)
}

/// RAM segment: used memory in GiB with one decimal, e.g. "RAM 14.6G".
pub open spec fn hud_ram_segment(m: DisplayMetrics) -> Seq<char> {
    "RAM "@ + gib_text(m.ram_used as nat, 1) + "G"@
}

/// Network segment: the download rate, e.g. "↓1 KB/s".
pub open spec fn hud_network_segment(m: DisplayMetrics) -> Seq<char> {
    "\u{2193}"@ + speed_text(m.download_speed as nat)
}

/// The HUD's segments, in display order, for the elements the user selected.
pub open spec fn hud_segments(m: DisplayMetrics, p: Preferences) -> Seq<Seq<char>> {
    let s0 = Seq::<Seq<char>>::empty();
    let s1 = if p.hud_show_cpu { s0.push(hud_cpu_segment(m)) } else { s0 };
    let s2 = if p.hud_show_gpu { s1.push(hud_gpu_segment(m)) } else { s1 };
    let s3 = if p.hud_show_ram { s2.push(hud_ram_segment(m)) } else { s2 };
    if p.hud_show_network { s3.push(hud_network_segment(m)) } else { s3 }
}

/// `parts` joined with `sep` between consecutive parts.
pub open spec fn join(parts: Seq<Seq<char>>, sep: Seq<char>) -> Seq<char>
    decreases parts.len(),
{
    if parts.len() == 0 {
        Seq::<char>::empty()
    } else if parts.len() == 1 {
        parts[0]
    } else {
        join(parts.drop_last(), sep) + sep + parts.last()
    }
}

/// What stands between two HUD segments.
pub open spec fn hud_separator() -> Seq<char> {
    "   |   "@
}

/// The hint shown when no HUD element is selected.
pub open spec fn hud_placeholder() -> Seq<char> {
    "VeroStat HUD (Select elements in tray)"@
}

/// The one-line HUD text: the selected segments joined by "   |   ", or a hint
/// when no element is selected.
pub open spec fn hud_text(m: DisplayMetrics, p: Preferences) -> Seq<char> {
    if hud_segments(m, p).len() > 0 {
        join(hud_segments(m, p), hud_separator())
    } else {
        hud_placeholder()
    }
}

/// Appends `temperature_text(t)`.
pub fn push_temperature(out: &mut String, t: Option<i64>)
    ensures
        final(out)@ == old(out)@ + temperature_text(t),
{
    match t {
        Some(v) => {
            push_signed_decimal(out, v);
            out.append("\u{b0}C");
        },
        None => {
            out.append("N/A");
        },
    }
}

/// Appends `percent_text(u)`.
pub fn push_percent(out: &mut String, u: Option<i64>)
    ensures
        final(out)@ == old(out)@ + percent_text(u),
{
    match u {
        Some(v) => {
            push_signed_decimal(out, v);
            out.append("%");
        },
        None => {
            out.append("N/A");
        },
    }
}

/// Joining one more part adds the separator (unless it is the first part) and the part.
proof fn lemma_join_push(parts: Seq<Seq<char>>, sep: Seq<char>, seg: Seq<char>)
    ensures
        join(parts.push(seg), sep) == if parts.len() == 0 {
            seg
        } else {
            join(parts, sep) + sep + seg
        },
{
    assert(parts.push(seg).drop_last() == parts);
}

/// Builds the floating HUD's one-line text for the selected elements.
pub fn build_hud_text(m: &DisplayMetrics, cfg: &Preferences) -> (text: String)
    ensures
        text@ == hud_text(*m, *cfg),
{
    let mut out = String::new();
    let ghost mut parts = Seq::<Seq<char>>::empty();
    let mut first = true;
    if cfg.hud_show_cpu {
        out.append("CPU ");
        let usage = match m.cpu_usage {
            Some(v) => v,
            None => 0,
        };
        push_signed_decimal(&mut out, usage);
        out.append("% ");
        push_temperature(&mut out, m.cpu_temperature);
        proof {
            lemma_join_push(parts, hud_separator(), hud_cpu_segment(*m));
            parts = parts.push(hud_cpu_segment(*m));
        }
        first = false;
    }
    assert(out@ == join(parts, hud_separator()) && first == (parts.len() == 0));
    if cfg.hud_show_gpu {
        if !first {
            out.append("   |   ");
        }
        out.append("GPU ");
        push_percent(&mut out, m.gpu_usage);
        out.append(" ");
        push_temperature(&mut out, m.gpu_temperature);
        proof {
            lemma_join_push(parts, hud_separator(), hud_gpu_segment(*m));
            parts = parts.push(hud_gpu_segment(*m));
        }
        first = false;
    }
    assert(out@ == join(parts, hud_separator()) && first == (parts.len() == 0));
    if cfg.hud_show_ram {
        if !first {
            out.append("   |   ");
        }
        out.append("RAM ");
        push_gib(&mut out, m.ram_used, 1);
        out.append("G");
        proof {
            lemma_join_push(parts, hud_separator(), hud_ram_segment(*m));
            parts = parts.push(hud_ram_segment(*m));
        }
        first = false;
    }
    assert(out@ == join(parts, hud_separator()) && first == (parts.len() == 0));
    if cfg.hud_show_network {
        if !first {
            out.append("   |   ");
        }
        out.append("\u{2193}");
        push_speed(&mut out, m.download_speed);
        proof {
            lemma_join_push(parts, hud_separator(), hud_network_segment(*m));
            parts = parts.push(hud_network_segment(*m));
        }
        first = false;
    }
    assert(parts == hud_segments(*m, *cfg));
    if first {
        return String::from_str("VeroStat HUD (Select elements in tray)");
    }
    out
}

/// The HUD text lists the selected segments in the order CPU, GPU, RAM, network,
/// with "   |   " between every two consecutive shown segments, whichever elements
/// are hidden, and the hint when none is shown.
pub proof fn law_hud_text_layout(m: DisplayMetrics, p: Preferences)
    ensures
        ({
            let c = hud_cpu_segment(m);
            let g = hud_gpu_segment(m);
            let r = hud_ram_segment(m);
            let n = hud_network_segment(m);
            let s = "   |   "@;
            let t = hud_text(m, p);
            &&& (!p.hud_show_cpu && !p.hud_show_gpu && !p.hud_show_ram && !p.hud_show_network) ==> t
                == "VeroStat HUD (Select elements in tray)"@
            &&& (p.hud_show_cpu && !p.hud_show_gpu && !p.hud_show_ram && !p.hud_show_network) ==> t == c
            &&& (!p.hud_show_cpu && p.hud_show_gpu && !p.hud_show_ram && !p.hud_show_network) ==> t == g
            &&& (!p.hud_show_cpu && !p.hud_show_gpu && p.hud_show_ram && !p.hud_show_network) ==> t == r
            &&& (!p.hud_show_cpu && !p.hud_show_gpu && !p.hud_show_ram && p.hud_show_network) ==> t == n
            &&& (p.hud_show_cpu && p.hud_show_gpu && !p.hud_show_ram && !p.hud_show_network) ==> t == c + s
                + g
            &&& (p.hud_show_cpu && !p.hud_show_gpu && p.hud_show_ram && !p.hud_show_network) ==> t == c + s
                + r
            &&& (p.hud_show_cpu && !p.hud_show_gpu && !p.hud_show_ram && p.hud_show_network) ==> t == c + s
                + n
            &&& (!p.hud_show_cpu && p.hud_show_gpu && p.hud_show_ram && !p.hud_show_network) ==> t == g + s
                + r
            &&& (!p.hud_show_cpu && p.hud_show_gpu && !p.hud_show_ram && p.hud_show_network) ==> t == g + s
                + n
            &&& (!p.hud_show_cpu && !p.hud_show_gpu && p.hud_show_ram && p.hud_show_network) ==> t == r + s
                + n
            &&& (p.hud_show_cpu && p.hud_show_gpu && p.hud_show_ram && !p.hud_show_network) ==> t == c + s
                + g + s + r
            &&& (p.hud_show_cpu && p.hud_show_gpu && !p.hud_show_ram && p.hud_show_network) ==> t == c + s
                + g + s + n
            &&& (p.hud_show_cpu && !p.hud_show_gpu && p.hud_show_ram && p.hud_show_network) ==> t == c + s
                + r + s + n
            &&& (!p.hud_show_cpu && p.hud_show_gpu && p.hud_show_ram && p.hud_show_network) ==> t == g + s
                + r + s + n
            &&& (p.hud_show_cpu && p.hud_show_gpu && p.hud_show_ram && p.hud_show_network) ==> t == c + s
                + g + s + r + s + n
        }),
{
    let c = hud_cpu_segment(m);
    let g = hud_gpu_segment(m);
    let r = hud_ram_segment(m);
    let n = hud_network_segment(m);
    let s = hud_separator();
    let e = Seq::<Seq<char>>::empty();
    let parts = hud_segments(m, p);
    reveal_with_fuel(join, 5);
    assert(e.push(c) == seq![c]);
    assert(e.push(g) == seq![g]);
    assert(e.push(r) == seq![r]);
    assert(e.push(n) == seq![n]);
    if parts.len() >= 2 {
        assert(parts.drop_last().push(parts.last()) == parts);
    }
    if parts.len() >= 3 {
        assert(parts.drop_last().drop_last().push(parts.drop_last().last()) == parts.drop_last());
    }
    if parts.len() == 4 {
        assert(parts.drop_last().drop_last().drop_last() == seq![c]);
    }
}

/// The HUD falls back to its hint exactly when no element is selected.
pub proof fn law_hud_placeholder_iff_nothing_selected(m: DisplayMetrics, p: Preferences)
    ensures
        (hud_segments(m, p).len() == 0) <==> !(p.hud_show_cpu || p.hud_show_gpu || p.hud_show_ram
            || p.hud_show_network),
        !(p.hud_show_cpu || p.hud_show_gpu || p.hud_show_ram || p.hud_show_network) ==> hud_text(m, p)
            == hud_placeholder(),
{
}

/// Each selected element contributes exactly one segment.
pub proof fn law_hud_one_segment_per_element(m: DisplayMetrics, p: Preferences)
    ensures
        hud_segments(m, p).len() == (if p.hud_show_cpu { 1nat } else { 0 }) + (if p.hud_show_gpu {
            1nat
        } else {
            0
        }) + (if p.hud_show_ram { 1nat } else { 0 }) + (if p.hud_show_network { 1nat } else { 0 }),
{
}

} // verus!
