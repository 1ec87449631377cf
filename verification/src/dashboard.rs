use vstd::prelude::*;
use crate::hud::{push_temperature, temperature_text};
use crate::network::{push_speed, speed_text};
use crate::numfmt::{decimal, gib_text, push_decimal, push_gib, push_rounded_fixed, push_signed_decimal, rounded_fixed, signed_decimal};
use crate::text::{chars_to_string, replace_all, replace_chars, str_to_chars, trim, trim_chars};

verus! {

/// "11th Gen "
pub open spec fn marketing_gen() -> Seq<char> {
    seq!['1', '1', 't', 'h', ' ', 'G', 'e', 'n', ' ']
}

/// "(R)"
pub open spec fn marketing_r() -> Seq<char> {
    seq!['(', 'R', ')']
}

/// "(TM)"
pub open spec fn marketing_tm() -> Seq<char> {
    seq!['(', 'T', 'M', ')']
}

/// "Intel Core "
pub open spec fn marketing_intel() -> Seq<char> {
    seq!['I', 'n', 't', 'e', 'l', ' ', 'C', 'o', 'r', 'e', ' ']
}

/// "NVIDIA GeForce "
pub open spec fn marketing_nvidia() -> Seq<char> {
    seq!['N', 'V', 'I', 'D', 'I', 'A', ' ', 'G', 'e', 'F', 'o', 'r', 'c', 'e', ' ']
}

/// A hardware name with the marketing words "11th Gen ", "(R)", "(TM)",
/// "Intel Core " and "NVIDIA GeForce " removed (in that order) and trimmed.
pub open spec fn stripped_name(name: Seq<char>) -> Seq<char> {
    let e = Seq::<char>::empty();
    trim(
        replace_all(
            replace_all(
                replace_all(
                    replace_all(replace_all(name, marketing_gen(), e), marketing_r(), e),
                    marketing_tm(),
                    e,
                ),
                marketing_intel(),
                e,
            ),
            marketing_nvidia(),
            e,
        ),
    )
}

/// `stripped_name(name)`, cut to `max_len` characters with a trailing ellipsis
/// when it is longer.
pub open spec fn shortened_name(name: Seq<char>, max_len: nat) -> Seq<char> {
    let t = stripped_name(name);
    if t.len() > max_len {
        t.take(if max_len == 0 { 0 } else { max_len - 1 }).push('\u{2026}')
    } else {
        t
    }
}

fn remove_all(s: &Vec<char>, pat: &str) -> (r: Vec<char>)
    requires
        pat@.len() > 0,
    ensures
        r@ == replace_all(s@, pat@, Seq::<char>::empty()),
{
    let p = str_to_chars(pat);
    let e: Vec<char> = Vec::new();
    replace_chars(s, &p, &e)
}

/// Shortens a CPU/GPU model name for display: drops marketing words and cuts it to
/// `max_len` characters, ending in "…" when cut.
pub fn shorten_name(name: &str, max_len: usize) -> (s: String)
    ensures
        s@ == shortened_name(name@, max_len as nat),
{
    proof {
        reveal_strlit("11th Gen ");
        reveal_strlit("(R)");
        reveal_strlit("(TM)");
        reveal_strlit("Intel Core ");
        reveal_strlit("NVIDIA GeForce ");
    }
    let cs = str_to_chars(name);
    let a = remove_all(&cs, "11th Gen ");
    let b = remove_all(&a, "(R)");
    let c = remove_all(&b, "(TM)");
    let d = remove_all(&c, "Intel Core ");
    let e = remove_all(&d, "NVIDIA GeForce ");
    assert("11th Gen "@ == marketing_gen());
    assert("(R)"@ == marketing_r());
    assert("(TM)"@ == marketing_tm());
    assert("Intel Core "@ == marketing_intel());
    assert("NVIDIA GeForce "@ == marketing_nvidia());
    let t = trim_chars(&e);
    if t.len() > max_len {
        let keep = if max_len == 0 { 0 } else { max_len - 1 };
        let mut short: Vec<char> = Vec::new();
        let mut i: usize = 0;
        while i < keep
            invariant
                keep <= t@.len(),
                i <= keep,
                short@ == t@.take(i as int),
            decreases keep - i,
        {
            short.push(t[i]);
            i += 1;
        }
        short.push('\u{2026}');
        chars_to_string(&short)
    } else {
        chars_to_string(&t)
    }
}

/// With room for at least one character, a shortened name never exceeds `max_len`.
pub proof fn law_shortened_name_fits(name: Seq<char>, max_len: nat)
    requires
        max_len >= 1,
    ensures
        shortened_name(name, max_len).len() <= max_len,
{
}

/// RAM line: used GiB with one decimal over total GiB with none, e.g. "14.6 / 32 GB".
pub open spec fn memory_text(used: nat, total: nat) -> Seq<char> {
    gib_text(used, 1) + " / "@ + gib_text(total, 0) + " GB"@
}

/// Storage line: used and total GiB without decimals, e.g. "412 / 953 GB".
pub open spec fn storage_text(used: nat, total: nat) -> Seq<char> {
    gib_text(used, 0) + " / "@ + gib_text(total, 0) + " GB"@
}

/// Video memory, e.g. "3.2/8G", when both figures are known; empty otherwise.
pub open spec fn vram_text(used: Option<u64>, total: Option<u64>) -> Seq<char> {
    match (used, total) {
        (Some(u), Some(t)) => gib_text(u as nat, 1) + "/"@ + gib_text(t as nat, 0) + "G"@,
        _ => Seq::<char>::empty(),
    }
}

/// Right-hand GPU detail: temperature, followed by the video memory when both
/// are known.
pub open spec fn gpu_detail_text(temperature: Option<i64>, used: Option<u64>, total: Option<u64>) -> Seq<char> {
    if temperature is Some && vram_text(used, total).len() > 0 {
        temperature_text(temperature) + " \u{2022} "@ + vram_text(used, total)
    } else {
        temperature_text(temperature)
    }
}

/// Network line: download and upload rates.
pub open spec fn network_text(down: nat, up: nat) -> Seq<char> {
    "\u{2193} "@ + speed_text(down) + "     \u{2191} "@ + speed_text(up)
}

/// Process row label: 1-based rank and the shortened process name (14 characters).
pub open spec fn process_label(rank: nat, name: Seq<char>) -> Seq<char> {
    decimal(rank + 1) + ". "@ + shortened_name(name, 14)
}

/// Process row figures: CPU load, then memory in MB (whole MiB) or, from 1024 MiB
/// on, in GB with one decimal.
pub open spec fn process_usage_text(cpu: i64, memory_bytes: nat) -> Seq<char> {
    let mb = memory_bytes / 1024 / 1024;
    if mb >= 1024 {
        signed_decimal(cpu as int) + "% \u{2022} "@ + rounded_fixed(mb, 1024, 1) + " GB"@
    } else {
        signed_decimal(cpu as int) + "% \u{2022} "@ + decimal(mb) + " MB"@
    }
}

/// The dashboard's RAM figures.
pub fn memory_line(used: u64, total: u64) -> (s: String)
    ensures
        s@ == memory_text(used as nat, total as nat),
{
    let mut s = String::new();
    push_gib(&mut s, used, 1);
    s.append(" / ");
    push_gib(&mut s, total, 0);
    s.append(" GB");
    s
}

/// The dashboard's storage figures.
pub fn storage_line(used: u64, total: u64) -> (s: String)
    ensures
        s@ == storage_text(used as nat, total as nat),
{
    let mut s = String::new();
    push_gib(&mut s, used, 0);
    s.append(" / ");
    push_gib(&mut s, total, 0);
    s.append(" GB");
    s
}

/// Appends `vram_text(used, total)`.
fn push_vram(out: &mut String, used: Option<u64>, total: Option<u64>)
    ensures
        final(out)@ == old(out)@ + vram_text(used, total),
{
    match (used, total) {
        (Some(u), Some(t)) => {
            push_gib(out, u, 1);
            out.append("/");
            push_gib(out, t, 0);
            out.append("G");
        },
        _ => {
            assert(old(out)@ + Seq::<char>::empty() == old(out)@);
        },
    }
}

/// The dashboard's right-hand GPU detail.
pub fn gpu_detail_line(temperature: Option<i64>, used: Option<u64>, total: Option<u64>) -> (s: String)
    ensures
        s@ == gpu_detail_text(temperature, used, total),
{
    let mut s = String::new();
    push_temperature(&mut s, temperature);
    if temperature.is_some() && used.is_some() && total.is_some() {
        s.append(" \u{2022} ");
        push_vram(&mut s, used, total);
        proof {
            reveal_strlit("/");
            reveal_strlit("G");
        }
    }
    s
}

/// The dashboard's network line.
pub fn network_line(down: u64, up: u64) -> (s: String)
    ensures
        s@ == network_text(down as nat, up as nat),
{
    let mut s = String::new();
    s.append("\u{2193} ");
    push_speed(&mut s, down);
    s.append("     \u{2191} ");
    push_speed(&mut s, up);
    s
}

/// The label of the top process at 0-based position `rank`.
pub fn process_label_line(rank: usize, name: &str) -> (s: String)
    requires
        rank < usize::MAX,
    ensures
        s@ == process_label(rank as nat, name@),
{
    let mut s = String::new();
    push_decimal(&mut s, (rank + 1) as u128);
    s.append(". ");
    let short = shorten_name(name, 14);
    s.append(short.as_str());
    s
}

/// The CPU and memory figures of a top process.
pub fn process_usage_line(cpu: i64, memory_bytes: u64) -> (s: String)
    ensures
        s@ == process_usage_text(cpu, memory_bytes as nat),
{
    let mb = memory_bytes / 1024 / 1024;
    let mut s = String::new();
    push_signed_decimal(&mut s, cpu);
    s.append("% \u{2022} ");
    if mb >= 1024 {
        push_rounded_fixed(&mut s, mb as u128, 1024, 1);
        s.append(" GB");
    } else {
        push_decimal(&mut s, mb as u128);
        s.append(" MB");
    }
    s
}

/// The fastest core clock in MHz, 0 when no core is listed.
pub open spec fn max_mhz(freqs: Seq<u64>) -> u64
    decreases freqs.len(),
{
    if freqs.len() == 0 {
        0
    } else if freqs.last() > max_mhz(freqs.drop_last()) {
        freqs.last()
    } else {
        max_mhz(freqs.drop_last())
    }
}

/// The fastest core clock among the per-core readings.
pub fn peak_core_mhz(freqs: &Vec<u64>) -> (m: u64)
    ensures
        m == max_mhz(freqs@),
        forall|i: int| 0 <= i < freqs@.len() ==> freqs@[i] <= m,
{
    let mut m: u64 = 0;
    let mut i: usize = 0;
    while i < freqs.len()
        invariant
            i <= freqs@.len(),
            m == max_mhz(freqs@.take(i as int)),
            forall|j: int| 0 <= j < i ==> freqs@[j] <= m,
        decreases freqs.len() - i,
    {
        assert(freqs@.take(i + 1).drop_last() == freqs@.take(i as int));
        if freqs[i] > m {
            m = freqs[i];
        }
        i += 1;
    }
    assert(freqs@.take(freqs@.len() as int) == freqs@);
    m
}

/// Processor summary line: physical cores when known, logical threads, and the
/// given clock suffix.
pub open spec fn cores_spec_text(physical: nat, logical: nat, clock_suffix: Seq<char>) -> Seq<char> {
    if physical > 0 {
        decimal(physical) + " Physical Cores \u{2022} "@ + decimal(logical) + " Logical Threads"@
            + clock_suffix
    } else {
        decimal(logical) + " Logical Threads"@ + clock_suffix
    }
}

/// The inspector's processor summary line.
pub fn cores_spec_line(physical: usize, logical: usize, clock_suffix: &str) -> (s: String)
    ensures
        s@ == cores_spec_text(physical as nat, logical as nat, clock_suffix@),
{
    let mut s = String::new();
    if physical > 0 {
        push_decimal(&mut s, physical as u128);
        s.append(" Physical Cores \u{2022} ");
    }
    push_decimal(&mut s, logical as u128);
    s.append(" Logical Threads");
    s.append(clock_suffix);
    s
}

/// Title of the inspector's processor grid.
pub open spec fn threads_title_text(logical: nat) -> Seq<char> {
    "LOGICAL PROCESSORS ("@ + decimal(logical) + " THREADS)"@
}

/// The title of the inspector's processor grid.
pub fn threads_title(logical: usize) -> (s: String)
    ensures
        s@ == threads_title_text(logical as nat),
{
    let mut s = String::from_str("LOGICAL PROCESSORS (");
    push_decimal(&mut s, logical as u128);
    s.append(" THREADS)");
    s
}

} // verus!
