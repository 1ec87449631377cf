use vstd::prelude::*;
use crate::numfmt::{decimal, push_decimal, push_rounded_fixed, rounded_fixed, u64_as_f64, u64_to_f64_value};
use crate::text::string_push;

verus! {

/// Transfer rates in bytes per second.
#[derive(Debug, Clone, Copy)]
pub struct NetworkData {
    pub download_speed: u64,
    pub upload_speed: u64,
}

impl Default for NetworkData {
    fn default() -> (d: Self)
        ensures
            d.download_speed == 0,
            d.upload_speed == 0,
    {
        NetworkData { download_speed: 0, upload_speed: 0 }
    }
}

/// Bytes in a GiB.
pub open spec fn gib() -> nat {
    0x4000_0000
}

/// Bytes in a MiB.
pub open spec fn mib() -> nat {
    0x10_0000
}

/// Human readable transfer rate: GB/s and MB/s with one decimal, KB/s with none,
/// plain bytes below 1 KiB (binary units, values as an `f64` division gives them).
pub open spec fn speed_text(b: nat) -> Seq<char> {
    if b >= gib() {
        rounded_fixed(u64_as_f64(b), gib(), 1) + seq![' ', 'G', 'B', '/', 's']
    } else if b >= mib() {
        rounded_fixed(b, mib(), 1) + seq![' ', 'M', 'B', '/', 's']
    } else if b >= 1024 {
        rounded_fixed(b, 1024, 0) + seq![' ', 'K', 'B', '/', 's']
    } else {
        decimal(b) + seq![' ', 'B', '/', 's']
    }
}

/// Appends `speed_text(bytes_per_sec)`.
pub fn push_speed(out: &mut String, bytes_per_sec: u64)
    ensures
        final(out)@ == old(out)@ + speed_text(bytes_per_sec as nat),
{
    let b = bytes_per_sec;
    let ghost start = out@;
    if b >= 0x4000_0000 {
        let v = u64_to_f64_value(b);
        push_rounded_fixed(out, v, 0x4000_0000, 1);
        string_push(out, ' ');
        string_push(out, 'G');
    } else if b >= 0x10_0000 {
        push_rounded_fixed(out, b as u128, 0x10_0000, 1);
        string_push(out, ' ');
        string_push(out, 'M');
    } else if b >= 1024 {
        push_rounded_fixed(out, b as u128, 1024, 0);
        string_push(out, ' ');
        string_push(out, 'K');
    } else {
        push_decimal(out, b as u128);
        string_push(out, ' ');
    }
    string_push(out, 'B');
    string_push(out, '/');
    string_push(out, 's');
    assert(out@ == start + speed_text(b as nat));
}

/// Formats a byte rate into a human readable string such as "2.4 MB/s".
pub fn format_speed(bytes_per_sec: u64) -> (s: String)
    ensures
        s@ == speed_text(bytes_per_sec as nat),
{
    let mut s = String::new();
    push_speed(&mut s, bytes_per_sec);
    assert(s@ == Seq::<char>::empty() + speed_text(bytes_per_sec as nat));
    s
}

} // verus!
