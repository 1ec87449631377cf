use vstd::prelude::*;
use crate::text::{chars_to_string, contains, contains_chars, str_to_chars, trim, trim_chars};

verus! {

/// The CPU model name to show for the first CPU's brand string: the brand without
/// surrounding white space, or "Unknown CPU" when there is no CPU or the brand is blank.
pub open spec fn cpu_model_name(first_brand: Option<Seq<char>>) -> Seq<char> {
    match first_brand {
        Some(b) => if trim(b).len() > 0 {
            trim(b)
        } else {
            "Unknown CPU"@
        },
        None => "Unknown CPU"@,
    }
}

/// Derives CPU data from the system's CPU list, caching the model name, which
/// does not change while the program runs.
pub struct CpuMonitor {
    model_cached: Option<String>,
}

impl CpuMonitor {
    /// The cached model name, if one was determined already.
    pub closed spec fn cached_model(&self) -> Option<Seq<char>> {
        match self.model_cached {
            Some(s) => Some(s@),
            None => None,
        }
    }

    pub fn new() -> (m: Self)
        ensures
            m.cached_model() is None,
    {
        CpuMonitor { model_cached: None }
    }

    /// The CPU model name: the cached one if known, else derived from the first
    /// CPU's brand string and cached.
    pub fn model(&mut self, first_brand: Option<&str>) -> (name: String)
        ensures
            old(self).cached_model() is Some ==> name@ == old(self).cached_model()->0
                && final(self).cached_model() == old(self).cached_model(),
            old(self).cached_model() is None ==> name@ == cpu_model_name(
                match first_brand {
                    Some(b) => Some(b@),
                    None => None,
                },
            ) && final(self).cached_model() == Some(name@),
    {
        match &self.model_cached {
            Some(m) => {
                return m.clone();
            },
            None => {},
        }
        let brand = match first_brand {
            Some(b) => {
                let t = trim_chars(&str_to_chars(b));
                if t.len() > 0 {
                    chars_to_string(&t)
                } else {
                    String::from_str("Unknown CPU")
                }
            },
            None => String::from_str("Unknown CPU"),
        };
        self.model_cached = Some(brand.clone());
        brand
    }
}

/// Derives memory figures from the system's memory counters.
pub struct MemoryMonitor;

impl MemoryMonitor {
    pub fn new() -> Self {
        MemoryMonitor
    }
}

/// One GPU reading. Usage (percent) and temperature (Celsius) are whole numbers as
/// the driver reports them; `None` where the provider could not read a value.
#[derive(Debug)]
pub struct GpuData {
    pub name: String,
    pub usage: Option<u32>,
    pub temperature: Option<u32>,
    pub memory_used: Option<u64>,
    pub memory_total: Option<u64>,
}

/// A source of GPU readings.
pub trait GpuProvider {
    fn sample(&mut self) -> Option<GpuData>;
}

/// Fallback provider for GPUs without a vendor library: reports the name only.
pub struct GenericGpuProvider {
    name: String,
    vram_bytes: Option<u64>,
}

impl GenericGpuProvider {
    pub closed spec fn name_view(&self) -> Seq<char> {
        self.name@
    }

    pub closed spec fn vram(&self) -> Option<u64> {
        self.vram_bytes
    }

    /// Always available.
    pub fn try_new() -> (p: Option<Self>)
        ensures
            p is Some,
            p->0.name_view() == "Generic / Integrated GPU"@,
            p->0.vram() is None,
    {
        Some(GenericGpuProvider { name: String::from_str("Generic / Integrated GPU"), vram_bytes: None })
    }
}

impl GpuProvider for GenericGpuProvider {
    fn sample(&mut self) -> (d: Option<GpuData>)
        ensures
            d is Some,
            d->0.name@ == old(self).name_view(),
            d->0.usage is None,
            d->0.temperature is None,
            d->0.memory_used is None,
            d->0.memory_total == old(self).vram(),
            final(self).name_view() == old(self).name_view(),
            final(self).vram() == old(self).vram(),
    {
        Some(
            GpuData {
                name: self.name.clone(),
                usage: None,
                temperature: None,
                memory_used: None,
                memory_total: self.vram_bytes,
            },
        )
    }
}

/// NVML's status code for success.
pub open spec fn nvml_success() -> u32 {
    0
}

/// A GPU reading from NVML query results: each figure is taken only when its query
/// returned success.
pub fn nvml_reading(
    name: &String,
    util_status: u32,
    util_gpu: u32,
    temp_status: u32,
    temp_celsius: u32,
    mem_status: u32,
    mem_used: u64,
    mem_total: u64,
) -> (d: GpuData)
    ensures
        d.name@ == name@,
        d.usage == if util_status == nvml_success() { Some(util_gpu) } else { None },
        d.temperature == if temp_status == nvml_success() { Some(temp_celsius) } else { None },
        d.memory_used == if mem_status == nvml_success() { Some(mem_used) } else { None },
        d.memory_total == if mem_status == nvml_success() { Some(mem_total) } else { None },
{
    GpuData {
        name: name.clone(),
        usage: if util_status == 0 { Some(util_gpu) } else { None },
        temperature: if temp_status == 0 { Some(temp_celsius) } else { None },
        memory_used: if mem_status == 0 { Some(mem_used) } else { None },
        memory_total: if mem_status == 0 { Some(mem_total) } else { None },
    }
}

/// Index of the first zero byte of `b`, or its length when it holds none.
pub open spec fn nul_position(b: Seq<u8>) -> nat
    decreases b.len(),
{
    if b.len() == 0 {
        0
    } else if b[0] == 0 {
        0
    } else {
        1 + nul_position(b.drop_first())
    }
}

/// What `String::from_utf8_lossy` makes of `bytes`.
pub uninterp spec fn utf8_lossy(bytes: Seq<u8>) -> Seq<char>;

/// `String::from_utf8_lossy`: `bytes` decoded as UTF-8, invalid sequences replaced by U+FFFD.
#[verifier::external_body]
fn decode_utf8_lossy(bytes: &[u8]) -> (s: String)
    ensures
        s@ == utf8_lossy(bytes@),
{
    String::from_utf8_lossy(bytes).into_owned()
}

/// The GPU name NVML wrote into a fixed buffer: the text before the first NUL,
/// decoded and trimmed; "NVIDIA GPU" when the query failed.
pub open spec fn nvml_device_name_text(status: u32, buf: Seq<u8>) -> Seq<char> {
    if status == nvml_success() {
        trim(utf8_lossy(buf.take(nul_position(buf) as int)))
    } else {
        "NVIDIA GPU"@
    }
}

/// The device name from NVML's name query.
pub fn nvml_device_name(status: u32, buf: &[u8]) -> (name: String)
    ensures
        name@ == nvml_device_name_text(status, buf@),
{
    if status != 0 {
        return String::from_str("NVIDIA GPU");
    }
    let n = buf.len();
    let mut len: usize = 0;
    assert(buf@.skip(0) == buf@);
    while len < n && buf[len] != 0
        invariant
            n == buf@.len(),
            len <= n,
            nul_position(buf@) == len + nul_position(buf@.skip(len as int)),
        decreases n - len,
    {
        assert(buf@.skip(len as int).drop_first() == buf@.skip(len + 1));
        len += 1;
    }
    assert(nul_position(buf@.skip(len as int)) == 0);
    let mut prefix: Vec<u8> = Vec::new();
    let mut i: usize = 0;
    while i < len
        invariant
            len <= n == buf@.len(),
            i <= len,
            prefix@ == buf@.take(i as int),
        decreases len - i,
    {
        prefix.push(buf[i]);
        i += 1;
    }
    let decoded = decode_utf8_lossy(prefix.as_slice());
    let t = trim_chars(&str_to_chars(decoded.as_str()));
    chars_to_string(&t)
}

/// What `str::to_lowercase` makes of `s`.
pub uninterp spec fn lowercase(s: Seq<char>) -> Seq<char>;

/// `str::to_lowercase`: `s` with every character mapped to its Unicode lowercase.
#[verifier::external_body]
fn to_lowercase(s: &str) -> (l: String)
    ensures
        l@ == lowercase(s@),
{
    s.to_lowercase()
}

/// Whether a temperature sensor's label names a CPU sensor: its lowercase form
/// contains "cpu", "core", "package" or "thermal".
pub open spec fn is_cpu_sensor_label_text(label: Seq<char>) -> bool {
    let l = lowercase(label);
    contains(l, "cpu"@) || contains(l, "core"@) || contains(l, "package"@) || contains(l, "thermal"@)
}

/// Whether a temperature sensor's label names a CPU sensor.
pub fn is_cpu_sensor_label(label: &str) -> (b: bool)
    ensures
        b == is_cpu_sensor_label_text(label@),
{
    let lower = to_lowercase(label);
    let l = str_to_chars(lower.as_str());
    contains_chars(&l, &str_to_chars("cpu")) || contains_chars(&l, &str_to_chars("core"))
        || contains_chars(&l, &str_to_chars("package")) || contains_chars(&l, &str_to_chars("thermal"))
}

/// Whether a process is listed among the top processes: all but the idle pseudo
/// process, "System" and unnamed ones.
pub open spec fn is_listed_process_name(name: Seq<char>) -> bool {
    name != "System Idle Process"@ && name != "System"@ && name.len() != 0
}

/// Whether a process is listed among the top processes.
pub fn is_listed_process(name: &str) -> (b: bool)
    ensures
        b == is_listed_process_name(name@),
{
    let n = String::from_str(name);
    let idle = String::from_str("System Idle Process");
    let system = String::from_str("System");
    n != idle && n != system && str_to_chars(name).len() != 0
}

/// Whether position `i` comes before position `j` when processes are ordered by
/// load (`keys`, higher first), equal loads keeping their original order.
pub open spec fn ranks_before(keys: Seq<u32>, i: int, j: int) -> bool {
    keys[i] > keys[j] || (keys[i] == keys[j] && i < j)
}

/// `r` lists, in order, the first `count` of the positions `0..n` of `keys` ordered
/// by `ranks_before` (all of them when there are fewer): the listed positions come
/// in that order, and every position left out comes after all listed ones.
pub open spec fn is_top_of(keys: Seq<u32>, count: nat, n: int, r: Seq<usize>) -> bool {
    &&& r.len() == if count < n { count as int } else { n }
    &&& forall|a: int| 0 <= a < r.len() ==> r[a] < n
    &&& forall|a: int, b: int|
        0 <= a < b < r.len() ==> ranks_before(keys, #[trigger] r[a] as int, #[trigger] r[b] as int)
    &&& forall|k: usize, a: int|
        k < n && !#[trigger] r.contains(k) && 0 <= a < r.len() ==> ranks_before(
            keys,
            #[trigger] r[a] as int,
            k as int,
        )
    &&& r.len() < count ==> forall|k: usize| k < n ==> #[trigger] r.contains(k)
}

/// `r` lists the `count` highest-load positions of `keys`, highest first, equal
/// loads in their original order (a stable sort by load, cut to `count`).
pub open spec fn is_top(keys: Seq<u32>, count: nat, r: Seq<usize>) -> bool {
    is_top_of(keys, count, keys.len() as int, r)
}

proof fn lemma_top_step(keys: Seq<u32>, count: nat, j: int, r: Seq<usize>, pos: int)
    requires
        0 <= j < keys.len(),
        j < usize::MAX,
        is_top_of(keys, count, j, r),
        0 <= pos <= r.len(),
        forall|a: int| 0 <= a < pos ==> keys[#[trigger] r[a] as int] >= keys[j],
        pos < r.len() ==> keys[r[pos] as int] < keys[j],
    ensures
        pos < count && r.len() < count ==> is_top_of(keys, count, j + 1, r.insert(pos, j as usize)),
        pos < count && r.len() >= count ==> is_top_of(
            keys,
            count,
            j + 1,
            r.insert(pos, j as usize).subrange(0, count as int),
        ),
        pos >= count ==> is_top_of(keys, count, j + 1, r),
{
    let ju = j as usize;
    let ins = r.insert(pos, ju);
    r.insert_ensures(pos, ju);
    // every listed position before `pos` ranks before `j`, `j` before every one after
    assert forall|a: int| 0 <= a < pos implies ranks_before(keys, #[trigger] r[a] as int, j) by {
        assert(keys[r[a] as int] >= keys[j]);
    }
    assert forall|a: int| pos <= a < r.len() implies ranks_before(keys, j, #[trigger] r[a] as int) by {
        if a > pos {
            assert(ranks_before(keys, r[pos] as int, r[a] as int));
        }
    }
    if pos < count {
        assert forall|a: int, b: int| 0 <= a < b < ins.len() implies ranks_before(
            keys,
            #[trigger] ins[a] as int,
            #[trigger] ins[b] as int,
        ) by {
            if b < pos {
                assert(ins[a] == r[a] && ins[b] == r[b]);
            } else if b == pos {
                assert(ins[a] == r[a]);
            } else if a < pos {
                assert(ins[a] == r[a] && ins[b] == r[b - 1]);
                assert(ranks_before(keys, r[a] as int, j));
                assert(ranks_before(keys, j, r[b - 1] as int));
            } else if a == pos {
                assert(ins[b] == r[b - 1]);
            } else {
                assert(ins[a] == r[a - 1] && ins[b] == r[b - 1]);
            }
        }
        assert forall|a: int| 0 <= a < ins.len() implies #[trigger] ins[a] < j + 1 by {
            if a < pos {
                assert(ins[a] == r[a]);
            } else if a > pos {
                assert(ins[a] == r[a - 1]);
            }
        }
        // every listed position stays listed
        assert forall|k: usize| k < j && #[trigger] r.contains(k) implies ins.contains(k) by {
            let a = choose|a: int| 0 <= a < r.len() && r[a] == k;
            if a < pos {
                assert(ins[a] == r[a]);
            } else {
                assert(ins[a + 1] == r[a]);
            }
        }
        assert(ins[pos] == ju);
        if r.len() < count {
            assert forall|k: usize| k < j + 1 implies #[trigger] ins.contains(k) by {
                if k < j {
                    assert(r.contains(k));
                    assert(ins.contains(k));
                } else {
                    assert(ins[pos] == k);
                }
            }
            assert forall|k: usize, a: int|
                k < j + 1 && !#[trigger] ins.contains(k) && 0 <= a < ins.len() implies ranks_before(
                keys,
                #[trigger] ins[a] as int,
                k as int,
            ) by {
                assert(ins.contains(k));
            }
        } else {
            let top = ins.subrange(0, count as int);
            let last = r[r.len() - 1];
            assert(ins[count as int] == last);
            assert forall|a: int, b: int| 0 <= a < b < top.len() implies ranks_before(
                keys,
                #[trigger] top[a] as int,
                #[trigger] top[b] as int,
            ) by {
                assert(top[a] == ins[a] && top[b] == ins[b]);
                assert(ranks_before(keys, ins[a] as int, ins[b] as int));
            }
            assert forall|a: int| 0 <= a < top.len() implies #[trigger] top[a] < j + 1 by {
                assert(top[a] == ins[a]);
            }
            assert forall|k: usize, a: int|
                k < j + 1 && !#[trigger] top.contains(k) && 0 <= a < top.len() implies ranks_before(
                keys,
                #[trigger] top[a] as int,
                k as int,
            ) by {
                assert(top[a] == ins[a]);
                assert(ranks_before(keys, ins[a] as int, ins[count as int] as int));
                if k == last {
                } else {
                    assert(k != j) by {
                        assert(top[pos] == ju);
                    }
                    if r.contains(k) {
                        let c = choose|c: int| 0 <= c < r.len() && r[c] == k;
                        if c < pos {
                            assert(top[c] == k);
                        } else if c + 1 < count {
                            assert(ins[c + 1] == r[c]);
                            assert(top[c + 1] == k);
                        } else {
                            assert(c == r.len() - 1);
                        }
                    } else {
                        assert(ranks_before(keys, last as int, k as int));
                    }
                }
            }
        }
    } else {
        assert forall|k: usize, a: int|
            k < j + 1 && !#[trigger] r.contains(k) && 0 <= a < r.len() implies ranks_before(
            keys,
            #[trigger] r[a] as int,
            k as int,
        ) by {
            if k == j {
                assert(a < pos);
            }
        }
    }
}

/// The positions of the `count` highest loads in `keys`, highest first; equal
/// loads keep their original order (a stable sort by descending load, then cut).
pub fn top_positions(keys: &Vec<u32>, count: usize) -> (r: Vec<usize>)
    ensures
        is_top(keys@, count as nat, r@),
{
    let n = keys.len();
    let mut r: Vec<usize> = Vec::new();
    let mut j: usize = 0;
    while j < n
        invariant
            n == keys@.len(),
            j <= n,
            is_top_of(keys@, count as nat, j as int, r@),
        decreases n - j,
    {
        let mut pos: usize = 0;
        while pos < r.len() && keys[r[pos]] >= keys[j]
            invariant
                n == keys@.len(),
                j < n,
                is_top_of(keys@, count as nat, j as int, r@),
                pos <= r@.len(),
                forall|a: int| 0 <= a < pos ==> keys@[#[trigger] r@[a] as int] >= keys@[j as int],
            decreases r.len() - pos,
        {
            pos += 1;
        }
        proof {
            lemma_top_step(keys@, count as nat, j as int, r@, pos as int);
        }
        if pos < count {
            r.insert(pos, j);
            if r.len() > count {
                r.truncate(count);
            }
        }
        j += 1;
    }
    r
}

/// The top list is determined by the loads: two lists that both meet `is_top`
/// are the same.
pub proof fn law_top_unique(keys: Seq<u32>, count: nat, r1: Seq<usize>, r2: Seq<usize>)
    requires
        is_top(keys, count, r1),
        is_top(keys, count, r2),
    ensures
        r1 == r2,
{
    lemma_top_prefix_equal(keys, count, r1, r2, r1.len() as int);
    assert(r1 =~= r2);
}

proof fn lemma_top_prefix_equal(keys: Seq<u32>, count: nat, r1: Seq<usize>, r2: Seq<usize>, m: int)
    requires
        is_top(keys, count, r1),
        is_top(keys, count, r2),
        0 <= m <= r1.len(),
    ensures
        forall|a: int| 0 <= a < m ==> r1[a] == r2[a],
    decreases m,
{
    if m > 0 {
        lemma_top_prefix_equal(keys, count, r1, r2, m - 1);
        let a = m - 1;
        let x = r1[a];
        let y = r2[a];
        if x != y {
            // without loss of generality one of them ranks first; both cases clash
            if ranks_before(keys, x as int, y as int) {
                if r2.contains(x) {
                    let b = choose|b: int| 0 <= b < r2.len() && r2[b] == x;
                    if b < a {
                        assert(r1[b] == x);
                        assert(ranks_before(keys, r1[b] as int, r1[a] as int));
                    } else {
                        assert(ranks_before(keys, r2[a] as int, r2[b] as int));
                    }
                } else {
                    assert(ranks_before(keys, r2[a] as int, x as int));
                }
            } else {
                assert(ranks_before(keys, y as int, x as int));
                if r1.contains(y) {
                    let b = choose|b: int| 0 <= b < r1.len() && r1[b] == y;
                    if b < a {
                        assert(r2[b] == y);
                        assert(ranks_before(keys, r2[b] as int, r2[a] as int));
                    } else {
                        assert(ranks_before(keys, r1[a] as int, r1[b] as int));
                    }
                } else {
                    assert(ranks_before(keys, r1[a] as int, y as int));
                }
            }
        }
    }
}

/// Sum of the first components of `s`.
pub open spec fn sum_first(s: Seq<(u64, u64)>) -> nat
    decreases s.len(),
{
    if s.len() == 0 {
        0
    } else {
        sum_first(s.drop_last()) + s.last().0 as nat
    }
}

/// Sum of the second components of `s`.
pub open spec fn sum_second(s: Seq<(u64, u64)>) -> nat
    decreases s.len(),
{
    if s.len() == 0 {
        0
    } else {
        sum_second(s.drop_last()) + s.last().1 as nat
    }
}

proof fn lemma_prefix_sums_bounded(s: Seq<(u64, u64)>, i: int)
    requires
        0 <= i <= s.len(),
    ensures
        sum_first(s.take(i)) <= sum_first(s),
        sum_second(s.take(i)) <= sum_second(s),
    decreases s.len(),
{
    if i < s.len() {
        assert(s.drop_last().take(i) == s.take(i));
        lemma_prefix_sums_bounded(s.drop_last(), i);
    } else {
        assert(s.take(i) == s);
    }
}

/// Component-wise totals of counter pairs (per network interface: bytes received
/// and sent; per disk: total and available space).
pub fn sum_pairs(items: &Vec<(u64, u64)>) -> (t: (u64, u64))
    requires
        sum_first(items@) <= u64::MAX,
        sum_second(items@) <= u64::MAX,
    ensures
        t.0 == sum_first(items@),
        t.1 == sum_second(items@),
{
    let mut a: u64 = 0;
    let mut b: u64 = 0;
    let mut i: usize = 0;
    while i < items.len()
        invariant
            i <= items@.len(),
            sum_first(items@) <= u64::MAX,
            sum_second(items@) <= u64::MAX,
            a == sum_first(items@.take(i as int)),
            b == sum_second(items@.take(i as int)),
        decreases items.len() - i,
    {
        proof {
            lemma_prefix_sums_bounded(items@, i + 1);
            assert(items@.take(i + 1).drop_last() == items@.take(i as int));
        }
        a = a + items[i].0;
        b = b + items[i].1;
        i += 1;
    }
    assert(items@.take(items@.len() as int) == items@);
    (a, b)
}

/// Disk totals: summed capacity, and used space (capacity minus available, not
/// below zero).
pub fn disk_usage(disks: &Vec<(u64, u64)>) -> (t: (u64, u64))
    requires
        sum_first(disks@) <= u64::MAX,
        sum_second(disks@) <= u64::MAX,
    ensures
        t.0 == sum_first(disks@),
        t.1 == if sum_first(disks@) >= sum_second(disks@) {
            (sum_first(disks@) - sum_second(disks@)) as nat
        } else {
            0
        },
{
    let (total, available) = sum_pairs(disks);
    (total, total.saturating_sub(available))
}

/// Bytes counted between two readings of a cumulative counter: the growth, or 0
/// when the counter went backwards (an interface reset).
pub open spec fn counter_delta(prev: nat, cur: nat) -> nat {
    if cur >= prev {
        (cur - prev) as nat
    } else {
        0
    }
}

/// Cumulative received/sent byte counts seen at the previous sample.
pub struct TrafficCounter {
    pub prev_rx: u64,
    pub prev_tx: u64,
}

impl TrafficCounter {
    pub fn new(rx: u64, tx: u64) -> (c: Self)
        ensures
            c.prev_rx == rx,
            c.prev_tx == tx,
    {
        TrafficCounter { prev_rx: rx, prev_tx: tx }
    }

    /// Bytes received and sent since the previous sample, remembering the new counts.
    pub fn advance(&mut self, rx: u64, tx: u64) -> (d: (u64, u64))
        ensures
            d.0 == counter_delta(old(self).prev_rx as nat, rx as nat),
            d.1 == counter_delta(old(self).prev_tx as nat, tx as nat),
            final(self).prev_rx == rx,
            final(self).prev_tx == tx,
    {
        let d = (rx.saturating_sub(self.prev_rx), tx.saturating_sub(self.prev_tx));
        self.prev_rx = rx;
        self.prev_tx = tx;
        d
    }
}

/// While a counter only grows, the deltas of consecutive samples add up to the
/// growth over the whole span, and a sample that sees no traffic counts nothing.
pub proof fn law_deltas_add_up(a: nat, b: nat, c: nat)
    requires
        a <= b <= c,
    ensures
        counter_delta(a, b) + counter_delta(b, c) == counter_delta(a, c),
        counter_delta(b, b) == 0,
{
}

} // verus!
