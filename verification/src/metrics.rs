use vstd::prelude::*;

verus! {

/// A metrics snapshot as the text builders read it. Readings the monitors take as
/// floating point (usage percentages, temperatures) are held as the whole numbers
/// that `{:.0}` prints for them; byte counts and rates are exact.
#[derive(Debug, Clone, Copy)]
pub struct DisplayMetrics {
    pub cpu_usage: Option<i64>,
    pub cpu_temperature: Option<i64>,
    pub gpu_usage: Option<i64>,
    pub gpu_temperature: Option<i64>,
    pub gpu_memory_used: Option<u64>,
    pub gpu_memory_total: Option<u64>,
    pub ram_used: u64,
    pub ram_total: u64,
    pub ram_usage: i64,
    pub download_speed: u64,
    pub upload_speed: u64,
    pub disk_used: u64,
    pub disk_total: u64,
    pub disk_usage: i64,
}

impl Default for DisplayMetrics {
    /// The snapshot shown before the first sample: nothing known, all counts zero.
    fn default() -> (m: Self)
        ensures
            m.cpu_usage is None,
            m.cpu_temperature is None,
            m.gpu_usage is None,
            m.gpu_temperature is None,
            m.gpu_memory_used is None,
            m.gpu_memory_total is None,
            m.ram_used == 0,
            m.ram_total == 0,
            m.ram_usage == 0,
            m.download_speed == 0,
            m.upload_speed == 0,
            m.disk_used == 0,
            m.disk_total == 0,
            m.disk_usage == 0,
    {
        DisplayMetrics {
            cpu_usage: None,
            cpu_temperature: None,
            gpu_usage: None,
            gpu_temperature: None,
            gpu_memory_used: None,
            gpu_memory_total: None,
            ram_used: 0,
            ram_total: 0,
            ram_usage: 0,
            download_speed: 0,
            upload_speed: 0,
            disk_used: 0,
            disk_total: 0,
            disk_usage: 0,
        }
    }
}

} // verus!
