//! One sample of the machine.
//!
//! A [`Config`] is built anew on every tick from what the metrics provider
//! has just reported, handed to the widgets once, and dropped. It owns every
//! string in it, and once built it cannot be changed.
//!
//! Querying the provider is left to the caller: it reads the machine, and
//! hands the readings to [`Config::new`] as plain values.

use crate::memory::Megabytes;
use crate::usage::CpuUsage;
use vstd::prelude::*;

verus! {

/// What the provider knows of one logical CPU at the time of the sample.
#[derive(Clone, Debug, PartialEq, Eq)]
pub struct CPUInfo {
    pub name: String,
    pub brand: String,
    /// The clock in MHz.
    pub frequency: u64,
}

/// A [`CPUInfo`] as a mathematical value.
pub struct CpuRecord {
    pub name: Seq<char>,
    pub brand: Seq<char>,
    pub frequency: nat,
}

impl View for CPUInfo {
    type V = CpuRecord;

    open spec fn view(&self) -> CpuRecord {
        CpuRecord { name: self.name@, brand: self.brand@, frequency: self.frequency as nat }
    }
}

/// The records of a list of CPUs, in the same order.
pub open spec fn records_of(cpus: Seq<CPUInfo>) -> Seq<CpuRecord> {
    cpus.map_values(|cpu: CPUInfo| cpu@)
}

/// A [`Config`] as a mathematical value. Memory amounts are in bytes, that is
/// in megabytes times 2^20; the CPU usage is the bit pattern of the number.
pub struct Snapshot {
    pub cpu_usage: u32,
    pub available_memory: nat,
    pub total_memory: nat,
    pub used_memory: nat,
    pub cores: nat,
    pub cpus: Seq<CpuRecord>,
}

/// Why no sample could be taken.
#[derive(Clone, Copy, Debug, PartialEq, Eq, Structural)]
pub enum SampleError {
    /// The provider cannot tell the number of physical cores.
    NoCoreCount,
}

/// One sample: the global CPU usage, the memory amounts in megabytes, the
/// number of physical cores and the logical CPUs in the provider's order.
#[derive(Debug)]
pub struct Config {
    cpu_usage: CpuUsage,
    available_memory: Megabytes,
    total_memory: Megabytes,
    used_memory: Megabytes,
    cores: usize,
    cpus: Vec<CPUInfo>,
}

impl View for Config {
    type V = Snapshot;

    closed spec fn view(&self) -> Snapshot {
        Snapshot {
            cpu_usage: self.cpu_usage.bits_spec(),
            available_memory: self.available_memory.bytes_spec(),
            total_memory: self.total_memory.bytes_spec(),
            used_memory: self.used_memory.bytes_spec(),
            cores: self.cores as nat,
            cpus: records_of(self.cpus@),
        }
    }
}

/// The sample that the given readings make, or the reason why they make none:
/// there is no sample without a core count.
pub open spec fn assembled(
    usage_bits: u32,
    available_bytes: u64,
    used_bytes: u64,
    total_bytes: u64,
    cores: Option<usize>,
    cpus: Seq<CpuRecord>,
) -> Result<Snapshot, SampleError> {
    match cores {
        Some(n) => Ok(
            Snapshot {
                cpu_usage: usage_bits,
                available_memory: available_bytes as nat,
                total_memory: total_bytes as nat,
                used_memory: used_bytes as nat,
                cores: n as nat,
                cpus,
            },
        ),
        None => Err(SampleError::NoCoreCount),
    }
}

/// The result of [`Config::new`] as a mathematical value.
pub open spec fn outcome_of(result: Result<Config, SampleError>) -> Result<Snapshot, SampleError> {
    match result {
        Ok(config) => Ok(config@),
        Err(e) => Err(e),
    }
}

impl Config {
    /// Builds a sample from what the provider reported: the bit pattern of
    /// the global CPU usage, the memory amounts in bytes, the number of
    /// physical cores if it is known, and the logical CPUs.
    ///
    /// The memory amounts are converted to megabytes of 2^20 bytes, without
    /// loss. Without a core count there is no sample.
    pub fn new(
        usage_bits: u32,
        available_bytes: u64,
        used_bytes: u64,
        total_bytes: u64,
        cores: Option<usize>,
        cpus: Vec<CPUInfo>,
    ) -> (result: Result<Config, SampleError>)
        ensures
            outcome_of(result) == assembled(
                usage_bits,
                available_bytes,
                used_bytes,
                total_bytes,
                cores,
                records_of(cpus@),
            ),
    {
        match cores {
            Some(n) => Ok(
                Config {
                    cpu_usage: CpuUsage::from_bits(usage_bits),
                    available_memory: Megabytes::from_bytes(available_bytes),
                    total_memory: Megabytes::from_bytes(total_bytes),
                    used_memory: Megabytes::from_bytes(used_bytes),
                    cores: n,
                    cpus,
                },
            ),
            None => Err(SampleError::NoCoreCount),
        }
    }

    /// The global CPU usage, a percentage.
    pub fn cpu_usage(&self) -> (usage: CpuUsage)
        ensures
            usage.bits_spec() == self@.cpu_usage,
    {
        self.cpu_usage
    }

    /// The memory that can be had.
    pub fn available_memory(&self) -> (mb: Megabytes)
        ensures
            mb.bytes_spec() == self@.available_memory,
    {
        self.available_memory
    }

    /// The size of the memory.
    pub fn total_memory(&self) -> (mb: Megabytes)
        ensures
            mb.bytes_spec() == self@.total_memory,
    {
        self.total_memory
    }

    /// The memory in use.
    pub fn used_memory(&self) -> (mb: Megabytes)
        ensures
            mb.bytes_spec() == self@.used_memory,
    {
        self.used_memory
    }

    /// The number of physical cores.
    pub fn cores(&self) -> (n: usize)
        ensures
            n == self@.cores,
    {
        self.cores
    }

    /// The logical CPUs, in the provider's order.
    pub fn cpus(&self) -> (cpus: &Vec<CPUInfo>)
        ensures
            records_of(cpus@) == self@.cpus,
    {
        &self.cpus
    }
}

} // verus!
