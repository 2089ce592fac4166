//! The records that pass between the stages of a disk setup.

use vstd::prelude::*;

verus! {

/// One block-device record as the device listing reports it.
#[derive(Debug, Clone, PartialEq, Eq)]
pub struct LsblkNode {
    pub name: String,
    pub size: String,
    pub dev_type: String,
    pub model: Option<String>,
}

/// A physical disk offered for selection.
#[derive(Debug, Clone, PartialEq, Eq)]
pub struct Disk {
    pub name: String,
    pub path: String,
    pub size: String,
    pub model: String,
}

/// A contiguous unallocated span of a disk.
#[derive(Debug, Clone, PartialEq, Eq)]
pub struct FreeRegion {
    pub start: String,
    pub end: String,
    pub size: String,
    pub size_bytes: u64,
}

/// The sizes chosen for the two partitions, in whole megabytes.
#[derive(Debug, Clone, Copy, PartialEq, Eq)]
pub struct PartitionPlan {
    pub efi_size_mb: u64,
    pub linux_size_mb: u64,
}

/// The device paths of the two partitions.
#[derive(Debug, Clone, PartialEq, Eq)]
pub struct CreatedPartitions {
    pub efi_partition: String,
    pub linux_partition: String,
}

/// The options of the disk-setup command.
#[derive(Debug, Clone, Copy, PartialEq, Eq)]
pub struct DiskSetupArgs {
    pub dry_run: bool,
}

/// The commands of the tool.
#[derive(Debug, Clone, Copy, PartialEq, Eq)]
pub enum Commands {
    DiskSetup(DiskSetupArgs),
}

/// A parsed command line.
#[derive(Debug, Clone, Copy, PartialEq, Eq)]
pub struct Cli {
    pub command: Commands,
}

} // verus!
