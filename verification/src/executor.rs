//! Creating the two partitions and naming their device nodes.

use vstd::prelude::*;
use vstd::string::*;
use crate::structs::{CreatedPartitions, PartitionPlan};
use crate::text::{append_decimal, contains, contains_text, decimal};
use crate::error::ToolStep;
use crate::tools::{
    call_views, efi_partition_argv, efi_partition_call, linux_partition_argv,
    linux_partition_call, reread_argv, reread_call, settle_argv, settle_call, task_views, Task,
    ToolCall,
};

verus! {

/// How long to wait before the kernel is told to read the table again.
pub const SETTLE_PAUSE_MILLIS: u64 = 500;

/// How the partitions of a disk are named.
#[derive(Debug, Clone, Copy, PartialEq, Eq, Structural)]
pub enum NamingScheme {
    /// The number follows the disk's path: `/dev/sda1`.
    Conventional,
    /// A `p` stands between the disk's path and the number: `/dev/nvme0n1p1`.
    NvmeLike,
}

/// The scheme of a disk: NVMe-like where its path holds `nvme` or `mmcblk`.
pub open spec fn naming_scheme_spec(disk: Seq<char>) -> NamingScheme {
    if contains(disk, "nvme"@) || contains(disk, "mmcblk"@) {
        NamingScheme::NvmeLike
    } else {
        NamingScheme::Conventional
    }
}

/// The path of partition `number` of a disk.
pub open spec fn partition_path_spec(disk: Seq<char>, number: nat) -> Seq<char> {
    match naming_scheme_spec(disk) {
        NamingScheme::NvmeLike => disk + seq!['p'] + decimal(number),
        NamingScheme::Conventional => disk + decimal(number),
    }
}

/// The paths of the two partitions.
pub struct CreatedPartitionsView {
    pub efi_partition: Seq<char>,
    pub linux_partition: Seq<char>,
}

impl View for CreatedPartitions {
    type V = CreatedPartitionsView;

    open spec fn view(&self) -> CreatedPartitionsView {
        CreatedPartitionsView {
            efi_partition: self.efi_partition@,
            linux_partition: self.linux_partition@,
        }
    }
}

/// The partitions of a disk: the EFI partition is the first, the root
/// partition the second.
pub open spec fn created_partitions_spec(disk: Seq<char>) -> CreatedPartitionsView {
    CreatedPartitionsView {
        efi_partition: partition_path_spec(disk, 1),
        linux_partition: partition_path_spec(disk, 2),
    }
}

/// Tells how the partitions of a disk are named.
pub fn naming_scheme(disk_path: &str) -> (scheme: NamingScheme)
    ensures
        scheme == naming_scheme_spec(disk_path@),
{
    if contains_text(disk_path, "nvme") || contains_text(disk_path, "mmcblk") {
        NamingScheme::NvmeLike
    } else {
        NamingScheme::Conventional
    }
}

/// Derives the path of partition `number` of a disk.
pub fn partition_path(disk_path: &str, number: u64) -> (path: String)
    ensures
        path@ == partition_path_spec(disk_path@, number as nat),
{
    let mut path = String::from_str(disk_path);
    match naming_scheme(disk_path) {
        NamingScheme::NvmeLike => {
            proof {
                reveal_strlit("p");
            }
            path.append("p");
            assert("p"@ =~= seq!['p']);
        },
        NamingScheme::Conventional => {},
    }
    append_decimal(&mut path, number as u128);
    path
}

/// Derives the paths of the two partitions of a disk.
pub fn partition_paths(disk_path: &str) -> (partitions: CreatedPartitions)
    ensures
        partitions@ == created_partitions_spec(disk_path@),
{
    CreatedPartitions {
        efi_partition: partition_path(disk_path, 1),
        linux_partition: partition_path(disk_path, 2),
    }
}

/// What creating the partitions of a disk takes.
#[derive(Debug, Clone, PartialEq, Eq)]
pub struct PartitionWork {
    /// The tools that create the partitions, in order. Each must succeed
    /// before the next is run; a failure ends the session.
    pub required: Vec<Task>,
    /// The tools that make the system see the new partitions, in order, to
    /// be run after a pause once the required ones have succeeded. Their
    /// failures are ignored.
    pub best_effort: Vec<ToolCall>,
    /// The partitions that exist afterwards.
    pub partitions: CreatedPartitions,
}

/// The command lines and paths of a piece of work.
pub struct PartitionWorkView {
    pub required: Seq<(ToolStep, Seq<Seq<char>>)>,
    pub best_effort: Seq<Seq<Seq<char>>>,
    pub partitions: CreatedPartitionsView,
}

impl View for PartitionWork {
    type V = PartitionWorkView;

    open spec fn view(&self) -> PartitionWorkView {
        PartitionWorkView {
            required: task_views(self.required@),
            best_effort: call_views(self.best_effort@),
            partitions: self.partitions@,
        }
    }
}

/// The work of creating the partitions. A dry run takes no tool at all and
/// names the same partitions.
pub open spec fn create_partitions_spec(
    disk: Seq<char>,
    plan: PartitionPlan,
    dry_run: bool,
) -> PartitionWorkView {
    PartitionWorkView {
        required: if dry_run {
            Seq::empty()
        } else {
            seq![
                (ToolStep::CreateEfiPartition, efi_partition_argv(disk, plan.efi_size_mb)),
                (ToolStep::CreateLinuxPartition, linux_partition_argv(disk)),
            ]
        },
        best_effort: if dry_run {
            Seq::empty()
        } else {
            seq![reread_argv(disk), settle_argv()]
        },
        partitions: created_partitions_spec(disk),
    }
}

/// A dry run names the partitions that a real run creates, and runs no
/// tool.
pub proof fn lemma_dry_run_same_partitions(disk: Seq<char>, plan: PartitionPlan)
    ensures
        create_partitions_spec(disk, plan, true).partitions == create_partitions_spec(
            disk,
            plan,
            false,
        ).partitions,
        create_partitions_spec(disk, plan, true).required.len() == 0,
        create_partitions_spec(disk, plan, true).best_effort.len() == 0,
{
}

/// Plans the creation of the two partitions of a disk: the EFI partition
/// with the planned size, the root partition over all that is left.
pub fn create_partitions(disk_path: &str, plan: &PartitionPlan, dry_run: bool) -> (work:
    PartitionWork)
    ensures
        work@ == create_partitions_spec(disk_path@, *plan, dry_run),
{
    let mut required: Vec<Task> = Vec::new();
    let mut best_effort: Vec<ToolCall> = Vec::new();
    if !dry_run {
        required.push(
            Task {
                step: ToolStep::CreateEfiPartition,
                call: efi_partition_call(disk_path, plan.efi_size_mb),
            },
        );
        required.push(
            Task { step: ToolStep::CreateLinuxPartition, call: linux_partition_call(disk_path) },
        );
        best_effort.push(reread_call(disk_path));
        best_effort.push(settle_call());
    }
    let work = PartitionWork { required, best_effort, partitions: partition_paths(disk_path) };
    assert(work@.required =~= create_partitions_spec(disk_path@, *plan, dry_run).required);
    assert(work@.best_effort =~= create_partitions_spec(disk_path@, *plan, dry_run).best_effort);
    work
}

/// The line that tells where a partition would lie, in mebibytes.
pub open spec fn layout_line_spec(label: Seq<char>, start: nat, size: nat) -> Seq<char> {
    label + decimal(start) + "MiB - "@ + decimal(start + size) + "MiB (size: "@ + decimal(size)
        + "MiB)"@
}

fn layout_line(label: &str, start: u128, size: u64) -> (s: String)
    requires
        start <= u64::MAX + 1,
    ensures
        s@ == layout_line_spec(label@, start as nat, size as nat),
{
    let mut s = String::from_str(label);
    append_decimal(&mut s, start);
    s.append("MiB - ");
    append_decimal(&mut s, start + size as u128);
    s.append("MiB (size: ");
    append_decimal(&mut s, size as u128);
    s.append("MiB)");
    s
}

/// Renders where the two partitions would lie: the EFI partition from the
/// first mebibyte on, the root partition right behind it.
pub fn layout_lines(plan: &PartitionPlan) -> (lines: (String, String))
    ensures
        lines.0@ == layout_line_spec("  EFI partition: "@, 1, plan.efi_size_mb as nat),
        lines.1@ == layout_line_spec(
            "  Linux partition: "@,
            1 + plan.efi_size_mb as nat,
            plan.linux_size_mb as nat,
        ),
{
    (
        layout_line("  EFI partition: ", 1, plan.efi_size_mb),
        layout_line("  Linux partition: ", 1 + plan.efi_size_mb as u128, plan.linux_size_mb),
    )
}

} // verus!
