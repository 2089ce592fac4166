//! Formatting the two partitions: FAT32 for the EFI partition, Btrfs for the
//! root partition.

use vstd::prelude::*;
use vstd::string::*;
use crate::structs::CreatedPartitions;
use crate::executor::CreatedPartitionsView;
use crate::error::ToolStep;
use crate::tools::{
    format_efi_argv, format_efi_call, format_linux_argv, format_linux_call, task_views, Task,
};

verus! {

/// The tools that format the partitions, in order. A dry run takes none.
pub open spec fn format_partitions_spec(partitions: CreatedPartitionsView, dry_run: bool) -> Seq<
    (ToolStep, Seq<Seq<char>>),
> {
    if dry_run {
        Seq::empty()
    } else {
        seq![
            (ToolStep::FormatEfi, format_efi_argv(partitions.efi_partition)),
            (ToolStep::FormatLinux, format_linux_argv(partitions.linux_partition)),
        ]
    }
}

/// Plans the formatting of the two partitions. The tools are to be run in
/// order, the second only once the first has succeeded.
pub fn format_partitions(partitions: &CreatedPartitions, dry_run: bool) -> (tasks: Vec<Task>)
    ensures
        task_views(tasks@) == format_partitions_spec(partitions@, dry_run),
{
    let mut tasks: Vec<Task> = Vec::new();
    if !dry_run {
        tasks.push(
            Task {
                step: ToolStep::FormatEfi,
                call: format_efi_call(partitions.efi_partition.as_str()),
            },
        );
        tasks.push(
            Task {
                step: ToolStep::FormatLinux,
                call: format_linux_call(partitions.linux_partition.as_str()),
            },
        );
    }
    assert(task_views(tasks@) =~= format_partitions_spec(partitions@, dry_run));
    tasks
}

/// Renders what formatting would do to the two partitions.
pub fn format_intents(partitions: &CreatedPartitions) -> (lines: (String, String))
    ensures
        lines.0@ == "  "@ + partitions.efi_partition@ + " as FAT32 (EFI)"@,
        lines.1@ == "  "@ + partitions.linux_partition@ + " as Btrfs (Linux)"@,
{
    let mut efi = String::from_str("  ");
    efi.append(partitions.efi_partition.as_str());
    efi.append(" as FAT32 (EFI)");
    let mut linux = String::from_str("  ");
    linux.append(partitions.linux_partition.as_str());
    linux.append(" as Btrfs (Linux)");
    (efi, linux)
}

} // verus!
