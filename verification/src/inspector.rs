//! Whether a disk has a partition table, and what to do when it has none.

use vstd::prelude::*;
use crate::error::{DiskSetupError, ToolStep};
use crate::tools::{create_table_argv, create_table_call, ToolCall, ToolOutcome};

verus! {

/// Tells from the outcome of the probe whether the disk has a partition
/// table: it has one exactly when the probe succeeded. A probe that could
/// not be started fails the step.
pub fn check_partition_table(probe: ToolOutcome) -> (r: Result<bool, DiskSetupError>)
    ensures
        probe.launched ==> r == Ok::<bool, DiskSetupError>(probe.success),
        !probe.launched ==> r == Err::<bool, DiskSetupError>(
            DiskSetupError::ToolFailed { step: ToolStep::ProbeTable, stderr: probe.stderr },
        ),
{
    if probe.launched {
        Ok(probe.success)
    } else {
        Err(DiskSetupError::ToolFailed { step: ToolStep::ProbeTable, stderr: probe.stderr })
    }
}

/// Decides on a new partition table for a disk that has none. Without the
/// user's consent the session ends. With it, a dry run does nothing, and a
/// real run writes a new GPT.
pub fn create_partition_table(disk_path: &str, confirmed: bool, dry_run: bool) -> (r: Result<
    Option<ToolCall>,
    DiskSetupError,
>)
    ensures
        !confirmed ==> r == Err::<Option<ToolCall>, DiskSetupError>(DiskSetupError::TableDeclined),
        confirmed && dry_run ==> r == Ok::<Option<ToolCall>, DiskSetupError>(None),
        confirmed && !dry_run ==> r is Ok && r->Ok_0 is Some && r->Ok_0->0.argv()
            == create_table_argv(disk_path@),
{
    if !confirmed {
        Err(DiskSetupError::TableDeclined)
    } else if dry_run {
        Ok(None)
    } else {
        Ok(Some(create_table_call(disk_path)))
    }
}

} // verus!
