//! The outside tools of a disk setup, each as the command line that runs it.
//! The library builds the command lines; running them is the caller's part.

use vstd::prelude::*;
use vstd::string::*;
use crate::error::{DiskSetupError, ToolStep};
use crate::text::{append_decimal, decimal};

verus! {

/// One invocation of an outside tool.
#[derive(Debug, Clone, PartialEq, Eq)]
pub struct ToolCall {
    pub program: String,
    pub args: Vec<String>,
}

/// The texts of a list of strings, in order.
pub open spec fn texts(v: Seq<String>) -> Seq<Seq<char>> {
    v.map_values(|s: String| s@)
}

impl ToolCall {
    /// The command line: the program, then its arguments.
    pub open spec fn argv(self) -> Seq<Seq<char>> {
        seq![self.program@] + texts(self.args@)
    }
}

/// The command lines of a list of invocations, in order.
pub open spec fn call_views(calls: Seq<ToolCall>) -> Seq<Seq<Seq<char>>> {
    calls.map_values(|c: ToolCall| c.argv())
}

/// A tool that a step of the setup needs. Its failure fails the step.
#[derive(Debug, Clone, PartialEq, Eq)]
pub struct Task {
    pub step: ToolStep,
    pub call: ToolCall,
}

/// The steps and command lines of a list of tasks, in order.
pub open spec fn task_views(tasks: Seq<Task>) -> Seq<(ToolStep, Seq<Seq<char>>)> {
    tasks.map_values(|t: Task| (t.step, t.call.argv()))
}

/// Builds an invocation from a program and its arguments.
pub fn tool_call(program: &str, args: Vec<&str>) -> (call: ToolCall)
    ensures
        call.argv() == seq![program@] + args@.map_values(|s: &str| s@),
{
    let mut owned: Vec<String> = Vec::new();
    let mut i: usize = 0;
    while i < args.len()
        invariant
            i <= args.len(),
            owned.len() == i,
            forall|j: int| 0 <= j < i ==> (#[trigger] owned[j])@ == args[j]@,
        decreases args.len() - i,
    {
        owned.push(String::from_str(args[i]));
        i += 1;
    }
    assert(texts(owned@) =~= args@.map_values(|s: &str| s@));
    ToolCall { program: String::from_str(program), args: owned }
}

/// What became of one invocation.
#[derive(Debug, Clone, PartialEq, Eq)]
pub struct ToolOutcome {
    /// The process could be started.
    pub launched: bool,
    /// The process ended with success.
    pub success: bool,
    /// What it wrote to standard output.
    pub stdout: String,
    /// What it wrote to standard error.
    pub stderr: String,
}

/// The marker that stands for the output of a tool that a dry run left out.
pub open spec fn dry_run_marker() -> Seq<char> {
    "[dry-run]"@
}

/// The output of a required tool. A tool that did not start or did not
/// succeed fails the step, and the failure carries what the tool wrote to
/// standard error.
pub fn run_out(step: ToolStep, outcome: ToolOutcome) -> (r: Result<String, DiskSetupError>)
    ensures
        outcome.launched && outcome.success ==> r is Ok && r->Ok_0@ == outcome.stdout@,
        !(outcome.launched && outcome.success) ==> r is Err && r->Err_0 == (
        DiskSetupError::ToolFailed { step, stderr: outcome.stderr }),
{
    if outcome.launched && outcome.success {
        Ok(outcome.stdout)
    } else {
        Err(DiskSetupError::ToolFailed { step, stderr: outcome.stderr })
    }
}

/// The output of a tool that a dry run leaves out: without an outcome the
/// result is the dry-run marker, with one it is judged as by `run_out`.
pub fn run_show(step: ToolStep, outcome: Option<ToolOutcome>) -> (r: Result<
    String,
    DiskSetupError,
>)
    ensures
        outcome is None ==> r is Ok && r->Ok_0@ == dry_run_marker(),
        outcome matches Some(o) ==> {
            &&& o.launched && o.success ==> r is Ok && r->Ok_0@ == o.stdout@
            &&& !(o.launched && o.success) ==> r is Err && r->Err_0 == (
            DiskSetupError::ToolFailed { step, stderr: o.stderr })
        },
{
    match outcome {
        None => Ok(String::from_str("[dry-run]")),
        Some(o) => run_out(step, o),
    }
}

/// The command line that lists the block devices.
pub open spec fn list_disks_argv() -> Seq<Seq<char>> {
    seq!["lsblk"@, "-J"@, "-o"@, "NAME,SIZE,TYPE,MODEL"@]
}

/// Lists the block devices as structured data: name, size, type, model.
pub fn list_disks_call() -> (call: ToolCall)
    ensures
        call.argv() == list_disks_argv(),
{
    let call = tool_call("lsblk", vec!["-J", "-o", "NAME,SIZE,TYPE,MODEL"]);
    assert(call.argv() =~= list_disks_argv());
    call
}

/// The command line that prints a disk's partition table.
pub open spec fn probe_table_argv(disk: Seq<char>) -> Seq<Seq<char>> {
    seq!["parted"@, "-s"@, disk, "print"@]
}

/// Prints the partition table of a disk. That the tool succeeds is taken to
/// mean that the disk has a table.
pub fn probe_table_call(disk_path: &str) -> (call: ToolCall)
    ensures
        call.argv() == probe_table_argv(disk_path@),
{
    let call = tool_call("parted", vec!["-s", disk_path, "print"]);
    assert(call.argv() =~= probe_table_argv(disk_path@));
    call
}

/// The command line that writes a new GPT.
pub open spec fn create_table_argv(disk: Seq<char>) -> Seq<Seq<char>> {
    seq!["parted"@, "-s"@, disk, "mklabel"@, "gpt"@]
}

/// Writes a new GPT to a disk.
pub fn create_table_call(disk_path: &str) -> (call: ToolCall)
    ensures
        call.argv() == create_table_argv(disk_path@),
{
    let call = tool_call("parted", vec!["-s", disk_path, "mklabel", "gpt"]);
    assert(call.argv() =~= create_table_argv(disk_path@));
    call
}

/// The command line that reports the free space of a disk in bytes.
pub open spec fn survey_argv(disk: Seq<char>) -> Seq<Seq<char>> {
    seq!["parted"@, "-s"@, "-m"@, disk, "unit"@, "B"@, "print"@, "free"@]
}

/// Reports the partitions and the free space of a disk, one record per
/// line, in bytes.
pub fn survey_call(disk_path: &str) -> (call: ToolCall)
    ensures
        call.argv() == survey_argv(disk_path@),
{
    let call = tool_call("parted", vec!["-s", "-m", disk_path, "unit", "B", "print", "free"]);
    assert(call.argv() =~= survey_argv(disk_path@));
    call
}

/// The command line that asks for a disk's size in bytes.
pub open spec fn disk_size_argv(disk: Seq<char>) -> Seq<Seq<char>> {
    seq!["blockdev"@, "--getsize64"@, disk]
}

/// Asks for the size of a disk in bytes.
pub fn disk_size_call(disk_path: &str) -> (call: ToolCall)
    ensures
        call.argv() == disk_size_argv(disk_path@),
{
    let call = tool_call("blockdev", vec!["--getsize64", disk_path]);
    assert(call.argv() =~= disk_size_argv(disk_path@));
    call
}

/// The size argument of the first partition: from the next free offset,
/// `efi_mb` mebibytes long.
pub open spec fn efi_extent(efi_mb: u64) -> Seq<char> {
    "1:0:+"@ + decimal(efi_mb as nat) + "M"@
}

/// The command line that creates the EFI partition.
pub open spec fn efi_partition_argv(disk: Seq<char>, efi_mb: u64) -> Seq<Seq<char>> {
    seq!["sgdisk"@, "-n"@, efi_extent(efi_mb), "-t"@, "1:ef00"@, disk]
}

/// Creates partition 1 with the given size and the type of an EFI system
/// partition.
pub fn efi_partition_call(disk_path: &str, efi_mb: u64) -> (call: ToolCall)
    ensures
        call.argv() == efi_partition_argv(disk_path@, efi_mb),
{
    let mut extent = String::from_str("1:0:+");
    append_decimal(&mut extent, efi_mb as u128);
    extent.append("M");
    let call = tool_call("sgdisk", vec!["-n", extent.as_str(), "-t", "1:ef00", disk_path]);
    assert(call.argv() =~= efi_partition_argv(disk_path@, efi_mb));
    call
}

/// The command line that creates the root partition.
pub open spec fn linux_partition_argv(disk: Seq<char>) -> Seq<Seq<char>> {
    seq!["sgdisk"@, "-n"@, "2:0:0"@, "-t"@, "2:8300"@, disk]
}

/// Creates partition 2 over all the space that is left, with the type of a
/// Linux filesystem.
pub fn linux_partition_call(disk_path: &str) -> (call: ToolCall)
    ensures
        call.argv() == linux_partition_argv(disk_path@),
{
    let call = tool_call("sgdisk", vec!["-n", "2:0:0", "-t", "2:8300", disk_path]);
    assert(call.argv() =~= linux_partition_argv(disk_path@));
    call
}

/// The command line that makes the kernel read the table again.
pub open spec fn reread_argv(disk: Seq<char>) -> Seq<Seq<char>> {
    seq!["partprobe"@, disk]
}

/// Makes the kernel read the partition table of a disk again.
pub fn reread_call(disk_path: &str) -> (call: ToolCall)
    ensures
        call.argv() == reread_argv(disk_path@),
{
    let call = tool_call("partprobe", vec![disk_path]);
    assert(call.argv() =~= reread_argv(disk_path@));
    call
}

/// The command line that waits for the device manager.
pub open spec fn settle_argv() -> Seq<Seq<char>> {
    seq!["udevadm"@, "settle"@]
}

/// Waits until the device manager has handled its events.
pub fn settle_call() -> (call: ToolCall)
    ensures
        call.argv() == settle_argv(),
{
    let call = tool_call("udevadm", vec!["settle"]);
    assert(call.argv() =~= settle_argv());
    call
}

/// The command line that formats the EFI partition.
pub open spec fn format_efi_argv(partition: Seq<char>) -> Seq<Seq<char>> {
    seq!["mkfs.fat"@, "-F"@, "32"@, "-n"@, "EFI"@, partition]
}

/// Formats a partition as FAT32 with the label `EFI`.
pub fn format_efi_call(partition: &str) -> (call: ToolCall)
    ensures
        call.argv() == format_efi_argv(partition@),
{
    let call = tool_call("mkfs.fat", vec!["-F", "32", "-n", "EFI", partition]);
    assert(call.argv() =~= format_efi_argv(partition@));
    call
}

/// The command line that formats the root partition.
pub open spec fn format_linux_argv(partition: Seq<char>) -> Seq<Seq<char>> {
    seq!["mkfs.btrfs"@, "-f"@, "-L"@, "ROOT"@, partition]
}

/// Formats a partition as Btrfs with the label `ROOT`.
pub fn format_linux_call(partition: &str) -> (call: ToolCall)
    ensures
        call.argv() == format_linux_argv(partition@),
{
    let call = tool_call("mkfs.btrfs", vec!["-f", "-L", "ROOT", partition]);
    assert(call.argv() =~= format_linux_argv(partition@));
    call
}

} // verus!
