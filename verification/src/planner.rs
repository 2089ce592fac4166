//! Deriving the sizes of the two partitions from the free space and the
//! user's answers.

use vstd::prelude::*;
use vstd::string::*;
use crate::error::DiskSetupError;
use crate::structs::{FreeRegion, PartitionPlan};
use crate::text::{
    append_decimal, chars_of, decimal, decimal_string, lemma_parse_decimal, parse_u64_range,
    parse_u64_spec, trim, trim_range,
};
use crate::units::{format_bytes, format_bytes_spec, format_gb, format_gb_spec, MIB};

verus! {

/// What a GPT keeps for itself on a disk without a partition table.
pub const GPT_RESERVED_BYTES: u64 = 34_603_008;

/// The smallest EFI partition that is accepted, in megabytes.
pub const MIN_EFI_MB: u64 = 512;

/// The EFI size that is offered, in megabytes.
pub const DEFAULT_EFI_MB: u64 = 1024;

/// The bytes of all the regions together.
pub open spec fn sum_bytes(regions: Seq<FreeRegion>) -> nat
    decreases regions.len(),
{
    if regions.len() == 0 {
        0
    } else {
        sum_bytes(regions.drop_last()) + regions.last().size_bytes as nat
    }
}

/// Where the free capacity of a disk comes from.
#[derive(Debug, Clone, Copy, PartialEq, Eq)]
pub enum Capacity {
    /// The free regions hold this many bytes together.
    Bytes(u128),
    /// There is no free region: the capacity follows from the disk's size.
    NeedsDiskSize,
}

/// Adds up the free regions of a disk. With no region at all the capacity
/// has to come from the size of the whole disk.
pub fn surveyed_capacity(regions: &Vec<FreeRegion>) -> (c: Capacity)
    ensures
        regions.len() == 0 ==> c == Capacity::NeedsDiskSize,
        regions.len() > 0 ==> c == Capacity::Bytes(sum_bytes(regions@) as u128),
        sum_bytes(regions@) <= u128::MAX,
{
    let mut total: u128 = 0;
    let mut i: usize = 0;
    assert(regions@.take(0) =~= Seq::<FreeRegion>::empty());
    while i < regions.len()
        invariant
            i <= regions.len(),
            total as nat == sum_bytes(regions@.take(i as int)),
            total <= i * 0xffff_ffff_ffff_ffff,
        decreases regions.len() - i,
    {
        assert(regions@.take(i + 1).drop_last() =~= regions@.take(i as int));
        total = total + regions[i].size_bytes as u128;
        i += 1;
    }
    assert(regions@.take(i as int) =~= regions@);
    if regions.len() == 0 {
        Capacity::NeedsDiskSize
    } else {
        Capacity::Bytes(total)
    }
}

/// The usable bytes of a disk that reports no free region: its size less
/// what the partition table reserves. A disk no larger than that is too
/// small.
pub fn fallback_capacity(disk_size: u64) -> (r: Result<u64, DiskSetupError>)
    ensures
        disk_size <= GPT_RESERVED_BYTES ==> r == Err::<u64, DiskSetupError>(
            DiskSetupError::DiskTooSmall,
        ),
        disk_size > GPT_RESERVED_BYTES ==> r == Ok::<u64, DiskSetupError>(
            (disk_size - GPT_RESERVED_BYTES) as u64,
        ),
{
    if disk_size <= GPT_RESERVED_BYTES {
        Err(DiskSetupError::DiskTooSmall)
    } else {
        Ok(disk_size - GPT_RESERVED_BYTES)
    }
}

/// Renders what is known of a disk without free regions: its size, and
/// what of it can be used where it is more than the reserve.
pub fn capacity_lines(disk_size: u64) -> (lines: (String, Option<String>))
    ensures
        lines.0@ == "Total disk size: "@ + format_bytes_spec(disk_size),
        disk_size <= GPT_RESERVED_BYTES ==> lines.1 is None,
        disk_size > GPT_RESERVED_BYTES ==> lines.1 is Some && lines.1->0@ == "Usable space: ~"@
            + format_bytes_spec((disk_size - GPT_RESERVED_BYTES) as u64),
{
    let mut total = String::from_str("Total disk size: ");
    total.append(format_bytes(disk_size).as_str());
    if disk_size > GPT_RESERVED_BYTES {
        let mut usable = String::from_str("Usable space: ~");
        usable.append(format_bytes(disk_size - GPT_RESERVED_BYTES).as_str());
        (total, Some(usable))
    } else {
        (total, None)
    }
}

/// The whole megabytes in a byte count; a part of a megabyte is dropped.
pub fn whole_megabytes(bytes: u128) -> (mb: u128)
    ensures
        mb == bytes / 1_048_576,
{
    bytes / (MIB as u128)
}

/// Whether `efi_mb` can be the EFI size when `total_free_mb` are free.
pub open spec fn efi_bound_spec(efi_mb: u64, total_free_mb: nat) -> Result<u64, DiskSetupError> {
    if efi_mb < MIN_EFI_MB {
        Err(DiskSetupError::EfiTooSmall)
    } else if efi_mb > total_free_mb {
        Err(DiskSetupError::EfiTooLarge)
    } else {
        Ok(efi_mb)
    }
}

/// Whether `linux_mb` can be the root size when `remaining_mb` are left.
pub open spec fn linux_bound_spec(linux_mb: u64, remaining_mb: nat) -> Result<
    u64,
    DiskSetupError,
> {
    if linux_mb == 0 {
        Err(DiskSetupError::LinuxSizeInvalid)
    } else if linux_mb > remaining_mb {
        Err(DiskSetupError::LinuxTooLarge)
    } else {
        Ok(linux_mb)
    }
}

/// The EFI size that an answer gives.
pub open spec fn efi_size_spec(answer: Seq<char>, total_free_mb: nat) -> Result<
    u64,
    DiskSetupError,
> {
    match parse_u64_spec(trim(answer)) {
        Some(n) => efi_bound_spec(n, total_free_mb),
        None => Err(DiskSetupError::EfiSizeInvalid),
    }
}

/// The root size that an answer gives.
pub open spec fn linux_size_spec(answer: Seq<char>, remaining_mb: nat) -> Result<
    u64,
    DiskSetupError,
> {
    match parse_u64_spec(trim(answer)) {
        Some(n) => linux_bound_spec(n, remaining_mb),
        None => Err(DiskSetupError::LinuxSizeInvalid),
    }
}

/// The plan that two answers give. The EFI answer is judged first; the root
/// answer is judged against what the EFI partition leaves.
pub open spec fn plan_spec(
    total_free_mb: nat,
    efi_answer: Seq<char>,
    linux_answer: Seq<char>,
) -> Result<PartitionPlan, DiskSetupError> {
    match efi_size_spec(efi_answer, total_free_mb) {
        Ok(efi) => match linux_size_spec(linux_answer, (total_free_mb - efi) as nat) {
            Ok(linux) => Ok(PartitionPlan { efi_size_mb: efi, linux_size_mb: linux }),
            Err(e) => Err(e),
        },
        Err(e) => Err(e),
    }
}

impl PartitionPlan {
    /// The plan fits `total_free_mb` megabytes of free space.
    pub open spec fn fits(self, total_free_mb: nat) -> bool {
        &&& self.efi_size_mb >= MIN_EFI_MB
        &&& self.linux_size_mb >= 1
        &&& self.efi_size_mb + self.linux_size_mb <= total_free_mb
    }
}

/// A plan that is accepted fits the free space: the EFI partition has its
/// minimum, and the two partitions together take no more than is free.
pub proof fn lemma_plan_fits(total_free_mb: nat, efi_answer: Seq<char>, linux_answer: Seq<char>)
    ensures
        plan_spec(total_free_mb, efi_answer, linux_answer) matches Ok(plan) ==> plan.fits(
            total_free_mb,
        ),
{
}

/// An EFI size is accepted exactly from the minimum up to the free space.
pub proof fn lemma_efi_accepted(efi_mb: u64, total_free_mb: nat)
    ensures
        efi_bound_spec(efi_mb, total_free_mb) is Ok <==> MIN_EFI_MB <= efi_mb <= total_free_mb,
        efi_bound_spec(efi_mb, total_free_mb) is Ok ==> efi_bound_spec(efi_mb, total_free_mb)
            == Ok::<u64, DiskSetupError>(efi_mb),
{
}

/// A root size above what the EFI partition leaves is never accepted.
pub proof fn lemma_linux_rejected_above_remaining(
    linux_mb: u64,
    efi_mb: u64,
    total_free_mb: nat,
)
    requires
        efi_mb <= total_free_mb,
        linux_mb > total_free_mb - efi_mb,
    ensures
        linux_bound_spec(linux_mb, (total_free_mb - efi_mb) as nat) is Err,
{
}

/// The answers that are offered are accepted wherever they can be: 1024
/// megabytes for the EFI partition when that much is free, and for the
/// root partition all that is left, when anything is left.
pub proof fn lemma_defaults_accepted(total_free_mb: nat)
    requires
        DEFAULT_EFI_MB < total_free_mb,
        total_free_mb - DEFAULT_EFI_MB <= u64::MAX,
    ensures
        plan_spec(
            total_free_mb,
            decimal(DEFAULT_EFI_MB as nat),
            decimal((total_free_mb - DEFAULT_EFI_MB) as nat),
        ) == Ok::<PartitionPlan, DiskSetupError>(
            PartitionPlan {
                efi_size_mb: DEFAULT_EFI_MB,
                linux_size_mb: (total_free_mb - DEFAULT_EFI_MB) as u64,
            },
        ),
{
    lemma_parse_decimal(DEFAULT_EFI_MB);
    lemma_parse_decimal((total_free_mb - DEFAULT_EFI_MB) as u64);
}

/// Judges an EFI size in megabytes against the free space.
pub fn validate_efi_size(efi_mb: u64, total_free_mb: u128) -> (r: Result<u64, DiskSetupError>)
    ensures
        r == efi_bound_spec(efi_mb, total_free_mb as nat),
{
    if efi_mb < MIN_EFI_MB {
        Err(DiskSetupError::EfiTooSmall)
    } else if efi_mb as u128 > total_free_mb {
        Err(DiskSetupError::EfiTooLarge)
    } else {
        Ok(efi_mb)
    }
}

/// Judges a root size in megabytes against what the EFI partition leaves.
pub fn validate_linux_size(linux_mb: u64, remaining_mb: u128) -> (r: Result<u64, DiskSetupError>)
    ensures
        r == linux_bound_spec(linux_mb, remaining_mb as nat),
{
    if linux_mb == 0 {
        Err(DiskSetupError::LinuxSizeInvalid)
    } else if linux_mb as u128 > remaining_mb {
        Err(DiskSetupError::LinuxTooLarge)
    } else {
        Ok(linux_mb)
    }
}

/// An EFI size that was accepted, with what it leaves for the root
/// partition.
#[derive(Debug, Clone, Copy, PartialEq, Eq)]
pub struct EfiChoice {
    pub efi_size_mb: u64,
    pub remaining_mb: u128,
}

/// Judges the answer for the EFI size and tells what is left after it.
pub fn choose_efi(answer: &str, total_free_mb: u128) -> (r: Result<EfiChoice, DiskSetupError>)
    ensures
        match efi_size_spec(answer@, total_free_mb as nat) {
            Ok(efi) => r == Ok::<EfiChoice, DiskSetupError>(
                EfiChoice { efi_size_mb: efi, remaining_mb: (total_free_mb - efi) as u128 },
            ),
            Err(e) => r == Err::<EfiChoice, DiskSetupError>(e),
        },
{
    match efi_size_from_answer(answer, total_free_mb) {
        Ok(efi) => Ok(EfiChoice { efi_size_mb: efi, remaining_mb: total_free_mb - efi as u128 }),
        Err(e) => Err(e),
    }
}

/// Judges the answer for the root size against what the EFI partition
/// leaves, and completes the plan.
pub fn choose_linux(answer: &str, choice: &EfiChoice) -> (r: Result<PartitionPlan, DiskSetupError>)
    ensures
        match linux_size_spec(answer@, choice.remaining_mb as nat) {
            Ok(linux) => r == Ok::<PartitionPlan, DiskSetupError>(
                PartitionPlan { efi_size_mb: choice.efi_size_mb, linux_size_mb: linux },
            ),
            Err(e) => r == Err::<PartitionPlan, DiskSetupError>(e),
        },
{
    match linux_size_from_answer(answer, choice.remaining_mb) {
        Ok(linux) => Ok(PartitionPlan { efi_size_mb: choice.efi_size_mb, linux_size_mb: linux }),
        Err(e) => Err(e),
    }
}

/// The free megabytes of a disk without free regions, from its size.
pub fn fallback_megabytes(disk_size: u64) -> (r: Result<u128, DiskSetupError>)
    ensures
        disk_size <= GPT_RESERVED_BYTES ==> r == Err::<u128, DiskSetupError>(
            DiskSetupError::DiskTooSmall,
        ),
        disk_size > GPT_RESERVED_BYTES ==> r == Ok::<u128, DiskSetupError>(
            ((disk_size - GPT_RESERVED_BYTES) / 1_048_576) as u128,
        ),
{
    match fallback_capacity(disk_size) {
        Ok(bytes) => Ok(whole_megabytes(bytes as u128)),
        Err(e) => Err(e),
    }
}

/// Reads an answer as a whole number, white space around it aside.
fn read_answer(answer: &str) -> (r: Option<u64>)
    ensures
        r == parse_u64_spec(trim(answer@)),
{
    let v = chars_of(answer);
    let (lo, hi) = trim_range(&v);
    parse_u64_range(&v, lo, hi)
}

/// Judges the user's answer to the question of the EFI size.
pub fn efi_size_from_answer(answer: &str, total_free_mb: u128) -> (r: Result<u64, DiskSetupError>)
    ensures
        r == efi_size_spec(answer@, total_free_mb as nat),
{
    match read_answer(answer) {
        Some(n) => validate_efi_size(n, total_free_mb),
        None => Err(DiskSetupError::EfiSizeInvalid),
    }
}

/// Judges the user's answer to the question of the root partition's size.
pub fn linux_size_from_answer(answer: &str, remaining_mb: u128) -> (r: Result<
    u64,
    DiskSetupError,
>)
    ensures
        r == linux_size_spec(answer@, remaining_mb as nat),
{
    match read_answer(answer) {
        Some(n) => validate_linux_size(n, remaining_mb),
        None => Err(DiskSetupError::LinuxSizeInvalid),
    }
}

/// Derives the plan from the free space in megabytes and the two answers.
/// One bad answer fails the plan; there is no second try.
pub fn get_partition_plan(total_free_mb: u128, efi_answer: &str, linux_answer: &str) -> (r: Result<
    PartitionPlan,
    DiskSetupError,
>)
    ensures
        r == plan_spec(total_free_mb as nat, efi_answer@, linux_answer@),
        r matches Ok(plan) ==> plan.fits(total_free_mb as nat),
{
    match choose_efi(efi_answer, total_free_mb) {
        Ok(choice) => choose_linux(linux_answer, &choice),
        Err(e) => Err(e),
    }
}

/// The answer that is offered for the EFI size.
pub fn default_efi_answer() -> (s: String)
    ensures
        s@ == decimal(DEFAULT_EFI_MB as nat),
{
    decimal_string(DEFAULT_EFI_MB)
}

/// The answer that is offered for the root size: all that is left.
pub fn default_linux_answer(remaining_mb: u128) -> (s: String)
    ensures
        s@ == decimal(remaining_mb as nat),
{
    let mut s = String::new();
    append_decimal(&mut s, remaining_mb);
    assert(s@ =~= decimal(remaining_mb as nat));
    s
}

/// The question for the root partition's size, which names the most that
/// can be had.
pub fn linux_prompt(remaining_mb: u128) -> (s: String)
    ensures
        s@ == "Linux partition size in MB (max: "@ + decimal(remaining_mb as nat) + ")"@,
{
    let mut s = String::from_str("Linux partition size in MB (max: ");
    append_decimal(&mut s, remaining_mb);
    s.append(")");
    s
}

/// The question for the EFI partition's size.
pub fn efi_prompt() -> (s: String)
    ensures
        s@ == "EFI partition size in MB (recommended: "@ + decimal(DEFAULT_EFI_MB as nat) + ")"@,
{
    let mut s = String::from_str("EFI partition size in MB (recommended: ");
    append_decimal(&mut s, DEFAULT_EFI_MB as u128);
    s.append(")");
    s
}

/// A labelled size: the megabytes, and in brackets the gigabytes with two
/// decimal places.
pub open spec fn size_line_spec(label: Seq<char>, mb: nat) -> Seq<char> {
    label + decimal(mb) + " MB ("@ + format_gb_spec(mb) + " GB)"@
}

/// Renders a labelled size in megabytes and gigabytes.
pub fn size_line(label: &str, mb: u128) -> (s: String)
    ensures
        s@ == size_line_spec(label@, mb as nat),
{
    let mut s = String::from_str(label);
    append_decimal(&mut s, mb);
    s.append(" MB (");
    let gb = format_gb(mb);
    s.append(gb.as_str());
    s.append(" GB)");
    s
}

/// Renders the two lines that confirm a plan.
pub fn plan_summary(plan: &PartitionPlan) -> (lines: (String, String))
    ensures
        lines.0@ == size_line_spec("  EFI:   "@, plan.efi_size_mb as nat),
        lines.1@ == size_line_spec("  Linux: "@, plan.linux_size_mb as nat),
{
    (size_line("  EFI:   ", plan.efi_size_mb as u128), size_line("  Linux: ", plan.linux_size_mb as u128))
}

} // verus!
