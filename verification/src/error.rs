//! The ways in which a disk setup fails.

use vstd::prelude::*;
use vstd::string::*;

verus! {

/// The class of a failure.
#[derive(Debug, Clone, Copy, PartialEq, Eq, Structural)]
pub enum ErrorClass {
    /// A required process did not start or did not succeed.
    ExternalToolFailure,
    /// What a tool printed did not have the expected shape.
    ParseFailure,
    /// An answer of the user is not a number or breaks a bound.
    ValidationFailure,
    /// The user gave up at a prompt.
    UserCancelled,
    /// The disk cannot be partitioned at all.
    PreconditionFailure,
}

/// The step of a setup at which an outside tool is run.
#[derive(Debug, Clone, Copy, PartialEq, Eq, Structural)]
pub enum ToolStep {
    ListDisks,
    ProbeTable,
    CreateTable,
    SurveyFreeSpace,
    QueryDiskSize,
    CreateEfiPartition,
    CreateLinuxPartition,
    FormatEfi,
    FormatLinux,
    ManagePackages,
}

/// A failure of a disk setup. Every one of them ends the session.
#[derive(Debug, Clone, PartialEq, Eq)]
pub enum DiskSetupError {
    /// The tool of `step` failed; `stderr` is what it wrote to standard error.
    ToolFailed { step: ToolStep, stderr: String },
    /// A tool that the setup needs is not installed.
    ToolMissing { tool: String },
    /// The setup was started without the rights of root.
    NotRoot,
    /// The device listing is not the expected structured data. The caller
    /// that decodes the listing reports this.
    ListingUnreadable,
    /// The disk's size is not a byte count.
    DiskSizeUnreadable,
    /// There is no disk to select.
    NoDisks,
    /// The user answered the selection prompt with nothing.
    SelectionCancelled,
    /// The user declined a new partition table.
    TableDeclined,
    /// The disk is no larger than what the partition table reserves.
    DiskTooSmall,
    /// The EFI size is not a number.
    EfiSizeInvalid,
    /// The EFI size is below the minimum.
    EfiTooSmall,
    /// The EFI size is more than the free space.
    EfiTooLarge,
    /// The root partition's size is not a positive number.
    LinuxSizeInvalid,
    /// The root partition's size is more than what the EFI partition leaves.
    LinuxTooLarge,
}

impl DiskSetupError {
    /// The class of each failure.
    pub open spec fn class_spec(self) -> ErrorClass {
        match self {
            DiskSetupError::ToolFailed { .. } => ErrorClass::ExternalToolFailure,
            DiskSetupError::ToolMissing { .. } => ErrorClass::ExternalToolFailure,
            DiskSetupError::NotRoot => ErrorClass::PreconditionFailure,
            DiskSetupError::ListingUnreadable => ErrorClass::ParseFailure,
            DiskSetupError::DiskSizeUnreadable => ErrorClass::ParseFailure,
            DiskSetupError::NoDisks => ErrorClass::PreconditionFailure,
            DiskSetupError::SelectionCancelled => ErrorClass::UserCancelled,
            DiskSetupError::TableDeclined => ErrorClass::UserCancelled,
            DiskSetupError::DiskTooSmall => ErrorClass::PreconditionFailure,
            DiskSetupError::EfiSizeInvalid => ErrorClass::ValidationFailure,
            DiskSetupError::EfiTooSmall => ErrorClass::ValidationFailure,
            DiskSetupError::EfiTooLarge => ErrorClass::ValidationFailure,
            DiskSetupError::LinuxSizeInvalid => ErrorClass::ValidationFailure,
            DiskSetupError::LinuxTooLarge => ErrorClass::ValidationFailure,
        }
    }

    /// The class of this failure.
    pub fn class(&self) -> (c: ErrorClass)
        ensures
            c == self.class_spec(),
    {
        match self {
            DiskSetupError::ToolFailed { .. } => ErrorClass::ExternalToolFailure,
            DiskSetupError::ToolMissing { .. } => ErrorClass::ExternalToolFailure,
            DiskSetupError::NotRoot => ErrorClass::PreconditionFailure,
            DiskSetupError::ListingUnreadable => ErrorClass::ParseFailure,
            DiskSetupError::DiskSizeUnreadable => ErrorClass::ParseFailure,
            DiskSetupError::NoDisks => ErrorClass::PreconditionFailure,
            DiskSetupError::SelectionCancelled => ErrorClass::UserCancelled,
            DiskSetupError::TableDeclined => ErrorClass::UserCancelled,
            DiskSetupError::DiskTooSmall => ErrorClass::PreconditionFailure,
            DiskSetupError::EfiSizeInvalid => ErrorClass::ValidationFailure,
            DiskSetupError::EfiTooSmall => ErrorClass::ValidationFailure,
            DiskSetupError::EfiTooLarge => ErrorClass::ValidationFailure,
            DiskSetupError::LinuxSizeInvalid => ErrorClass::ValidationFailure,
            DiskSetupError::LinuxTooLarge => ErrorClass::ValidationFailure,
        }
    }

    /// The line that belongs to each failure.
    pub open spec fn message_spec(self) -> Seq<char> {
        match self {
            DiskSetupError::ToolFailed { step, .. } => step.failure_text(),
            DiskSetupError::ToolMissing { tool } => "Required tool `"@ + tool@
                + "` not found in PATH. Please install it."@,
            DiskSetupError::NotRoot =>
                "This operation requires root. Please run with sudo or as root."@,
            DiskSetupError::ListingUnreadable => "Failed parsing lsblk JSON"@,
            DiskSetupError::DiskSizeUnreadable => "Failed to parse disk size"@,
            DiskSetupError::NoDisks => "No disks found on system."@,
            DiskSetupError::SelectionCancelled => "Disk selection cancelled."@,
            DiskSetupError::TableDeclined => "User declined to create partition table"@,
            DiskSetupError::DiskTooSmall => "Disk is too small for partitioning"@,
            DiskSetupError::EfiSizeInvalid => "Invalid EFI size - must be a number"@,
            DiskSetupError::EfiTooSmall => "EFI partition must be at least 512 MB"@,
            DiskSetupError::EfiTooLarge => "EFI partition size exceeds available space"@,
            DiskSetupError::LinuxSizeInvalid => "Invalid Linux size - must be a positive number"@,
            DiskSetupError::LinuxTooLarge => "Linux partition size exceeds remaining space"@,
        }
    }

    /// The line that tells the user what went wrong.
    pub fn message(&self) -> (s: String)
        ensures
            s@ == self.message_spec(),
    {
        let text: &str = match self {
            DiskSetupError::ToolFailed { step, .. } => step.failure_str(),
            DiskSetupError::ToolMissing { tool } => {
                let mut s = String::from_str("Required tool `");
                s.append(tool.as_str());
                s.append("` not found in PATH. Please install it.");
                return s;
            },
            DiskSetupError::NotRoot =>
                "This operation requires root. Please run with sudo or as root.",
            DiskSetupError::ListingUnreadable => "Failed parsing lsblk JSON",
            DiskSetupError::DiskSizeUnreadable => "Failed to parse disk size",
            DiskSetupError::NoDisks => "No disks found on system.",
            DiskSetupError::SelectionCancelled => "Disk selection cancelled.",
            DiskSetupError::TableDeclined => "User declined to create partition table",
            DiskSetupError::DiskTooSmall => "Disk is too small for partitioning",
            DiskSetupError::EfiSizeInvalid => "Invalid EFI size - must be a number",
            DiskSetupError::EfiTooSmall => "EFI partition must be at least 512 MB",
            DiskSetupError::EfiTooLarge => "EFI partition size exceeds available space",
            DiskSetupError::LinuxSizeInvalid => "Invalid Linux size - must be a positive number",
            DiskSetupError::LinuxTooLarge => "Linux partition size exceeds remaining space",
        };
        String::from_str(text)
    }
}

impl ToolStep {
    /// What is said when the tool of a step fails.
    pub open spec fn failure_text(self) -> Seq<char> {
        match self {
            ToolStep::ListDisks => "Failed running lsblk"@,
            ToolStep::ProbeTable => "Failed to check partition table"@,
            ToolStep::CreateTable => "Failed to create GPT partition table"@,
            ToolStep::SurveyFreeSpace => "Failed running parted"@,
            ToolStep::QueryDiskSize => "Failed to get disk size"@,
            ToolStep::CreateEfiPartition => "Failed to run sgdisk to create EFI partition"@,
            ToolStep::CreateLinuxPartition => "Failed to run sgdisk to create Linux partition"@,
            ToolStep::FormatEfi => "Failed to format EFI partition as FAT32"@,
            ToolStep::FormatLinux => "Failed to format Linux partition as Btrfs"@,
            ToolStep::ManagePackages => "Failed to run pacman"@,
        }
    }

    /// What to say when the tool of this step fails.
    pub fn failure_str(&self) -> (s: &'static str)
        ensures
            s@ == self.failure_text(),
    {
        match self {
            ToolStep::ListDisks => "Failed running lsblk",
            ToolStep::ProbeTable => "Failed to check partition table",
            ToolStep::CreateTable => "Failed to create GPT partition table",
            ToolStep::SurveyFreeSpace => "Failed running parted",
            ToolStep::QueryDiskSize => "Failed to get disk size",
            ToolStep::CreateEfiPartition => "Failed to run sgdisk to create EFI partition",
            ToolStep::CreateLinuxPartition => "Failed to run sgdisk to create Linux partition",
            ToolStep::FormatEfi => "Failed to format EFI partition as FAT32",
            ToolStep::FormatLinux => "Failed to format Linux partition as Btrfs",
            ToolStep::ManagePackages => "Failed to run pacman",
        }
    }
}

} // verus!
