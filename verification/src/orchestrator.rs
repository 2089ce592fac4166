//! The sequence of a disk setup: which stage follows which.
//!
//! A session walks through its stages in one direction. The caller does the
//! work of the stage at hand with the functions of the other modules, and
//! tells the session how it went; the session answers with the stage that
//! comes next.

use vstd::prelude::*;
use vstd::string::*;
use crate::executor::CreatedPartitionsView;
use crate::structs::{Cli, Commands, CreatedPartitions, DiskSetupArgs};

verus! {

/// A stage of a session.
#[derive(Debug, Clone, Copy, PartialEq, Eq, Structural)]
pub enum Stage {
    SelectDisk,
    InspectTable,
    CreateTable,
    SurveyFreeSpace,
    Plan,
    CreatePartitions,
    Format,
    /// The setup is done; the summary is shown.
    Report,
    /// A stage failed. What was done to the disk so far stays as it is.
    Aborted,
}

/// How the work of a stage went.
#[derive(Debug, Clone, Copy, PartialEq, Eq, Structural)]
pub enum Outcome {
    /// The stage did its work.
    Succeeded,
    /// The inspection found no partition table on the disk.
    TableMissing,
    /// The stage failed, or the user gave up.
    Failed,
}

impl Stage {
    /// The place of the stage in the sequence.
    pub open spec fn rank(self) -> nat {
        match self {
            Stage::SelectDisk => 0,
            Stage::InspectTable => 1,
            Stage::CreateTable => 2,
            Stage::SurveyFreeSpace => 3,
            Stage::Plan => 4,
            Stage::CreatePartitions => 5,
            Stage::Format => 6,
            Stage::Report => 7,
            Stage::Aborted => 8,
        }
    }

    /// Nothing follows a session that has reported or was aborted.
    pub open spec fn is_final(self) -> bool {
        self == Stage::Report || self == Stage::Aborted
    }

    /// The stage that follows. A failure aborts the session at once. A new
    /// partition table is created only where the inspection found none; at
    /// every other stage a missing table counts as success.
    pub open spec fn next_spec(self, outcome: Outcome) -> Stage {
        if self.is_final() {
            self
        } else if outcome == Outcome::Failed {
            Stage::Aborted
        } else {
            match self {
                Stage::SelectDisk => Stage::InspectTable,
                Stage::InspectTable => if outcome == Outcome::TableMissing {
                    Stage::CreateTable
                } else {
                    Stage::SurveyFreeSpace
                },
                Stage::CreateTable => Stage::SurveyFreeSpace,
                Stage::SurveyFreeSpace => Stage::Plan,
                Stage::Plan => Stage::CreatePartitions,
                Stage::CreatePartitions => Stage::Format,
                Stage::Format => Stage::Report,
                Stage::Report => Stage::Report,
                Stage::Aborted => Stage::Aborted,
            }
        }
    }

    /// Tells which stage follows this one.
    pub fn next(self, outcome: Outcome) -> (stage: Stage)
        ensures
            stage == self.next_spec(outcome),
    {
        match self {
            Stage::Report => Stage::Report,
            Stage::Aborted => Stage::Aborted,
            _ => match outcome {
                Outcome::Failed => Stage::Aborted,
                Outcome::TableMissing => match self {
                    Stage::SelectDisk => Stage::InspectTable,
                    Stage::InspectTable => Stage::CreateTable,
                    Stage::CreateTable => Stage::SurveyFreeSpace,
                    Stage::SurveyFreeSpace => Stage::Plan,
                    Stage::Plan => Stage::CreatePartitions,
                    Stage::CreatePartitions => Stage::Format,
                    _ => Stage::Report,
                },
                Outcome::Succeeded => match self {
                    Stage::SelectDisk => Stage::InspectTable,
                    Stage::InspectTable => Stage::SurveyFreeSpace,
                    Stage::CreateTable => Stage::SurveyFreeSpace,
                    Stage::SurveyFreeSpace => Stage::Plan,
                    Stage::Plan => Stage::CreatePartitions,
                    Stage::CreatePartitions => Stage::Format,
                    _ => Stage::Report,
                },
            },
        }
    }
}

/// A session never goes back: every step leads to a later stage, until the
/// session has reported or was aborted, where it stays.
pub proof fn lemma_forward_only(stage: Stage, outcome: Outcome)
    ensures
        !stage.is_final() ==> stage.next_spec(outcome).rank() > stage.rank(),
        stage.is_final() ==> stage.next_spec(outcome) == stage,
{
}

/// A failure at any stage aborts the session, and an aborted session
/// reaches no other stage: no partition is created or formatted after it.
pub proof fn lemma_failure_aborts(stage: Stage, later: Outcome)
    requires
        !stage.is_final(),
    ensures
        stage.next_spec(Outcome::Failed) == Stage::Aborted,
        stage.next_spec(Outcome::Failed).next_spec(later) == Stage::Aborted,
{
}

/// The partition table is created only right after an inspection that
/// found none.
pub proof fn lemma_table_only_when_missing(stage: Stage, outcome: Outcome)
    ensures
        stage.next_spec(outcome) == Stage::CreateTable <==> stage == Stage::InspectTable
            && outcome == Outcome::TableMissing,
{
}

/// A session of the disk setup.
#[derive(Debug, Clone, Copy, PartialEq, Eq, Structural)]
pub struct Session {
    /// Whether the session only tells what it would do.
    pub dry_run: bool,
    /// The stage whose work is to be done next.
    pub stage: Stage,
}

impl Session {
    /// Moves the session on after the work of its stage.
    pub fn advance(self, outcome: Outcome) -> (next: Session)
        ensures
            next.dry_run == self.dry_run,
            next.stage == self.stage.next_spec(outcome),
    {
        Session { dry_run: self.dry_run, stage: self.stage.next(outcome) }
    }
}

/// Opens a session of the disk setup: it starts with the choice of the
/// disk and carries the dry-run option to every stage.
pub fn handle(args: DiskSetupArgs) -> (session: Session)
    ensures
        session.stage == Stage::SelectDisk,
        session.dry_run == args.dry_run,
{
    Session { dry_run: args.dry_run, stage: Stage::SelectDisk }
}

/// Opens the session that a command line asks for.
pub fn run(cli: Cli) -> (session: Session)
    ensures
        session.stage == Stage::SelectDisk,
        match cli.command {
            Commands::DiskSetup(args) => session.dry_run == args.dry_run,
        },
{
    match cli.command {
        Commands::DiskSetup(args) => handle(args),
    }
}

/// Renders the summary of a finished setup: the two partitions with their
/// filesystems.
pub fn report_lines(partitions: &CreatedPartitions) -> (lines: (String, String))
    ensures
        lines.0@ == "  EFI:   "@ + partitions.efi_partition@ + " (FAT32)"@,
        lines.1@ == "  Linux: "@ + partitions.linux_partition@ + " (Btrfs)"@,
{
    let mut efi = String::from_str("  EFI:   ");
    efi.append(partitions.efi_partition.as_str());
    efi.append(" (FAT32)");
    let mut linux = String::from_str("  Linux: ");
    linux.append(partitions.linux_partition.as_str());
    linux.append(" (Btrfs)");
    (efi, linux)
}

} // verus!
