use sharch::enumerator::{list_block_disks, select_disk_simple, selection_prompt, Selection};
use sharch::error::{DiskSetupError, ErrorClass, ToolStep};
use sharch::executor::create_partitions;
use sharch::formatter::{format_intents, format_partitions};
use sharch::inspector::{check_partition_table, create_partition_table};
use sharch::orchestrator::{handle, report_lines, run, Outcome, Session, Stage};
use sharch::planner::{
    choose_efi, choose_linux, default_efi_answer, default_linux_answer, fallback_capacity,
    fallback_megabytes, surveyed_capacity, whole_megabytes, Capacity, EfiChoice,
};
use sharch::structs::{Cli, Commands, Disk, DiskSetupArgs, FreeRegion, LsblkNode, PartitionPlan};
use sharch::surveyor::{get_disk_size, list_free_regions};
use sharch::table::{disk_table, display_free_regions};
use sharch::tools::ToolOutcome;

fn node(name: &str, size: &str, dev_type: &str, model: Option<&str>) -> LsblkNode {
    LsblkNode {
        name: name.to_string(),
        size: size.to_string(),
        dev_type: dev_type.to_string(),
        model: model.map(|m| m.to_string()),
    }
}

fn listing() -> Vec<LsblkNode> {
    vec![
        node("sda", "500G", "disk", Some("Samsung SSD 860")),
        node("sda1", "512M", "part", None),
        node("loop0", "2G", "loop", None),
        node("sdb", "20G", "disk", None),
        node("sr0", "1024M", "rom", Some("DVD")),
        node("nvme0n1", "1T", "disk", Some("WD Black")),
    ]
}

#[test]
fn only_disks_are_listed_in_order() {
    let disks = list_block_disks(&listing());
    assert_eq!(
        disks,
        vec![
            Disk {
                name: "sda".to_string(),
                path: "/dev/sda".to_string(),
                size: "500G".to_string(),
                model: "Samsung SSD 860".to_string(),
            },
            Disk {
                name: "sdb".to_string(),
                path: "/dev/sdb".to_string(),
                size: "20G".to_string(),
                model: String::new(),
            },
            Disk {
                name: "nvme0n1".to_string(),
                path: "/dev/nvme0n1".to_string(),
                size: "1T".to_string(),
                model: "WD Black".to_string(),
            },
        ]
    );
    assert!(list_block_disks(&vec![node("loop0", "1G", "loop", None)]).is_empty());
    assert!(list_block_disks(&vec![node("sda", "1G", "Disk", None)]).is_empty());
}

#[test]
fn selection_takes_a_number_from_one() {
    let disks = list_block_disks(&listing());
    assert_eq!(select_disk_simple(&disks, "1"), Ok(Selection::Chosen("/dev/sda".to_string())));
    assert_eq!(select_disk_simple(&disks, " 2\n"), Ok(Selection::Chosen("/dev/sdb".to_string())));
    assert_eq!(select_disk_simple(&disks, "3"), Ok(Selection::Chosen("/dev/nvme0n1".to_string())));
}

#[test]
fn a_bad_selection_asks_again() {
    let disks = list_block_disks(&listing());
    assert_eq!(select_disk_simple(&disks, "0"), Ok(Selection::Retry));
    assert_eq!(select_disk_simple(&disks, "4"), Ok(Selection::Retry));
    assert_eq!(select_disk_simple(&disks, "sda"), Ok(Selection::Retry));
    assert_eq!(select_disk_simple(&disks, "-1"), Ok(Selection::Retry));
    assert_eq!(select_disk_simple(&disks, "99999999999999999999999"), Ok(Selection::Retry));
}

#[test]
fn an_empty_selection_cancels() {
    let disks = list_block_disks(&listing());
    assert_eq!(select_disk_simple(&disks, ""), Err(DiskSetupError::SelectionCancelled));
    assert_eq!(select_disk_simple(&disks, "  \t"), Err(DiskSetupError::SelectionCancelled));
    assert_eq!(DiskSetupError::SelectionCancelled.class(), ErrorClass::UserCancelled);
    assert_eq!(DiskSetupError::SelectionCancelled.message(), "Disk selection cancelled.");
}

#[test]
fn without_disks_nothing_can_be_selected() {
    let none: Vec<Disk> = Vec::new();
    assert_eq!(select_disk_simple(&none, "1"), Err(DiskSetupError::NoDisks));
    assert_eq!(select_disk_simple(&none, ""), Err(DiskSetupError::NoDisks));
    assert_eq!(disk_table(&none), Err(DiskSetupError::NoDisks));
    assert_eq!(DiskSetupError::NoDisks.class(), ErrorClass::PreconditionFailure);
    assert_eq!(DiskSetupError::NoDisks.message(), "No disks found on system.");
}

#[test]
fn the_prompt_names_the_range() {
    assert_eq!(selection_prompt(3), "Select disk (1-3) or ENTER to cancel");
}

#[test]
fn disk_table_has_columns_as_wide_as_their_cells() {
    let disks = list_block_disks(&listing());
    let (heading, rows) = disk_table(&disks).unwrap();
    assert_eq!(heading, "  #    Device        Size  Model          ");
    assert_eq!(
        rows,
        vec![
            "  1    /dev/sda      500G  Samsung SSD 860",
            "  2    /dev/sdb      20G   -              ",
            "  3    /dev/nvme0n1  1T    WD Black       ",
        ]
    );
}

#[test]
fn disk_table_keeps_the_heading_widths_for_short_cells() {
    let disks = vec![Disk {
        name: "a".to_string(),
        path: "/a".to_string(),
        size: "1".to_string(),
        model: String::new(),
    }];
    let (heading, rows) = disk_table(&disks).unwrap();
    assert_eq!(heading, "  #    Device  Size  Model");
    assert_eq!(rows, vec!["  1    /a      1     -    "]);
}

#[test]
fn region_table_is_laid_out_likewise() {
    let regions = list_free_regions("17408B:1065984B:1048577B:x:free\n0B:5B:123456789012B:x:free\n");
    let (heading, rows) = display_free_regions(&regions).unwrap();
    assert_eq!(heading, "  Start     End      Size     ");
    assert_eq!(
        rows,
        vec!["  17.00 KB  1.02 MB  1.00 MB  ", "  0 B       5 B      114.98 GB"]
    );
    let none: Vec<FreeRegion> = Vec::new();
    assert_eq!(display_free_regions(&none), None);
    let short = list_free_regions("1B:2B:2000000B:x:free\n");
    let (heading, rows) = display_free_regions(&short).unwrap();
    assert_eq!(heading, "  Start  End  Size   ");
    assert_eq!(rows, vec!["  1 B    2 B  1.91 MB"]);
}

#[test]
fn stages_follow_one_another() {
    let mut stage = Stage::SelectDisk;
    let mut seen = vec![stage];
    while stage != Stage::Report {
        stage = stage.next(Outcome::Succeeded);
        seen.push(stage);
    }
    assert_eq!(
        seen,
        vec![
            Stage::SelectDisk,
            Stage::InspectTable,
            Stage::SurveyFreeSpace,
            Stage::Plan,
            Stage::CreatePartitions,
            Stage::Format,
            Stage::Report,
        ]
    );
    assert_eq!(Stage::InspectTable.next(Outcome::TableMissing), Stage::CreateTable);
    assert_eq!(Stage::CreateTable.next(Outcome::Succeeded), Stage::SurveyFreeSpace);
    assert_eq!(Stage::Plan.next(Outcome::TableMissing), Stage::CreatePartitions);
}

#[test]
fn a_failure_aborts_at_every_stage() {
    for stage in [
        Stage::SelectDisk,
        Stage::InspectTable,
        Stage::CreateTable,
        Stage::SurveyFreeSpace,
        Stage::Plan,
        Stage::CreatePartitions,
        Stage::Format,
    ] {
        assert_eq!(stage.next(Outcome::Failed), Stage::Aborted);
    }
    for outcome in [Outcome::Succeeded, Outcome::TableMissing, Outcome::Failed] {
        assert_eq!(Stage::Aborted.next(outcome), Stage::Aborted);
        assert_eq!(Stage::Report.next(outcome), Stage::Report);
    }
}

#[test]
fn a_session_carries_the_dry_run_option() {
    let session = run(Cli { command: Commands::DiskSetup(DiskSetupArgs { dry_run: true }) });
    assert_eq!(session, Session { dry_run: true, stage: Stage::SelectDisk });
    let next = session.advance(Outcome::Succeeded);
    assert_eq!(next, Session { dry_run: true, stage: Stage::InspectTable });
    assert_eq!(handle(DiskSetupArgs { dry_run: false }).dry_run, false);
}

#[test]
fn declined_table_aborts_the_session() {
    let mut session = handle(DiskSetupArgs { dry_run: false });
    session = session.advance(Outcome::Succeeded);
    let probe = ToolOutcome {
        launched: true,
        success: false,
        stdout: String::new(),
        stderr: "unrecognised disk label".to_string(),
    };
    assert_eq!(check_partition_table(probe), Ok(false));
    session = session.advance(Outcome::TableMissing);
    assert_eq!(session.stage, Stage::CreateTable);
    let declined = create_partition_table("/dev/sdb", false, session.dry_run);
    assert_eq!(declined.as_ref().unwrap_err().class(), ErrorClass::UserCancelled);
    session = session.advance(Outcome::Failed);
    assert_eq!(session.stage, Stage::Aborted);
    assert_eq!(session.advance(Outcome::Succeeded).stage, Stage::Aborted);
}

#[test]
fn dry_run_on_a_blank_twenty_gib_disk() {
    let mut session = handle(DiskSetupArgs { dry_run: true });

    let disks = list_block_disks(&listing());
    let disk = match select_disk_simple(&disks, "2") {
        Ok(Selection::Chosen(path)) => path,
        other => panic!("no disk chosen: {:?}", other),
    };
    assert_eq!(disk, "/dev/sdb");
    session = session.advance(Outcome::Succeeded);
    assert_eq!(session.stage, Stage::InspectTable);

    let probe = ToolOutcome {
        launched: true,
        success: false,
        stdout: String::new(),
        stderr: String::new(),
    };
    assert_eq!(check_partition_table(probe), Ok(false));
    session = session.advance(Outcome::TableMissing);
    assert_eq!(session.stage, Stage::CreateTable);

    assert_eq!(create_partition_table(&disk, true, session.dry_run), Ok(None));
    session = session.advance(Outcome::Succeeded);
    assert_eq!(session.stage, Stage::SurveyFreeSpace);

    let regions = list_free_regions("");
    assert!(regions.is_empty());
    session = session.advance(Outcome::Succeeded);
    assert_eq!(session.stage, Stage::Plan);

    assert_eq!(surveyed_capacity(&regions), Capacity::NeedsDiskSize);
    let size = get_disk_size("21474836480\n").unwrap();
    let free = fallback_capacity(size).unwrap();
    assert_eq!(free, 20 * (1u64 << 30) - 34_603_008);
    let total_mb = fallback_megabytes(size).unwrap();
    assert_eq!(total_mb, whole_megabytes(free as u128));
    let choice = choose_efi(&default_efi_answer(), total_mb).unwrap();
    assert_eq!(choice, EfiChoice { efi_size_mb: 1024, remaining_mb: total_mb - 1024 });
    let plan = choose_linux(&default_linux_answer(choice.remaining_mb), &choice).unwrap();
    assert_eq!(plan, PartitionPlan { efi_size_mb: 1024, linux_size_mb: 19_423 });
    assert_eq!(plan.linux_size_mb as u128, choice.remaining_mb);
    session = session.advance(Outcome::Succeeded);
    assert_eq!(session.stage, Stage::CreatePartitions);

    let work = create_partitions(&disk, &plan, session.dry_run);
    assert!(work.required.is_empty());
    assert!(work.best_effort.is_empty());
    assert_eq!(work.partitions.efi_partition, "/dev/sdb1");
    assert_eq!(work.partitions.linux_partition, "/dev/sdb2");
    session = session.advance(Outcome::Succeeded);
    assert_eq!(session.stage, Stage::Format);

    assert!(format_partitions(&work.partitions, session.dry_run).is_empty());
    let (fat, btrfs) = format_intents(&work.partitions);
    assert_eq!(fat, "  /dev/sdb1 as FAT32 (EFI)");
    assert_eq!(btrfs, "  /dev/sdb2 as Btrfs (Linux)");
    session = session.advance(Outcome::Succeeded);
    assert_eq!(session.stage, Stage::Report);

    let (efi_line, linux_line) = report_lines(&work.partitions);
    assert_eq!(efi_line, "  EFI:   /dev/sdb1 (FAT32)");
    assert_eq!(linux_line, "  Linux: /dev/sdb2 (Btrfs)");
}

#[test]
fn every_failure_has_a_class_and_a_message() {
    let tool = DiskSetupError::ToolFailed { step: ToolStep::FormatLinux, stderr: String::new() };
    assert_eq!(tool.class(), ErrorClass::ExternalToolFailure);
    assert_eq!(tool.message(), "Failed to format Linux partition as Btrfs");
    assert_eq!(DiskSetupError::ListingUnreadable.class(), ErrorClass::ParseFailure);
    assert_eq!(DiskSetupError::ListingUnreadable.message(), "Failed parsing lsblk JSON");
    assert_eq!(DiskSetupError::DiskSizeUnreadable.class(), ErrorClass::ParseFailure);
    assert_eq!(DiskSetupError::DiskSizeUnreadable.message(), "Failed to parse disk size");
    assert_eq!(DiskSetupError::DiskTooSmall.class(), ErrorClass::PreconditionFailure);
    assert_eq!(DiskSetupError::DiskTooSmall.message(), "Disk is too small for partitioning");
    assert_eq!(ToolStep::ListDisks.failure_str(), "Failed running lsblk");
    assert_eq!(ToolStep::ProbeTable.failure_str(), "Failed to check partition table");
    assert_eq!(ToolStep::CreateTable.failure_str(), "Failed to create GPT partition table");
    assert_eq!(ToolStep::SurveyFreeSpace.failure_str(), "Failed running parted");
    assert_eq!(ToolStep::QueryDiskSize.failure_str(), "Failed to get disk size");
    assert_eq!(
        ToolStep::CreateLinuxPartition.failure_str(),
        "Failed to run sgdisk to create Linux partition"
    );
    assert_eq!(ToolStep::FormatEfi.failure_str(), "Failed to format EFI partition as FAT32");
    assert_eq!(ToolStep::ManagePackages.failure_str(), "Failed to run pacman");
}
