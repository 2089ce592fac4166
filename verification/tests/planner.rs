use sharch::error::{DiskSetupError, ErrorClass};
use sharch::planner::{
    capacity_lines, choose_efi, choose_linux, default_efi_answer, default_linux_answer,
    efi_prompt, efi_size_from_answer, linux_prompt, fallback_megabytes, get_partition_plan, linux_size_from_answer,
    plan_summary, size_line, validate_efi_size, validate_linux_size, whole_megabytes, EfiChoice,
};
use sharch::structs::PartitionPlan;

#[test]
fn efi_of_511_is_rejected_and_512_accepted() {
    assert_eq!(validate_efi_size(511, 512), Err(DiskSetupError::EfiTooSmall));
    assert_eq!(validate_efi_size(512, 512), Ok(512));
    assert_eq!(validate_efi_size(511, 100_000), Err(DiskSetupError::EfiTooSmall));
    assert_eq!(validate_efi_size(512, 100_000), Ok(512));
    assert_eq!(efi_size_from_answer("511", 20_000), Err(DiskSetupError::EfiTooSmall));
    assert_eq!(efi_size_from_answer("512", 20_000), Ok(512));
}

#[test]
fn efi_above_the_free_space_is_rejected() {
    assert_eq!(validate_efi_size(513, 512), Err(DiskSetupError::EfiTooLarge));
    assert_eq!(validate_efi_size(1024, 1023), Err(DiskSetupError::EfiTooLarge));
    assert_eq!(validate_efi_size(600, 100), Err(DiskSetupError::EfiTooLarge));
    assert_eq!(validate_efi_size(100, 50), Err(DiskSetupError::EfiTooSmall));
}

#[test]
fn linux_above_the_remainder_is_rejected() {
    assert_eq!(validate_linux_size(1001, 1000), Err(DiskSetupError::LinuxTooLarge));
    assert_eq!(validate_linux_size(1000, 1000), Ok(1000));
    assert_eq!(
        get_partition_plan(2000, "1024", "977"),
        Err(DiskSetupError::LinuxTooLarge)
    );
    assert_eq!(
        get_partition_plan(2000, "1024", "976"),
        Ok(PartitionPlan { efi_size_mb: 1024, linux_size_mb: 976 })
    );
}

#[test]
fn linux_size_must_be_positive() {
    assert_eq!(validate_linux_size(0, 1000), Err(DiskSetupError::LinuxSizeInvalid));
    assert_eq!(validate_linux_size(1, 1), Ok(1));
    assert_eq!(validate_linux_size(1, 0), Err(DiskSetupError::LinuxTooLarge));
}

#[test]
fn answers_are_trimmed_and_must_be_numbers() {
    assert_eq!(efi_size_from_answer(" 1024 \n", 2000), Ok(1024));
    assert_eq!(efi_size_from_answer("", 2000), Err(DiskSetupError::EfiSizeInvalid));
    assert_eq!(efi_size_from_answer("1k", 2000), Err(DiskSetupError::EfiSizeInvalid));
    assert_eq!(efi_size_from_answer("-600", 2000), Err(DiskSetupError::EfiSizeInvalid));
    assert_eq!(efi_size_from_answer("+600", 2000), Ok(600));
    assert_eq!(linux_size_from_answer("ten", 2000), Err(DiskSetupError::LinuxSizeInvalid));
    assert_eq!(linux_size_from_answer("\t10", 2000), Ok(10));
}

#[test]
fn the_efi_answer_is_judged_first() {
    assert_eq!(get_partition_plan(2000, "x", "y"), Err(DiskSetupError::EfiSizeInvalid));
    assert_eq!(get_partition_plan(2000, "100", "y"), Err(DiskSetupError::EfiTooSmall));
    assert_eq!(get_partition_plan(2000, "3000", "1"), Err(DiskSetupError::EfiTooLarge));
    assert_eq!(get_partition_plan(2000, "1000", "y"), Err(DiskSetupError::LinuxSizeInvalid));
}

#[test]
fn less_than_all_may_be_asked_for() {
    assert_eq!(
        get_partition_plan(20_000, "512", "100"),
        Ok(PartitionPlan { efi_size_mb: 512, linux_size_mb: 100 })
    );
}

#[test]
fn the_defaults_are_accepted() {
    let total = whole_megabytes(20 * (1u128 << 30) - 34_603_008);
    assert_eq!(total, 20_447);
    assert_eq!(default_efi_answer(), "1024");
    let remaining = total - 1024;
    assert_eq!(default_linux_answer(remaining), "19423");
    assert_eq!(
        get_partition_plan(total, &default_efi_answer(), &default_linux_answer(remaining)),
        Ok(PartitionPlan { efi_size_mb: 1024, linux_size_mb: 19_423 })
    );
}

#[test]
fn the_efi_choice_tells_what_is_left() {
    assert_eq!(
        choose_efi("600", 1000),
        Ok(EfiChoice { efi_size_mb: 600, remaining_mb: 400 })
    );
    assert_eq!(choose_efi("1000", 1000), Ok(EfiChoice { efi_size_mb: 1000, remaining_mb: 0 }));
    assert_eq!(choose_efi("1001", 1000), Err(DiskSetupError::EfiTooLarge));
    let choice = EfiChoice { efi_size_mb: 600, remaining_mb: 400 };
    assert_eq!(choose_linux("400", &choice), Ok(PartitionPlan { efi_size_mb: 600, linux_size_mb: 400 }));
    assert_eq!(choose_linux("401", &choice), Err(DiskSetupError::LinuxTooLarge));
    assert_eq!(choose_linux("", &choice), Err(DiskSetupError::LinuxSizeInvalid));
}

#[test]
fn fallback_megabytes_of_a_disk() {
    assert_eq!(fallback_megabytes(20 * (1u64 << 30)), Ok(20_447));
    assert_eq!(fallback_megabytes(34_603_008), Err(DiskSetupError::DiskTooSmall));
    assert_eq!(fallback_megabytes(34_603_009), Ok(0));
}

#[test]
fn the_questions_name_their_numbers() {
    assert_eq!(efi_prompt(), "EFI partition size in MB (recommended: 1024)");
    assert_eq!(linux_prompt(19_423), "Linux partition size in MB (max: 19423)");
}

#[test]
fn whole_megabytes_drop_the_fraction() {
    assert_eq!(whole_megabytes(0), 0);
    assert_eq!(whole_megabytes(1_048_575), 0);
    assert_eq!(whole_megabytes(1_048_576), 1);
    assert_eq!(whole_megabytes(2_097_151), 1);
}

#[test]
fn sizes_are_shown_in_megabytes_and_gigabytes() {
    assert_eq!(size_line("Available space: ", 20_447), "Available space: 20447 MB (19.97 GB)");
    let (efi, linux) = plan_summary(&PartitionPlan { efi_size_mb: 1024, linux_size_mb: 19_423 });
    assert_eq!(efi, "  EFI:   1024 MB (1.00 GB)");
    assert_eq!(linux, "  Linux: 19423 MB (18.97 GB)");
}

#[test]
fn capacity_of_a_disk_without_regions_is_shown() {
    let (total, usable) = capacity_lines(20 * (1u64 << 30));
    assert_eq!(total, "Total disk size: 20.00 GB");
    assert_eq!(usable, Some("Usable space: ~19.97 GB".to_string()));
    assert_eq!(capacity_lines(1000).1, None);
}

#[test]
fn validation_failures_are_of_their_class() {
    for e in [
        DiskSetupError::EfiSizeInvalid,
        DiskSetupError::EfiTooSmall,
        DiskSetupError::EfiTooLarge,
        DiskSetupError::LinuxSizeInvalid,
        DiskSetupError::LinuxTooLarge,
    ] {
        assert_eq!(e.class(), ErrorClass::ValidationFailure);
    }
    assert_eq!(DiskSetupError::EfiTooSmall.message(), "EFI partition must be at least 512 MB");
    assert_eq!(
        DiskSetupError::LinuxTooLarge.message(),
        "Linux partition size exceeds remaining space"
    );
}
