use sharch::error::DiskSetupError;
use sharch::planner::{fallback_capacity, surveyed_capacity, Capacity};
use sharch::structs::FreeRegion;
use sharch::surveyor::{get_disk_size, list_free_regions};

#[test]
fn region_of_exactly_one_mib_is_excluded() {
    let regions = list_free_regions("0B:1048575B:1048576B:x:free\n");
    assert!(regions.is_empty());
}

#[test]
fn region_one_byte_above_one_mib_is_included() {
    let regions = list_free_regions("17408B:1065984B:1048577B:x:free\n");
    assert_eq!(
        regions,
        vec![FreeRegion {
            start: "17.00 KB".to_string(),
            end: "1.02 MB".to_string(),
            size: "1.00 MB".to_string(),
            size_bytes: 1_048_577,
        }]
    );
}

#[test]
fn only_records_tagged_free_count() {
    let report = "BYT;\n\
                  /dev/sda:21474836480B:scsi:512:512:gpt:QEMU:;\n\
                  1048576B:2097151B:5000000B:ext4:primary\n\
                  2097152B:9999999B:7902848B:x:free;\n\
                  2097152B:9999999B:7902848B:x:Free\n\
                  2097152B:9999999B:7902848B:free\n\
                  3B:4B:2097152B:x:free:more\n";
    let regions = list_free_regions(report);
    assert_eq!(regions.len(), 1);
    assert_eq!(regions[0].size_bytes, 2_097_152);
    assert_eq!(regions[0].start, "3 B");
    assert_eq!(regions[0].end, "4 B");
    assert_eq!(regions[0].size, "2.00 MB");
}

#[test]
fn regions_keep_the_order_of_the_report() {
    let report = "1B:2B:3000000B:x:free\r\n4B:5B:2000000:x:free\n6B:7B:9000000BBB:x:free";
    let sizes: Vec<u64> = list_free_regions(report).iter().map(|r| r.size_bytes).collect();
    assert_eq!(sizes, vec![3_000_000, 2_000_000, 9_000_000]);
}

#[test]
fn a_size_that_is_no_number_drops_the_record() {
    assert!(list_free_regions("1B:2B:manyB:x:free\n").is_empty());
    assert!(list_free_regions("1B:2B:B:x:free\n").is_empty());
    assert!(list_free_regions("1B:2B:-5000000B:x:free\n").is_empty());
    assert!(list_free_regions("1B:2B:99999999999999999999B:x:free\n").is_empty());
    assert_eq!(list_free_regions("1B:2B:+5000000B:x:free\n").len(), 1);
}

#[test]
fn an_offset_that_is_no_number_reads_as_zero() {
    let regions = list_free_regions("here:thereB:5000000B:x:free\n");
    assert_eq!(regions[0].start, "0 B");
    assert_eq!(regions[0].end, "0 B");
}

#[test]
fn a_lone_carriage_return_stays_in_the_last_line() {
    assert_eq!(list_free_regions("1B:2B:5000000B:x:free\r\n").len(), 1);
    assert!(list_free_regions("1B:2B:5000000B:x:free\r").is_empty());
    assert!(list_free_regions("").is_empty());
}

#[test]
fn single_one_mib_region_leads_to_fallback_accounting() {
    let regions = list_free_regions("0B:1048575B:1048576B:x:free\n");
    assert!(regions.is_empty());
    assert_eq!(surveyed_capacity(&regions), Capacity::NeedsDiskSize);
    assert_eq!(fallback_capacity(21_474_836_480), Ok(21_440_233_472));
}

#[test]
fn capacity_is_the_sum_of_the_regions() {
    let regions = list_free_regions("1B:2B:3000000B:x:free\n4B:5B:2000000B:x:free\n");
    assert_eq!(surveyed_capacity(&regions), Capacity::Bytes(5_000_000));
    let big = FreeRegion {
        start: String::new(),
        end: String::new(),
        size: String::new(),
        size_bytes: u64::MAX,
    };
    assert_eq!(
        surveyed_capacity(&vec![big.clone(), big]),
        Capacity::Bytes(2 * (u64::MAX as u128))
    );
}

#[test]
fn fallback_capacity_subtracts_the_reserve() {
    assert_eq!(fallback_capacity(34_603_008), Err(DiskSetupError::DiskTooSmall));
    assert_eq!(fallback_capacity(0), Err(DiskSetupError::DiskTooSmall));
    assert_eq!(fallback_capacity(34_603_009), Ok(1));
    assert_eq!(fallback_capacity(20 * (1u64 << 30)), Ok(20 * (1u64 << 30) - 34_603_008));
}

#[test]
fn disk_size_is_read_from_trimmed_output() {
    assert_eq!(get_disk_size("21474836480\n"), Ok(21_474_836_480));
    assert_eq!(get_disk_size("  42\t"), Ok(42));
    assert_eq!(get_disk_size(""), Err(DiskSetupError::DiskSizeUnreadable));
    assert_eq!(get_disk_size("12 34"), Err(DiskSetupError::DiskSizeUnreadable));
    assert_eq!(get_disk_size("18446744073709551616"), Err(DiskSetupError::DiskSizeUnreadable));
    assert_eq!(get_disk_size("18446744073709551615"), Ok(u64::MAX));
}
