//! Reading what the partitioning tool reports of a disk: its free regions
//! and its size.

use vstd::prelude::*;
use crate::error::DiskSetupError;
use crate::structs::FreeRegion;
use crate::text::{
    chars_of, line_ranges, lines_of, parse_u64_range, parse_u64_spec, pieces, range_equals,
    ranges_within, split_on, split_ranges, strip_trailing, strip_trailing_range, trim, trim_range,
};
use crate::units::{format_bytes, format_bytes_spec};

verus! {

/// A free region smaller than or equal to this many bytes is not reported.
pub const MIN_REGION_BYTES: u64 = 1_048_576;

/// What a free region holds, as plain text and a number.
pub struct FreeRegionView {
    pub start: Seq<char>,
    pub end: Seq<char>,
    pub size: Seq<char>,
    pub size_bytes: u64,
}

impl View for FreeRegion {
    type V = FreeRegionView;

    open spec fn view(&self) -> FreeRegionView {
        FreeRegionView {
            start: self.start@,
            end: self.end@,
            size: self.size@,
            size_bytes: self.size_bytes,
        }
    }
}

impl FreeRegionView {
    /// A region that is reported is larger than the minimum, and its size
    /// text is the rendering of its byte count.
    pub open spec fn wf(self) -> bool {
        &&& self.size_bytes > MIN_REGION_BYTES
        &&& self.size == format_bytes_spec(self.size_bytes)
    }
}

/// The views of a list of regions, in order.
pub open spec fn region_views(regions: Seq<FreeRegion>) -> Seq<FreeRegionView> {
    regions.map_values(|r: FreeRegion| r@)
}

/// The type field of a record of free space.
pub open spec fn free_tag() -> Seq<char> {
    seq!['f', 'r', 'e', 'e']
}

/// The number in a byte field such as `1048576B`, if it is one.
pub open spec fn byte_count(field: Seq<char>) -> Option<u64> {
    parse_u64_spec(strip_trailing(field, 'B'))
}

/// The number in an offset field; 0 where the field holds none.
pub open spec fn offset_of(field: Seq<char>) -> u64 {
    match byte_count(field) {
        Some(n) => n,
        None => 0,
    }
}

/// The free region that one record of the report describes. A record counts
/// when it has at least five fields, the fifth is exactly `free`, and the
/// third is a byte count above the minimum.
pub open spec fn region_of_line(line: Seq<char>) -> Option<FreeRegionView> {
    let parts = split_on(line, ':');
    if parts.len() >= 5 && parts[4] == free_tag() {
        match byte_count(parts[2]) {
            Some(n) => if n > MIN_REGION_BYTES {
                Some(
                    FreeRegionView {
                        start: format_bytes_spec(offset_of(parts[0])),
                        end: format_bytes_spec(offset_of(parts[1])),
                        size: format_bytes_spec(n),
                        size_bytes: n,
                    },
                )
            } else {
                None
            },
            None => None,
        }
    } else {
        None
    }
}

/// A record that is tagged as free space is kept exactly when its size is a
/// byte count above the minimum: one byte more than a mebibyte is kept, a
/// mebibyte is not.
pub proof fn lemma_region_kept(line: Seq<char>)
    requires
        split_on(line, ':').len() >= 5,
        split_on(line, ':')[4] == free_tag(),
    ensures
        region_of_line(line) is Some <==> (byte_count(split_on(line, ':')[2]) matches Some(n)
            && n > MIN_REGION_BYTES),
        byte_count(split_on(line, ':')[2]) == Some(1_048_576u64) ==> region_of_line(line) is None,
        byte_count(split_on(line, ':')[2]) == Some(1_048_577u64) ==> region_of_line(line) is Some,
{
}

/// The regions of a list of records, in the order of the records.
pub open spec fn regions_of_lines(lines: Seq<Seq<char>>) -> Seq<FreeRegionView>
    decreases lines.len(),
{
    if lines.len() == 0 {
        Seq::empty()
    } else {
        let before = regions_of_lines(lines.drop_last());
        match region_of_line(lines.last()) {
            Some(r) => before.push(r),
            None => before,
        }
    }
}

/// The free regions that a report lists.
pub open spec fn free_regions_spec(report: Seq<char>) -> Seq<FreeRegionView> {
    regions_of_lines(lines_of(report))
}

/// Every region of a list of records is well formed: none is as small as
/// the minimum.
pub proof fn lemma_regions_above_minimum(lines: Seq<Seq<char>>)
    ensures
        forall|k: int|
            0 <= k < regions_of_lines(lines).len() ==> (#[trigger] regions_of_lines(lines)[k]).wf(),
    decreases lines.len(),
{
    if lines.len() > 0 {
        lemma_regions_above_minimum(lines.drop_last());
        let before = regions_of_lines(lines.drop_last());
        assert forall|k: int| 0 <= k < regions_of_lines(lines).len() implies (
        #[trigger] regions_of_lines(lines)[k]).wf() by {
            if k < before.len() {
                assert(regions_of_lines(lines)[k] == before[k]);
            } else {
                assert(region_of_line(lines.last()) is Some);
                assert(regions_of_lines(lines)[k] == region_of_line(lines.last())->0);
            }
        }
    }
}

/// Reads the number of the byte field `v[lo..hi]`.
fn read_byte_count(v: &Vec<char>, lo: usize, hi: usize) -> (r: Option<u64>)
    requires
        lo <= hi <= v.len(),
    ensures
        r == byte_count(v@.subrange(lo as int, hi as int)),
{
    let end: usize = strip_trailing_range(v, lo, hi, 'B');
    parse_u64_range(v, lo, end)
}

/// Reads the record `v[lo..hi]`.
fn read_region(v: &Vec<char>, lo: usize, hi: usize) -> (r: Option<FreeRegion>)
    requires
        lo <= hi <= v.len(),
    ensures
        r is Some == region_of_line(v@.subrange(lo as int, hi as int)) is Some,
        r is Some ==> r->0@ == region_of_line(v@.subrange(lo as int, hi as int))->0,
{
    let parts = split_ranges(v, lo, hi, ':');
    let ghost fields = split_on(v@.subrange(lo as int, hi as int), ':');
    assert(pieces(v@, parts@).len() == parts.len());
    if parts.len() < 5 {
        return None;
    }
    let tag: Vec<char> = vec!['f', 'r', 'e', 'e'];
    assert(tag@ =~= free_tag());
    assert(fields[0] == v@.subrange(parts[0].0 as int, parts[0].1 as int));
    assert(fields[1] == v@.subrange(parts[1].0 as int, parts[1].1 as int));
    assert(fields[2] == v@.subrange(parts[2].0 as int, parts[2].1 as int));
    assert(fields[4] == v@.subrange(parts[4].0 as int, parts[4].1 as int));
    if !range_equals(v, parts[4].0, parts[4].1, &tag) {
        return None;
    }
    match read_byte_count(v, parts[2].0, parts[2].1) {
        Some(size_bytes) => {
            if size_bytes > MIN_REGION_BYTES {
                let start: u64 = match read_byte_count(v, parts[0].0, parts[0].1) {
                    Some(n) => n,
                    None => 0,
                };
                let end: u64 = match read_byte_count(v, parts[1].0, parts[1].1) {
                    Some(n) => n,
                    None => 0,
                };
                Some(
                    FreeRegion {
                        start: format_bytes(start),
                        end: format_bytes(end),
                        size: format_bytes(size_bytes),
                        size_bytes,
                    },
                )
            } else {
                None
            }
        },
        None => None,
    }
}

/// Lists the free regions of a disk from the report of its free space: one
/// record per line, fields parted by colons, sizes in bytes. The regions
/// come in the order of the report.
pub fn list_free_regions(report: &str) -> (regions: Vec<FreeRegion>)
    ensures
        region_views(regions@) == free_regions_spec(report@),
        forall|k: int| 0 <= k < regions.len() ==> (#[trigger] regions[k])@.wf(),
{
    let v = chars_of(report);
    let lines = line_ranges(&v);
    let ghost all = lines_of(v@);
    let mut regions: Vec<FreeRegion> = Vec::new();
    let mut k: usize = 0;
    assert(all.take(0) =~= Seq::<Seq<char>>::empty());
    assert(region_views(regions@) =~= Seq::<FreeRegionView>::empty());
    while k < lines.len()
        invariant
            k <= lines.len(),
            ranges_within(lines@, v.len() as int),
            all == pieces(v@, lines@),
            all == lines_of(report@),
            region_views(regions@) == regions_of_lines(all.take(k as int)),
        decreases lines.len() - k,
    {
        let (lo, hi) = lines[k];
        let ghost before = regions@;
        assert(all[k as int] == v@.subrange(lo as int, hi as int));
        assert(all.take(k + 1).drop_last() =~= all.take(k as int));
        assert(all.take(k + 1).last() == all[k as int]);
        match read_region(&v, lo, hi) {
            Some(r) => {
                regions.push(r);
                assert(region_views(regions@) =~= region_views(before).push(r@));
            },
            None => {},
        }
        k += 1;
    }
    assert(all.take(k as int) =~= all);
    proof {
        lemma_regions_above_minimum(all);
        assert forall|j: int| 0 <= j < regions.len() implies (#[trigger] regions[j])@.wf() by {
            assert(region_views(regions@)[j] == regions[j]@);
        }
    }
    regions
}

/// Reads the byte size of a disk from what the size query printed: a whole
/// number, white space around it aside.
pub fn get_disk_size(output: &str) -> (r: Result<u64, DiskSetupError>)
    ensures
        match parse_u64_spec(trim(output@)) {
            Some(n) => r == Ok::<u64, DiskSetupError>(n),
            None => r == Err::<u64, DiskSetupError>(DiskSetupError::DiskSizeUnreadable),
        },
{
    let v = chars_of(output);
    let (lo, hi) = trim_range(&v);
    match parse_u64_range(&v, lo, hi) {
        Some(n) => Ok(n),
        None => Err(DiskSetupError::DiskSizeUnreadable),
    }
}

} // verus!
