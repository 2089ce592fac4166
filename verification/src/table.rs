//! Tables for the terminal: every column as wide as its widest cell, at
//! least as wide as its heading, each cell behind a gutter of two spaces.

use vstd::prelude::*;
use vstd::string::*;
use crate::enumerator::{disk_views, DiskView};
use crate::error::DiskSetupError;
use crate::structs::{Disk, FreeRegion};
use crate::surveyor::{region_views, FreeRegionView};
use crate::text::{append_decimal, decimal};

verus! {

/// The length of a text in bytes, which is what a column's width goes by.
pub open spec fn byte_len(s: Seq<char>) -> usize {
    vstd::utf8::encode_utf8(s).len() as usize
}

/// The width of a column: the byte length of its longest cell, and at
/// least `least`.
pub open spec fn widest(cells: Seq<Seq<char>>, least: usize) -> usize
    decreases cells.len(),
{
    if cells.len() == 0 {
        least
    } else {
        let before = widest(cells.drop_last(), least);
        if byte_len(cells.last()) > before {
            byte_len(cells.last())
        } else {
            before
        }
    }
}

/// `n` spaces.
pub open spec fn spaces(n: nat) -> Seq<char> {
    Seq::new(n, |i: int| ' ')
}

/// A cell in a column: the gutter, the text, and spaces up to the width
/// where the text has fewer characters.
pub open spec fn cell_spec(text: Seq<char>, width: usize) -> Seq<char> {
    if text.len() < width {
        seq![' ', ' '] + text + spaces((width - text.len()) as nat)
    } else {
        seq![' ', ' '] + text
    }
}

/// Appends a cell to a row.
pub fn append_cell(out: &mut String, text: &str, width: usize)
    ensures
        final(out)@ == old(out)@ + cell_spec(text@, width),
{
    proof {
        reveal_strlit("  ");
    }
    out.append("  ");
    out.append(text);
    assert("  "@ =~= seq![' ', ' ']);
    assert(out@ =~= old(out)@ + (seq![' ', ' '] + text@));
    let n: usize = text.unicode_len();
    let mut k: usize = n;
    assert(spaces(0) =~= Seq::<char>::empty());
    while k < width
        invariant
            n == text@.len(),
            n <= k,
            n < width ==> k <= width,
            n >= width ==> k == n,
            out@ == old(out)@ + (seq![' ', ' '] + text@) + spaces((k - n) as nat),
        decreases width - k,
    {
        proof {
            reveal_strlit(" ");
        }
        out.append(" ");
        assert(" "@ =~= seq![' ']);
        assert(spaces((k - n) as nat) + seq![' '] =~= spaces((k + 1 - n) as nat));
        assert(out@ =~= old(out)@ + (seq![' ', ' '] + text@) + spaces((k + 1 - n) as nat));
        k += 1;
    }
    proof {
        if n < width {
            assert(k == width);
            assert(cell_spec(text@, width) =~= (seq![' ', ' '] + text@) + spaces((k - n) as nat));
        } else {
            assert(k == n);
            assert(spaces(0) =~= Seq::<char>::empty());
            assert(cell_spec(text@, width) =~= seq![' ', ' '] + text@);
        }
        assert(out@ =~= old(out)@ + cell_spec(text@, width));
    }
}

/// What stands in the model column: a dash where the model is unknown.
pub open spec fn shown_model(model: Seq<char>) -> Seq<char> {
    if model.len() == 0 {
        seq!['-']
    } else {
        model
    }
}

/// The widths of the device, size and model columns of a table of disks.
pub open spec fn disk_widths(disks: Seq<DiskView>) -> (usize, usize, usize) {
    (
        widest(disks.map_values(|d: DiskView| d.path), 6),
        widest(disks.map_values(|d: DiskView| d.size), 4),
        widest(disks.map_values(|d: DiskView| shown_model(d.model)), 5),
    )
}

/// A row of the table of disks.
pub open spec fn disk_row_spec(
    number: Seq<char>,
    path: Seq<char>,
    size: Seq<char>,
    model: Seq<char>,
    widths: (usize, usize, usize),
) -> Seq<char> {
    cell_spec(number, 3) + cell_spec(path, widths.0) + cell_spec(size, widths.1) + cell_spec(
        model,
        widths.2,
    )
}

/// The heading of the table of disks.
pub open spec fn disk_heading_spec(disks: Seq<DiskView>) -> Seq<char> {
    disk_row_spec("#"@, "Device"@, "Size"@, "Model"@, disk_widths(disks))
}

/// The row of the disk at place `k`, which is numbered `k + 1`.
pub open spec fn disk_line_spec(disks: Seq<DiskView>, k: int) -> Seq<char> {
    disk_row_spec(
        decimal((k + 1) as nat),
        disks[k].path,
        disks[k].size,
        shown_model(disks[k].model),
        disk_widths(disks),
    )
}

fn render_row4(a: &str, b: &str, c: &str, d: &str, widths: (usize, usize, usize)) -> (s: String)
    ensures
        s@ == disk_row_spec(a@, b@, c@, d@, widths),
{
    let mut s = String::new();
    append_cell(&mut s, a, 3);
    append_cell(&mut s, b, widths.0);
    append_cell(&mut s, c, widths.1);
    append_cell(&mut s, d, widths.2);
    assert(s@ =~= disk_row_spec(a@, b@, c@, d@, widths));
    s
}

fn model_text(disk: &Disk) -> (s: &str)
    ensures
        s@ == shown_model(disk.model@),
{
    if disk.model.as_str().is_empty() {
        proof {
            reveal_strlit("-");
        }
        assert("-"@ =~= seq!['-']);
        "-"
    } else {
        disk.model.as_str()
    }
}

fn measure_disks(disks: &Vec<Disk>) -> (w: (usize, usize, usize))
    ensures
        w == disk_widths(disk_views(disks@)),
{
    let ghost views = disk_views(disks@);
    let ghost paths = views.map_values(|d: DiskView| d.path);
    let ghost sizes = views.map_values(|d: DiskView| d.size);
    let ghost models = views.map_values(|d: DiskView| shown_model(d.model));
    let mut w: (usize, usize, usize) = (6, 4, 5);
    let mut i: usize = 0;
    assert(paths.take(0) =~= Seq::<Seq<char>>::empty());
    assert(sizes.take(0) =~= Seq::<Seq<char>>::empty());
    assert(models.take(0) =~= Seq::<Seq<char>>::empty());
    while i < disks.len()
        invariant
            i <= disks.len(),
            views == disk_views(disks@),
            paths == views.map_values(|d: DiskView| d.path),
            sizes == views.map_values(|d: DiskView| d.size),
            models == views.map_values(|d: DiskView| shown_model(d.model)),
            w.0 == widest(paths.take(i as int), 6),
            w.1 == widest(sizes.take(i as int), 4),
            w.2 == widest(models.take(i as int), 5),
        decreases disks.len() - i,
    {
        let d = &disks[i];
        assert(views[i as int] == d@);
        assert(paths.take(i + 1).drop_last() =~= paths.take(i as int));
        assert(sizes.take(i + 1).drop_last() =~= sizes.take(i as int));
        assert(models.take(i + 1).drop_last() =~= models.take(i as int));
        let p: usize = d.path.as_str().len();
        let s: usize = d.size.as_str().len();
        let m: usize = model_text(d).len();
        if p > w.0 {
            w.0 = p;
        }
        if s > w.1 {
            w.1 = s;
        }
        if m > w.2 {
            w.2 = m;
        }
        i += 1;
    }
    assert(paths.take(i as int) =~= paths);
    assert(sizes.take(i as int) =~= sizes);
    assert(models.take(i as int) =~= models);
    w
}

/// Renders the table of disks: the heading, and one numbered row per disk.
/// Without a disk there is no table, and nothing to select.
pub fn disk_table(disks: &Vec<Disk>) -> (r: Result<(String, Vec<String>), DiskSetupError>)
    ensures
        disks.len() == 0 ==> r == Err::<(String, Vec<String>), DiskSetupError>(
            DiskSetupError::NoDisks,
        ),
        disks.len() > 0 ==> r is Ok && ({
            let table = r->Ok_0;
            &&& table.0@ == disk_heading_spec(disk_views(disks@))
            &&& table.1.len() == disks.len()
            &&& forall|k: int|
                0 <= k < disks.len() ==> (#[trigger] table.1[k])@ == disk_line_spec(
                    disk_views(disks@),
                    k,
                )
        }),
{
    if disks.len() == 0 {
        return Err(DiskSetupError::NoDisks);
    }
    let widths = measure_disks(disks);
    let heading = render_row4("#", "Device", "Size", "Model", widths);
    let mut rows: Vec<String> = Vec::new();
    let mut i: usize = 0;
    while i < disks.len()
        invariant
            i <= disks.len(),
            rows.len() == i,
            widths == disk_widths(disk_views(disks@)),
            forall|k: int|
                0 <= k < i ==> (#[trigger] rows[k])@ == disk_line_spec(disk_views(disks@), k),
        decreases disks.len() - i,
    {
        let d = &disks[i];
        assert(disk_views(disks@)[i as int] == d@);
        let mut number = String::new();
        append_decimal(&mut number, i as u128 + 1);
        assert(number@ =~= decimal((i + 1) as nat));
        let row = render_row4(
            number.as_str(),
            d.path.as_str(),
            d.size.as_str(),
            model_text(d),
            widths,
        );
        rows.push(row);
        i += 1;
    }
    Ok((heading, rows))
}

/// The widths of the start, end and size columns of a table of regions.
pub open spec fn region_widths(regions: Seq<FreeRegionView>) -> (usize, usize, usize) {
    (
        widest(regions.map_values(|r: FreeRegionView| r.start), 5),
        widest(regions.map_values(|r: FreeRegionView| r.end), 3),
        widest(regions.map_values(|r: FreeRegionView| r.size), 4),
    )
}

/// A row of the table of regions.
pub open spec fn region_row_spec(
    start: Seq<char>,
    end: Seq<char>,
    size: Seq<char>,
    widths: (usize, usize, usize),
) -> Seq<char> {
    cell_spec(start, widths.0) + cell_spec(end, widths.1) + cell_spec(size, widths.2)
}

/// The heading of the table of regions.
pub open spec fn region_heading_spec(regions: Seq<FreeRegionView>) -> Seq<char> {
    region_row_spec("Start"@, "End"@, "Size"@, region_widths(regions))
}

/// The row of the region at place `k`.
pub open spec fn region_line_spec(regions: Seq<FreeRegionView>, k: int) -> Seq<char> {
    region_row_spec(regions[k].start, regions[k].end, regions[k].size, region_widths(regions))
}

fn render_row3(a: &str, b: &str, c: &str, widths: (usize, usize, usize)) -> (s: String)
    ensures
        s@ == region_row_spec(a@, b@, c@, widths),
{
    let mut s = String::new();
    append_cell(&mut s, a, widths.0);
    append_cell(&mut s, b, widths.1);
    append_cell(&mut s, c, widths.2);
    assert(s@ =~= region_row_spec(a@, b@, c@, widths));
    s
}

fn measure_regions(regions: &Vec<FreeRegion>) -> (w: (usize, usize, usize))
    ensures
        w == region_widths(region_views(regions@)),
{
    let ghost views = region_views(regions@);
    let ghost starts = views.map_values(|r: FreeRegionView| r.start);
    let ghost ends = views.map_values(|r: FreeRegionView| r.end);
    let ghost sizes = views.map_values(|r: FreeRegionView| r.size);
    let mut w: (usize, usize, usize) = (5, 3, 4);
    let mut i: usize = 0;
    assert(starts.take(0) =~= Seq::<Seq<char>>::empty());
    assert(ends.take(0) =~= Seq::<Seq<char>>::empty());
    assert(sizes.take(0) =~= Seq::<Seq<char>>::empty());
    while i < regions.len()
        invariant
            i <= regions.len(),
            views == region_views(regions@),
            starts == views.map_values(|r: FreeRegionView| r.start),
            ends == views.map_values(|r: FreeRegionView| r.end),
            sizes == views.map_values(|r: FreeRegionView| r.size),
            w.0 == widest(starts.take(i as int), 5),
            w.1 == widest(ends.take(i as int), 3),
            w.2 == widest(sizes.take(i as int), 4),
        decreases regions.len() - i,
    {
        let r = &regions[i];
        assert(views[i as int] == r@);
        assert(starts.take(i + 1).drop_last() =~= starts.take(i as int));
        assert(ends.take(i + 1).drop_last() =~= ends.take(i as int));
        assert(sizes.take(i + 1).drop_last() =~= sizes.take(i as int));
        let a: usize = r.start.as_str().len();
        let b: usize = r.end.as_str().len();
        let c: usize = r.size.as_str().len();
        if a > w.0 {
            w.0 = a;
        }
        if b > w.1 {
            w.1 = b;
        }
        if c > w.2 {
            w.2 = c;
        }
        i += 1;
    }
    assert(starts.take(i as int) =~= starts);
    assert(ends.take(i as int) =~= ends);
    assert(sizes.take(i as int) =~= sizes);
    w
}

/// Renders the table of free regions: the heading, and one row per region.
/// Without a region there is no table: the disk's size is shown instead.
pub fn display_free_regions(regions: &Vec<FreeRegion>) -> (r: Option<(String, Vec<String>)>)
    ensures
        regions.len() == 0 ==> r is None,
        regions.len() > 0 ==> r is Some && ({
            let table = r->0;
            &&& table.0@ == region_heading_spec(region_views(regions@))
            &&& table.1.len() == regions.len()
            &&& forall|k: int|
                0 <= k < regions.len() ==> (#[trigger] table.1[k])@ == region_line_spec(
                    region_views(regions@),
                    k,
                )
        }),
{
    if regions.len() == 0 {
        return None;
    }
    let widths = measure_regions(regions);
    let heading = render_row3("Start", "End", "Size", widths);
    let mut rows: Vec<String> = Vec::new();
    let mut i: usize = 0;
    while i < regions.len()
        invariant
            i <= regions.len(),
            rows.len() == i,
            widths == region_widths(region_views(regions@)),
            forall|k: int|
                0 <= k < i ==> (#[trigger] rows[k])@ == region_line_spec(
                    region_views(regions@),
                    k,
                ),
        decreases regions.len() - i,
    {
        let r = &regions[i];
        assert(region_views(regions@)[i as int] == r@);
        let row = render_row3(r.start.as_str(), r.end.as_str(), r.size.as_str(), widths);
        rows.push(row);
        i += 1;
    }
    Some((heading, rows))
}

} // verus!
