//! Picking the physical disks out of the device listing, and the user's
//! choice among them.

use vstd::prelude::*;
use vstd::string::*;
use crate::error::DiskSetupError;
use crate::structs::{Disk, LsblkNode};
use crate::text::{chars_of, parse_u64_range, parse_u64_spec, trim, trim_range};

verus! {

/// What a disk holds, as plain text.
pub struct DiskView {
    pub name: Seq<char>,
    pub path: Seq<char>,
    pub size: Seq<char>,
    pub model: Seq<char>,
}

impl View for Disk {
    type V = DiskView;

    open spec fn view(&self) -> DiskView {
        DiskView { name: self.name@, path: self.path@, size: self.size@, model: self.model@ }
    }
}

impl DiskView {
    /// The path of a disk is `/dev/` and its name.
    pub open spec fn wf(self) -> bool {
        self.path == "/dev/"@ + self.name
    }
}

/// The views of a list of disks, in order.
pub open spec fn disk_views(disks: Seq<Disk>) -> Seq<DiskView> {
    disks.map_values(|d: Disk| d@)
}

/// A record of the listing stands for a physical disk when its type is
/// exactly `disk`.
pub open spec fn is_disk(node: LsblkNode) -> bool {
    node.dev_type@ == "disk"@
}

/// The disk of a record: its path is `/dev/` and its name, its model is
/// empty where the listing knows none.
pub open spec fn disk_of(node: LsblkNode) -> DiskView {
    DiskView {
        name: node.name@,
        path: "/dev/"@ + node.name@,
        size: node.size@,
        model: match node.model {
            Some(m) => m@,
            None => Seq::empty(),
        },
    }
}

/// The disks among the records of a listing, in the order of the listing.
pub open spec fn disks_of(nodes: Seq<LsblkNode>) -> Seq<DiskView>
    decreases nodes.len(),
{
    if nodes.len() == 0 {
        Seq::empty()
    } else if is_disk(nodes.last()) {
        disks_of(nodes.drop_last()).push(disk_of(nodes.last()))
    } else {
        disks_of(nodes.drop_last())
    }
}

/// Every disk of a listing is well formed, and there are no more disks
/// than records.
pub proof fn lemma_disks_of_listing(nodes: Seq<LsblkNode>)
    ensures
        disks_of(nodes).len() <= nodes.len(),
        forall|k: int| 0 <= k < disks_of(nodes).len() ==> (#[trigger] disks_of(nodes)[k]).wf(),
    decreases nodes.len(),
{
    if nodes.len() > 0 {
        lemma_disks_of_listing(nodes.drop_last());
    }
}

/// Lists the physical disks among the records of the device listing.
/// Partitions, loop devices and all other types are left out.
pub fn list_block_disks(nodes: &Vec<LsblkNode>) -> (disks: Vec<Disk>)
    ensures
        disk_views(disks@) == disks_of(nodes@),
        forall|k: int| 0 <= k < disks.len() ==> (#[trigger] disks[k])@.wf(),
{
    let wanted = String::from_str("disk");
    let mut disks: Vec<Disk> = Vec::new();
    let mut i: usize = 0;
    assert(nodes@.take(0) =~= Seq::<LsblkNode>::empty());
    assert(disk_views(disks@) =~= Seq::<DiskView>::empty());
    while i < nodes.len()
        invariant
            i <= nodes.len(),
            wanted@ == "disk"@,
            disk_views(disks@) == disks_of(nodes@.take(i as int)),
        decreases nodes.len() - i,
    {
        let node = &nodes[i];
        assert(nodes@.take(i + 1).drop_last() =~= nodes@.take(i as int));
        assert(nodes@.take(i + 1).last() == *node);
        if node.dev_type == wanted {
            let mut path = String::from_str("/dev/");
            path.append(node.name.as_str());
            let model = match &node.model {
                Some(m) => m.clone(),
                None => String::new(),
            };
            let disk = Disk { name: node.name.clone(), path, size: node.size.clone(), model };
            let ghost before = disks@;
            disks.push(disk);
            assert(disk_views(disks@) =~= disk_views(before).push(disk_of(*node)));
        }
        i += 1;
    }
    assert(nodes@.take(i as int) =~= nodes@);
    proof {
        lemma_disks_of_listing(nodes@);
        assert forall|j: int| 0 <= j < disks.len() implies (#[trigger] disks[j])@.wf() by {
            assert(disk_views(disks@)[j] == disks[j]@);
        }
    }
    disks
}

/// What an answer to the selection prompt leads to.
#[derive(Debug, Clone, PartialEq, Eq)]
pub enum Selection {
    /// The path of the disk that was chosen.
    Chosen(String),
    /// The answer names no disk: ask again.
    Retry,
}

/// What an answer to the selection prompt leads to, as plain text.
pub enum SelectionView {
    Chosen(Seq<char>),
    Retry,
}

impl View for Selection {
    type V = SelectionView;

    open spec fn view(&self) -> SelectionView {
        match self {
            Selection::Chosen(path) => SelectionView::Chosen(path@),
            Selection::Retry => SelectionView::Retry,
        }
    }
}

/// The outcome of one answer. Without disks there is nothing to select. An
/// answer that is empty but for white space cancels. A number from 1 to the
/// number of disks chooses the disk at that place. Any other answer asks
/// again.
pub open spec fn select_disk_spec(disks: Seq<DiskView>, answer: Seq<char>) -> Result<
    SelectionView,
    DiskSetupError,
> {
    if disks.len() == 0 {
        Err(DiskSetupError::NoDisks)
    } else if trim(answer).len() == 0 {
        Err(DiskSetupError::SelectionCancelled)
    } else {
        match parse_u64_spec(trim(answer)) {
            Some(n) => if 1 <= n <= disks.len() {
                Ok(SelectionView::Chosen(disks[n - 1].path))
            } else {
                Ok(SelectionView::Retry)
            },
            None => Ok(SelectionView::Retry),
        }
    }
}

/// Judges one answer to the selection prompt.
pub fn select_disk_simple(disks: &Vec<Disk>, answer: &str) -> (r: Result<
    Selection,
    DiskSetupError,
>)
    ensures
        r is Ok == select_disk_spec(disk_views(disks@), answer@) is Ok,
        r matches Ok(s) ==> select_disk_spec(disk_views(disks@), answer@) == Ok::<
            SelectionView,
            DiskSetupError,
        >(s@),
        r matches Err(e) ==> select_disk_spec(disk_views(disks@), answer@) == Err::<
            SelectionView,
            DiskSetupError,
        >(e),
{
    if disks.len() == 0 {
        return Err(DiskSetupError::NoDisks);
    }
    let v = chars_of(answer);
    let (lo, hi) = trim_range(&v);
    if lo == hi {
        return Err(DiskSetupError::SelectionCancelled);
    }
    match parse_u64_range(&v, lo, hi) {
        Some(n) => {
            if 1 <= n && n <= disks.len() as u64 {
                let k: usize = (n - 1) as usize;
                assert(disk_views(disks@)[n - 1] == disks[k as int]@);
                Ok(Selection::Chosen(disks[k].path.clone()))
            } else {
                Ok(Selection::Retry)
            }
        },
        None => Ok(Selection::Retry),
    }
}

/// The prompt that asks for a disk.
pub fn selection_prompt(count: usize) -> (s: String)
    ensures
        s@ == "Select disk (1-"@ + crate::text::decimal(count as nat) + ") or ENTER to cancel"@,
{
    let mut s = String::from_str("Select disk (1-");
    crate::text::append_decimal(&mut s, count as u128);
    s.append(") or ENTER to cancel");
    s
}

} // verus!
