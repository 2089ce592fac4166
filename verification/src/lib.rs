//! Planning and execution rules for a two-partition (EFI + root) disk layout.
//!
//! The library decides; its caller acts. Every outside tool is described by
//! its command line (`tools`), every answer of the user arrives as text, and
//! every stage of a setup is a function from such plain values to a result:
//!
//! - `enumerator`: the disks among the listed block devices, and the choice
//!   of one of them;
//! - `inspector`: whether a disk has a partition table, and whether to
//!   create one;
//! - `surveyor`: the free regions and the size of a disk;
//! - `planner`: the sizes of the two partitions;
//! - `executor`: the creation of the partitions and their names;
//! - `formatter`: the filesystems;
//! - `orchestrator`: the order of the stages.
//!
//! `units`, `table` and `text` render and read numbers and text; `error`
//! holds the failures; `helpers` the rules around a setup.

pub mod enumerator;
pub mod error;
pub mod executor;
pub mod formatter;
pub mod helpers;
pub mod inspector;
pub mod orchestrator;
pub mod planner;
pub mod structs;
pub mod surveyor;
pub mod table;
pub mod text;
pub mod tools;
pub mod units;
