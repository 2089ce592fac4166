//! Small rules around a setup: the rights it needs, the tools it needs, the
//! package manager, and what counts as the user's answer.

use vstd::prelude::*;
use vstd::string::*;
use crate::error::DiskSetupError;
use crate::text::{chars_of, trim, trim_range};
use crate::tools::{texts, tool_call, ToolCall};

verus! {

/// The setup needs the rights of root: the effective user must be 0.
pub fn require_root(effective_user: u32) -> (r: Result<(), DiskSetupError>)
    ensures
        effective_user == 0 ==> r == Ok::<(), DiskSetupError>(()),
        effective_user != 0 ==> r == Err::<(), DiskSetupError>(DiskSetupError::NotRoot),
{
    if effective_user == 0 {
        Ok(())
    } else {
        Err(DiskSetupError::NotRoot)
    }
}

/// A tool that was looked for and not found fails the setup, and the
/// failure names the tool.
pub fn ensure_tool_exists(bin: &str, found: bool) -> (r: Result<(), DiskSetupError>)
    ensures
        found ==> r == Ok::<(), DiskSetupError>(()),
        !found ==> (r matches Err(DiskSetupError::ToolMissing { tool }) && tool@ == bin@),
{
    if found {
        Ok(())
    } else {
        Err(DiskSetupError::ToolMissing { tool: String::from_str(bin) })
    }
}

/// What the user answered: the line without white space at either end.
pub fn prompt_user(line: &str) -> (answer: String)
    ensures
        answer@ == trim(line@),
{
    let v = chars_of(line);
    let (lo, hi) = trim_range(&v);
    String::from_str(line.substring_char(lo, hi))
}

/// The command line that refreshes the package databases.
pub open spec fn pacman_sync_argv() -> Seq<Seq<char>> {
    seq!["pacman"@, "-Sy"@]
}

/// Refreshes the package databases.
pub fn pacman_sync() -> (call: ToolCall)
    ensures
        call.argv() == pacman_sync_argv(),
{
    let call = tool_call("pacman", vec!["-Sy"]);
    assert(call.argv() =~= pacman_sync_argv());
    call
}

/// The command line that installs the given packages.
pub open spec fn pacman_install_argv(pkgs: Seq<Seq<char>>) -> Seq<Seq<char>> {
    seq!["pacman"@, "-Sy"@, "--noconfirm"@, "--needed"@] + pkgs
}

/// Installs packages without asking, leaving alone those that are already
/// there. With no package there is nothing to run.
pub fn pacman_install(pkgs: &Vec<String>) -> (call: Option<ToolCall>)
    ensures
        pkgs.len() == 0 ==> call is None,
        pkgs.len() > 0 ==> call is Some && call->0.argv() == pacman_install_argv(texts(pkgs@)),
{
    if pkgs.len() == 0 {
        return None;
    }
    let mut args: Vec<&str> = vec!["-Sy", "--noconfirm", "--needed"];
    let mut i: usize = 0;
    while i < pkgs.len()
        invariant
            i <= pkgs.len(),
            args.len() == 3 + i,
            args[0]@ == "-Sy"@,
            args[1]@ == "--noconfirm"@,
            args[2]@ == "--needed"@,
            forall|j: int| 0 <= j < i ==> (#[trigger] args[3 + j])@ == pkgs[j]@,
        decreases pkgs.len() - i,
    {
        args.push(pkgs[i].as_str());
        i += 1;
    }
    let ghost given = args@;
    let call = tool_call("pacman", args);
    proof {
        let want = pacman_install_argv(texts(pkgs@));
        assert(call.argv().len() == want.len());
        assert forall|k: int| 0 <= k < want.len() implies call.argv()[k] == want[k] by {
            if k >= 4 {
                assert(given[3 + (k - 4)]@ == pkgs[k - 4]@);
            }
        }
        assert(call.argv() =~= want);
    }
    Some(call)
}

} // verus!
