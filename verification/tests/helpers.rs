use sharch::error::{DiskSetupError, ErrorClass};
use sharch::helpers::{ensure_tool_exists, pacman_install, pacman_sync, prompt_user, require_root};

#[test]
fn only_root_may_proceed() {
    assert_eq!(require_root(0), Ok(()));
    assert_eq!(require_root(1000), Err(DiskSetupError::NotRoot));
    assert_eq!(DiskSetupError::NotRoot.class(), ErrorClass::PreconditionFailure);
    assert_eq!(
        DiskSetupError::NotRoot.message(),
        "This operation requires root. Please run with sudo or as root."
    );
}

#[test]
fn a_missing_tool_is_named() {
    assert_eq!(ensure_tool_exists("sgdisk", true), Ok(()));
    let missing = ensure_tool_exists("sgdisk", false).unwrap_err();
    assert_eq!(missing, DiskSetupError::ToolMissing { tool: "sgdisk".to_string() });
    assert_eq!(missing.class(), ErrorClass::ExternalToolFailure);
    assert_eq!(
        missing.message(),
        "Required tool `sgdisk` not found in PATH. Please install it."
    );
}

#[test]
fn answers_are_trimmed() {
    assert_eq!(prompt_user("  yes \n"), "yes");
    assert_eq!(prompt_user("a b"), "a b");
    assert_eq!(prompt_user("\u{3000}é\u{a0}"), "é");
    assert_eq!(prompt_user(" \t "), "");
    assert_eq!(prompt_user(""), "");
}

#[test]
fn packages_are_installed_without_asking() {
    assert_eq!(pacman_install(&Vec::new()), None);
    let call = pacman_install(&vec!["parted".to_string(), "gptfdisk".to_string()]).unwrap();
    assert_eq!(call.program, "pacman");
    assert_eq!(call.args, vec!["-Sy", "--noconfirm", "--needed", "parted", "gptfdisk"]);
    let sync = pacman_sync();
    assert_eq!(sync.program, "pacman");
    assert_eq!(sync.args, vec!["-Sy"]);
}

#[test]
fn white_space_is_what_the_standard_library_trims() {
    for code in 0u32..0x3100 {
        if let Some(c) = char::from_u32(code) {
            let line = format!("{}x{}", c, c);
            assert_eq!(prompt_user(&line), line.trim());
        }
    }
}
