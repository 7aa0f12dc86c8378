use stratis_backstore::cmd::{
    create_fs, find_binary, set_uuid, thin_check, thin_repair, verify_binaries, xfs_growfs,
    command_outcome, CommandOutput, ExecutableTable, StratBinary, VerifiedExecutables,
    get_executable,
};
use stratis_backstore::errors::StratisError;

fn full_table() -> ExecutableTable {
    // Any existing files serve as stand-ins for the real tools here: the
    // builders only need paths that exist at lookup time.
    ExecutableTable::from_paths(
        Some(String::from("/bin/sh")),
        Some(String::from("/bin/true")),
        Some(String::from("/bin/false")),
        Some(String::from("/bin/cat")),
        Some(String::from("/bin/echo")),
    )
}

fn verified() -> VerifiedExecutables {
    verify_binaries(full_table()).unwrap()
}

#[test]
fn find_binary_locates_a_common_tool() {
    let path = find_binary("sh").expect("sh should be installed somewhere");
    assert!(
        path == "/usr/sbin/sh" || path == "/sbin/sh" || path == "/usr/bin/sh" || path == "/bin/sh"
    );
}

#[test]
fn find_binary_prefers_the_earlier_directory() {
    // `sh` stands in both /usr/bin and /bin on this machine; the earlier
    // directory of the fixed search order wins.
    assert!(std::path::Path::new("/usr/bin/sh").exists());
    assert!(std::path::Path::new("/bin/sh").exists());
    assert_eq!(find_binary("sh").unwrap(), "/usr/bin/sh");
}

#[test]
fn find_binary_misses_an_absent_tool() {
    assert!(find_binary("no-such-tool-anywhere-on-this-machine").is_none());
}

#[test]
fn resolve_searches_the_fixed_directories() {
    let table = ExecutableTable::resolve();
    for entry in [
        &table.mkfs_xfs,
        &table.thin_check,
        &table.thin_repair,
        &table.xfs_admin,
        &table.xfs_growfs,
    ] {
        if let Some(p) = entry {
            assert!(
                p.starts_with("/usr/sbin/")
                    || p.starts_with("/sbin/")
                    || p.starts_with("/usr/bin/")
                    || p.starts_with("/bin/")
            );
        }
    }
}

#[test]
fn verify_binaries_accepts_a_full_table() {
    assert!(verify_binaries(full_table()).is_ok());
}

#[test]
fn verify_binaries_names_the_missing_binary() {
    let mut table = full_table();
    table.thin_repair = None;
    match verify_binaries(table) {
        Err(StratisError::NotFound(msg)) => {
            assert_eq!(msg, "unable to find absolute path for thin_repair");
            assert!(msg.contains("thin_repair"));
        }
        _ => panic!("a missing binary must fail verification with its name"),
    }
}

#[test]
fn verify_binaries_reports_the_first_missing_binary() {
    let mut table = full_table();
    table.mkfs_xfs = None;
    table.xfs_growfs = None;
    match verify_binaries(table) {
        Err(StratisError::NotFound(msg)) => {
            assert_eq!(msg, "unable to find absolute path for mkfs.xfs");
        }
        _ => panic!("verification must stop at the first missing binary"),
    }
}

#[test]
fn get_executable_rechecks_existence() {
    let table = ExecutableTable::from_paths(
        Some(String::from("/bin/sh")),
        Some(String::from("/bin/true")),
        Some(String::from("/no/longer/installed/thin_repair")),
        Some(String::from("/bin/cat")),
        Some(String::from("/bin/echo")),
    );
    let execs = verify_binaries(table).unwrap();
    assert_eq!(
        get_executable(&execs, StratBinary::MkfsXfs).unwrap(),
        "/bin/sh"
    );
    match get_executable(&execs, StratBinary::ThinRepair) {
        Err(StratisError::NotFound(msg)) => {
            assert_eq!(msg, "unable to find absolute path for thin_repair");
        }
        _ => panic!("a binary gone from disk must fail lookup at call time"),
    }
}

#[test]
fn create_fs_builds_the_exact_invocation() {
    let execs = verified();
    let uuid_value: u128 = 0x0123_4567_89ab_cdef_0123_4567_89ab_cdef;
    let spec = create_fs(&execs, "/dev/loop0", uuid_value).unwrap();
    assert_eq!(spec.program, "/bin/sh");
    let expected_uuid = format!("uuid={}", uuid::Uuid::from_u128(uuid_value));
    assert_eq!(
        spec.args,
        vec![
            String::from("-f"),
            String::from("-q"),
            String::from("/dev/loop0"),
            String::from("-m"),
            expected_uuid,
        ]
    );
    assert_eq!(
        spec.failure_context,
        "failed to create new filesystem at /dev/loop0"
    );
}

#[test]
fn set_uuid_builds_the_exact_invocation() {
    let execs = verified();
    let uuid_value: u128 = 7;
    let spec = set_uuid(&execs, "/dev/loop1", uuid_value).unwrap();
    assert_eq!(spec.program, "/bin/cat");
    assert_eq!(
        spec.args,
        vec![
            String::from("-U"),
            uuid::Uuid::from_u128(uuid_value).hyphenated().to_string(),
            String::from("/dev/loop1"),
        ]
    );
    assert_eq!(spec.failure_context, "failed to set uuid for filesystem /dev/loop1");
}

#[test]
fn xfs_growfs_builds_the_exact_invocation() {
    let execs = verified();
    let spec = xfs_growfs(&execs, "/mnt/pool").unwrap();
    assert_eq!(spec.program, "/bin/echo");
    assert_eq!(spec.args, vec![String::from("/mnt/pool"), String::from("-d")]);
    assert_eq!(spec.failure_context, "failed to expand filesystem /mnt/pool");
}

#[test]
fn thin_check_builds_the_exact_invocation() {
    let execs = verified();
    let spec = thin_check(&execs, "/dev/loop2").unwrap();
    assert_eq!(spec.program, "/bin/true");
    assert_eq!(spec.args, vec![String::from("-q"), String::from("/dev/loop2")]);
    assert_eq!(
        spec.failure_context,
        "thin_check for thin pool meta device /dev/loop2 failed"
    );
}

#[test]
fn thin_repair_builds_the_exact_invocation() {
    let execs = verified();
    let spec = thin_repair(&execs, "/dev/loop3", "/dev/loop4").unwrap();
    assert_eq!(spec.program, "/bin/false");
    assert_eq!(
        spec.args,
        vec![
            String::from("-i"),
            String::from("/dev/loop3"),
            String::from("-o"),
            String::from("/dev/loop4"),
        ]
    );
    assert_eq!(
        spec.failure_context,
        "thin_repair of thin pool meta device /dev/loop3 failed"
    );
}

#[test]
fn command_outcome_accepts_a_zero_exit() {
    let output = CommandOutput {
        success: true,
        stdout: String::from("made it"),
        stderr: String::new(),
    };
    assert!(command_outcome(output, "context").is_ok());
}

#[test]
fn command_outcome_embeds_context_and_streams() {
    // A formatter denied write permission fails, and its own diagnostics
    // are carried verbatim in the error.
    let output = CommandOutput {
        success: false,
        stdout: String::new(),
        stderr: String::from("mkfs.xfs: cannot open /dev/loop0: Permission denied"),
    };
    match command_outcome(output, "failed to create new filesystem at /dev/loop0") {
        Err(StratisError::CommandFailed(msg)) => {
            assert_eq!(
                msg,
                "failed to create new filesystem at /dev/loop0 stdout:  stderr: \
                 mkfs.xfs: cannot open /dev/loop0: Permission denied"
            );
            assert!(msg.contains("Permission denied"));
        }
        _ => panic!("a non-zero exit must fail with the captured streams"),
    }
}
