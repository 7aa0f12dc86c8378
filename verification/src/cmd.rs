//! The registry of required external binaries and the invocations of them.
//!
//! The engine relies on a fixed set of privileged maintenance tools. Their
//! absolute paths are resolved once, at startup, into an explicit table;
//! verification of that table yields a distinct handle type, the only way
//! to obtain an invocation, so that no command can be built before the
//! binaries were verified. A binary may still be uninstalled while the
//! process runs, so every lookup re-checks existence at call time. The
//! spawning of the process is the caller's; what is built here is the exact
//! program, argument list and failure context of each invocation, and the
//! interpretation of a finished process's captured output.

use vstd::prelude::*;
use vstd::string::StringExecFns;

use crate::errors::{ErrorView, StratisError};

verus! {

/// The external binaries the engine relies on.
#[derive(Debug, PartialEq, Eq, Structural, Clone, Copy, Hash)]
pub enum StratBinary {
    /// Formats a new filesystem.
    MkfsXfs,
    /// Validates thin-provisioning metadata.
    ThinCheck,
    /// Reconstructs thin-provisioning metadata.
    ThinRepair,
    /// Rewrites a filesystem's on-disk identifier.
    XfsAdmin,
    /// Expands a mounted filesystem.
    XfsGrowfs,
}

impl StratBinary {
    /// The file name of the binary.
    pub open spec fn spec_name(&self) -> Seq<char> {
        match self {
            StratBinary::MkfsXfs => "mkfs.xfs"@,
            StratBinary::ThinCheck => "thin_check"@,
            StratBinary::ThinRepair => "thin_repair"@,
            StratBinary::XfsAdmin => "xfs_admin"@,
            StratBinary::XfsGrowfs => "xfs_growfs"@,
        }
    }

    /// The file name of the binary.
    pub fn name(&self) -> (r: &'static str)
        ensures
            r@ == self.spec_name(),
    {
        match self {
            StratBinary::MkfsXfs => "mkfs.xfs",
            StratBinary::ThinCheck => "thin_check",
            StratBinary::ThinRepair => "thin_repair",
            StratBinary::XfsAdmin => "xfs_admin",
            StratBinary::XfsGrowfs => "xfs_growfs",
        }
    }
}

/// The fixed, ordered list of directories searched for a binary:
/// higher-privilege sbin directories before user bin directories.
pub open spec fn search_dir(i: int) -> Seq<char> {
    if i == 0 {
        "/usr/sbin"@
    } else if i == 1 {
        "/sbin"@
    } else if i == 2 {
        "/usr/bin"@
    } else {
        "/bin"@
    }
}

/// The path at which a binary of the given name would stand in search
/// directory `i`.
pub open spec fn candidate_path(i: int, name: Seq<char>) -> Seq<char> {
    search_dir(i) + "/"@ + name
}

/// Whether `p` is one of the paths at which a binary of the given name is
/// searched for.
pub open spec fn is_candidate(p: Seq<char>, name: Seq<char>) -> bool {
    exists|i: int| 0 <= i < 4 && p == candidate_path(i, name)
}

/// Relies on `std::path::Path::exists`: whether a file exists at the path
/// at the moment of the call. The answer reflects the current state of the
/// file system, so nothing is assumed of it.
#[verifier::external_body]
fn path_exists(path: &str) -> bool {
    std::path::Path::new(path).exists()
}

/// Join a search directory and a file name into a candidate path.
fn join_dir(dir: &str, name: &str) -> (r: String)
    ensures
        r@ == dir@ + "/"@ + name@,
{
    String::from_str(dir).concat("/").concat(name)
}

/// A search result, with the path abstracted to a character sequence.
pub open spec fn path_option_view(r: Option<String>) -> Option<Seq<char>> {
    match r {
        Some(p) => Some(p@),
        None => None,
    }
}

/// How a search result corresponds to what the existence check answered
/// for each of the four candidate paths, in order: the first existing
/// candidate wins, and the search comes back empty only when the binary
/// exists in none of the four directories.
pub open spec fn find_binary_matches(found: Seq<bool>, name: Seq<char>, r: Option<Seq<char>>) -> bool {
    &&& found.len() == 4
    &&& match r {
        Some(p) => exists|i: int|
            0 <= i < 4 && #[trigger] found[i] && (forall|j: int| 0 <= j < i ==> !(#[trigger] found[j])) && p
                == candidate_path(i, name),
        None => forall|i: int| 0 <= i < 4 ==> !(#[trigger] found[i]),
    }
}

/// Find the binary with the given name by looking in the fixed list of
/// likely directories; the first directory containing a file of that name
/// wins. Return `None` if no binary was found anywhere.
pub fn find_binary(name: &str) -> (r: Option<String>)
    ensures
        exists|found: Seq<bool>| #[trigger] find_binary_matches(found, name@, path_option_view(r)),
        r matches Some(p) ==> is_candidate(p@, name@),
{
    let c0 = join_dir("/usr/sbin", name);
    if path_exists(c0.as_str()) {
        proof {
            let found = seq![true, false, false, false];
            assert(c0@ == candidate_path(0, name@));
            assert(found[0]);
            assert(find_binary_matches(found, name@, Some(c0@)));
        }
        return Some(c0);
    }
    let c1 = join_dir("/sbin", name);
    if path_exists(c1.as_str()) {
        proof {
            let found = seq![false, true, false, false];
            assert(c1@ == candidate_path(1, name@));
            assert(found[1]);
            assert(find_binary_matches(found, name@, Some(c1@)));
        }
        return Some(c1);
    }
    let c2 = join_dir("/usr/bin", name);
    if path_exists(c2.as_str()) {
        proof {
            let found = seq![false, false, true, false];
            assert(c2@ == candidate_path(2, name@));
            assert(found[2]);
            assert(find_binary_matches(found, name@, Some(c2@)));
        }
        return Some(c2);
    }
    let c3 = join_dir("/bin", name);
    if path_exists(c3.as_str()) {
        proof {
            let found = seq![false, false, false, true];
            assert(c3@ == candidate_path(3, name@));
            assert(found[3]);
            assert(find_binary_matches(found, name@, Some(c3@)));
        }
        return Some(c3);
    }
    proof {
        let found = seq![false, false, false, false];
        assert(find_binary_matches(found, name@, None::<Seq<char>>));
    }
    None
}

/// The resolved location of each required binary: an explicit, immutable
/// configuration value constructed once at startup, `None` where a binary
/// was found nowhere.
pub struct ExecutableTable {
    /// Where `mkfs.xfs` was found, if anywhere.
    pub mkfs_xfs: Option<String>,
    /// Where `thin_check` was found, if anywhere.
    pub thin_check: Option<String>,
    /// Where `thin_repair` was found, if anywhere.
    pub thin_repair: Option<String>,
    /// Where `xfs_admin` was found, if anywhere.
    pub xfs_admin: Option<String>,
    /// Where `xfs_growfs` was found, if anywhere.
    pub xfs_growfs: Option<String>,
}

impl ExecutableTable {
    /// Whether every required binary was found somewhere.
    pub open spec fn all_present(&self) -> bool {
        &&& self.mkfs_xfs is Some
        &&& self.thin_check is Some
        &&& self.thin_repair is Some
        &&& self.xfs_admin is Some
        &&& self.xfs_growfs is Some
    }

    /// The name of the first missing binary, in the table's fixed order.
    pub open spec fn first_missing(&self) -> Seq<char> {
        if self.mkfs_xfs is None {
            "mkfs.xfs"@
        } else if self.thin_check is None {
            "thin_check"@
        } else if self.thin_repair is None {
            "thin_repair"@
        } else if self.xfs_admin is None {
            "xfs_admin"@
        } else {
            "xfs_growfs"@
        }
    }

    /// Search the fixed directories for every required binary: each entry
    /// is the first-match search result for its name.
    pub fn resolve() -> (r: Self)
        ensures
            exists|found: Seq<bool>| #[trigger] find_binary_matches(
                found,
                "mkfs.xfs"@,
                path_option_view(r.mkfs_xfs),
            ),
            exists|found: Seq<bool>| #[trigger] find_binary_matches(
                found,
                "thin_check"@,
                path_option_view(r.thin_check),
            ),
            exists|found: Seq<bool>| #[trigger] find_binary_matches(
                found,
                "thin_repair"@,
                path_option_view(r.thin_repair),
            ),
            exists|found: Seq<bool>| #[trigger] find_binary_matches(
                found,
                "xfs_admin"@,
                path_option_view(r.xfs_admin),
            ),
            exists|found: Seq<bool>| #[trigger] find_binary_matches(
                found,
                "xfs_growfs"@,
                path_option_view(r.xfs_growfs),
            ),
            r.mkfs_xfs matches Some(p) ==> is_candidate(p@, "mkfs.xfs"@),
            r.thin_check matches Some(p) ==> is_candidate(p@, "thin_check"@),
            r.thin_repair matches Some(p) ==> is_candidate(p@, "thin_repair"@),
            r.xfs_admin matches Some(p) ==> is_candidate(p@, "xfs_admin"@),
            r.xfs_growfs matches Some(p) ==> is_candidate(p@, "xfs_growfs"@),
    {
        ExecutableTable {
            mkfs_xfs: find_binary("mkfs.xfs"),
            thin_check: find_binary("thin_check"),
            thin_repair: find_binary("thin_repair"),
            xfs_admin: find_binary("xfs_admin"),
            xfs_growfs: find_binary("xfs_growfs"),
        }
    }

    /// Assemble a table from already-known locations.
    pub fn from_paths(
        mkfs_xfs: Option<String>,
        thin_check: Option<String>,
        thin_repair: Option<String>,
        xfs_admin: Option<String>,
        xfs_growfs: Option<String>,
    ) -> (r: Self)
        ensures
            r == (ExecutableTable { mkfs_xfs, thin_check, thin_repair, xfs_admin, xfs_growfs }),
    {
        ExecutableTable { mkfs_xfs, thin_check, thin_repair, xfs_admin, xfs_growfs }
    }
}

/// The proof that every required binary was present at verification time:
/// only obtainable from a successful `verify_binaries` call, and the only
/// thing an invocation can be built from.
pub struct VerifiedExecutables {
    mkfs_xfs: String,
    thin_check: String,
    thin_repair: String,
    xfs_admin: String,
    xfs_growfs: String,
}

impl VerifiedExecutables {
    /// The verified location of the given binary.
    pub closed spec fn path_of(&self, binary: StratBinary) -> Seq<char> {
        match binary {
            StratBinary::MkfsXfs => self.mkfs_xfs@,
            StratBinary::ThinCheck => self.thin_check@,
            StratBinary::ThinRepair => self.thin_repair@,
            StratBinary::XfsAdmin => self.xfs_admin@,
            StratBinary::XfsGrowfs => self.xfs_growfs@,
        }
    }
}

/// The error message for a binary found nowhere.
pub open spec fn missing_binary_msg(name: Seq<char>) -> Seq<char> {
    "unable to find absolute path for "@ + name
}

/// Build that message.
fn make_missing_binary_msg(name: &str) -> (r: StratisError)
    ensures
        r@ == ErrorView::NotFound(missing_binary_msg(name@)),
{
    StratisError::NotFound(String::from_str("unable to find absolute path for ").concat(name))
}

/// Verify that every binary the engine might invoke is available at some
/// path: required to succeed during startup before anything else runs, and
/// the only source of the handle the invocation builders demand. Fails
/// with the name of the first missing binary, in the table's fixed order,
/// and checks no binary after it.
pub fn verify_binaries(table: ExecutableTable) -> (r: Result<VerifiedExecutables, StratisError>)
    ensures
        r is Ok <==> table.all_present(),
        r matches Ok(v) ==> {
            &&& table.mkfs_xfs matches Some(p) && v.path_of(StratBinary::MkfsXfs) == p@
            &&& table.thin_check matches Some(p) && v.path_of(StratBinary::ThinCheck) == p@
            &&& table.thin_repair matches Some(p) && v.path_of(StratBinary::ThinRepair) == p@
            &&& table.xfs_admin matches Some(p) && v.path_of(StratBinary::XfsAdmin) == p@
            &&& table.xfs_growfs matches Some(p) && v.path_of(StratBinary::XfsGrowfs) == p@
        },
        r matches Err(e) ==> e@ == ErrorView::NotFound(missing_binary_msg(table.first_missing())),
{
    let ExecutableTable { mkfs_xfs, thin_check, thin_repair, xfs_admin, xfs_growfs } = table;
    let mkfs_xfs = match mkfs_xfs {
        Some(p) => p,
        None => {
            return Err(make_missing_binary_msg("mkfs.xfs"));
        },
    };
    let thin_check = match thin_check {
        Some(p) => p,
        None => {
            return Err(make_missing_binary_msg("thin_check"));
        },
    };
    let thin_repair = match thin_repair {
        Some(p) => p,
        None => {
            return Err(make_missing_binary_msg("thin_repair"));
        },
    };
    let xfs_admin = match xfs_admin {
        Some(p) => p,
        None => {
            return Err(make_missing_binary_msg("xfs_admin"));
        },
    };
    let xfs_growfs = match xfs_growfs {
        Some(p) => p,
        None => {
            return Err(make_missing_binary_msg("xfs_growfs"));
        },
    };
    Ok(VerifiedExecutables { mkfs_xfs, thin_check, thin_repair, xfs_admin, xfs_growfs })
}

/// Get the absolute path of the given verified binary, re-checking at call
/// time that it still exists on disk: the binary may have been uninstalled
/// while the process ran, and that is an ordinary, recoverable error.
pub fn get_executable(execs: &VerifiedExecutables, binary: StratBinary) -> (r: Result<
    String,
    StratisError,
>)
    ensures
        r matches Ok(p) ==> p@ == execs.path_of(binary),
        r matches Err(e) ==> e@ == ErrorView::NotFound(missing_binary_msg(binary.spec_name())),
{
    let path = match binary {
        StratBinary::MkfsXfs => &execs.mkfs_xfs,
        StratBinary::ThinCheck => &execs.thin_check,
        StratBinary::ThinRepair => &execs.thin_repair,
        StratBinary::XfsAdmin => &execs.xfs_admin,
        StratBinary::XfsGrowfs => &execs.xfs_growfs,
    };
    if path_exists(path.as_str()) {
        Ok(path.clone())
    } else {
        Err(make_missing_binary_msg(binary.name()))
    }
}

/// The canonical textual form of a 128-bit UUID value.
pub uninterp spec fn uuid_hyphenated(value: u128) -> Seq<char>;

/// Relies on `uuid::Uuid::from_u128` and its hyphenated formatter: the
/// canonical textual form of a UUID, 36 characters, lowercase hexadecimal
/// digits in five hyphen-separated groups; a function of the 128-bit value
/// alone.
#[verifier::external_body]
fn format_uuid(value: u128) -> (r: String)
    ensures
        r@ == uuid_hyphenated(value),
        r@.len() == 36,
{
    uuid::Uuid::from_u128(value).hyphenated().to_string()
}

/// One invocation of an external tool, ready to be spawned by the caller:
/// the program's absolute path, its arguments in order, and the diagnostic
/// context to embed in the error should the tool fail.
pub struct CommandSpec {
    /// The absolute path of the program to spawn.
    pub program: String,
    /// The arguments, in order.
    pub args: Vec<String>,
    /// The caller-supplied diagnostic context for a failure.
    pub failure_context: String,
}

impl CommandSpec {
    /// The arguments, abstracted to character sequences.
    pub open spec fn args_view(&self) -> Seq<Seq<char>> {
        Seq::new(self.args@.len(), |i: int| self.args@[i]@)
    }
}

/// What a finished external process came back with: whether it exited with
/// status zero, and its captured output streams as text.
pub struct CommandOutput {
    /// Whether the exit status was zero.
    pub success: bool,
    /// The captured standard output.
    pub stdout: String,
    /// The captured standard error.
    pub stderr: String,
}

/// The message of a failed command: the caller's context plus both
/// captured streams verbatim — the tool's own diagnostics are the only
/// explanation available, and losing them would make failures unactionable.
pub open spec fn command_failure_msg(context: Seq<char>, out: Seq<char>, err: Seq<char>) -> Seq<
    char,
> {
    context + " stdout: "@ + out + " stderr: "@ + err
}

/// Interpret a finished command: success is exit status zero and nothing
/// else; any other exit fails with the diagnostic context and both
/// captured streams. No retry: these tools are not idempotent-safe to
/// blindly re-run, so retry decisions stay with the caller.
pub fn command_outcome(output: CommandOutput, failure_context: &str) -> (r: Result<
    (),
    StratisError,
>)
    ensures
        output.success <==> r is Ok,
        !output.success ==> (r matches Err(e) && e@ == ErrorView::CommandFailed(
            command_failure_msg(failure_context@, output.stdout@, output.stderr@),
        )),
{
    if output.success {
        Ok(())
    } else {
        Err(
            StratisError::CommandFailed(
                String::from_str(failure_context).concat(" stdout: ").concat(
                    output.stdout.as_str(),
                ).concat(" stderr: ").concat(output.stderr.as_str()),
            ),
        )
    }
}

/// Build the invocation that creates a filesystem on `devnode`, force and
/// quiet, with the given identifier embedded.
pub fn create_fs(execs: &VerifiedExecutables, devnode: &str, uuid: u128) -> (r: Result<
    CommandSpec,
    StratisError,
>)
    ensures
        r matches Ok(c) ==> {
            &&& c.program@ == execs.path_of(StratBinary::MkfsXfs)
            &&& c.args_view() =~= seq![
                "-f"@,
                "-q"@,
                devnode@,
                "-m"@,
                "uuid="@ + uuid_hyphenated(uuid),
            ]
            &&& c.failure_context@ == "failed to create new filesystem at "@ + devnode@
        },
        r matches Err(e) ==> e@ == ErrorView::NotFound(missing_binary_msg("mkfs.xfs"@)),
{
    let program = match get_executable(execs, StratBinary::MkfsXfs) {
        Ok(p) => p,
        Err(e) => {
            return Err(e);
        },
    };
    let mut args: Vec<String> = Vec::new();
    args.push(String::from_str("-f"));
    args.push(String::from_str("-q"));
    args.push(String::from_str(devnode));
    args.push(String::from_str("-m"));
    args.push(String::from_str("uuid=").concat(format_uuid(uuid).as_str()));
    Ok(
        CommandSpec {
            program,
            args,
            failure_context: String::from_str("failed to create new filesystem at ").concat(
                devnode,
            ),
        },
    )
}

/// Build the invocation that expands the filesystem mounted at
/// `mount_point` to fill its backing device.
pub fn xfs_growfs(execs: &VerifiedExecutables, mount_point: &str) -> (r: Result<
    CommandSpec,
    StratisError,
>)
    ensures
        r matches Ok(c) ==> {
            &&& c.program@ == execs.path_of(StratBinary::XfsGrowfs)
            &&& c.args_view() =~= seq![mount_point@, "-d"@]
            &&& c.failure_context@ == "failed to expand filesystem "@ + mount_point@
        },
        r matches Err(e) ==> e@ == ErrorView::NotFound(missing_binary_msg("xfs_growfs"@)),
{
    let program = match get_executable(execs, StratBinary::XfsGrowfs) {
        Ok(p) => p,
        Err(e) => {
            return Err(e);
        },
    };
    let mut args: Vec<String> = Vec::new();
    args.push(String::from_str(mount_point));
    args.push(String::from_str("-d"));
    Ok(
        CommandSpec {
            program,
            args,
            failure_context: String::from_str("failed to expand filesystem ").concat(mount_point),
        },
    )
}

/// Build the invocation that rewrites the on-disk identifier of the
/// filesystem on `devnode` without reformatting it.
pub fn set_uuid(execs: &VerifiedExecutables, devnode: &str, uuid: u128) -> (r: Result<
    CommandSpec,
    StratisError,
>)
    ensures
        r matches Ok(c) ==> {
            &&& c.program@ == execs.path_of(StratBinary::XfsAdmin)
            &&& c.args_view() =~= seq!["-U"@, uuid_hyphenated(uuid), devnode@]
            &&& c.failure_context@ == "failed to set uuid for filesystem "@ + devnode@
        },
        r matches Err(e) ==> e@ == ErrorView::NotFound(missing_binary_msg("xfs_admin"@)),
{
    let program = match get_executable(execs, StratBinary::XfsAdmin) {
        Ok(p) => p,
        Err(e) => {
            return Err(e);
        },
    };
    let mut args: Vec<String> = Vec::new();
    args.push(String::from_str("-U"));
    args.push(format_uuid(uuid));
    args.push(String::from_str(devnode));
    Ok(
        CommandSpec {
            program,
            args,
            failure_context: String::from_str("failed to set uuid for filesystem ").concat(
                devnode,
            ),
        },
    )
}

/// Build the invocation that validates the thin-provisioning metadata
/// device `devnode`, quiet.
pub fn thin_check(execs: &VerifiedExecutables, devnode: &str) -> (r: Result<
    CommandSpec,
    StratisError,
>)
    ensures
        r matches Ok(c) ==> {
            &&& c.program@ == execs.path_of(StratBinary::ThinCheck)
            &&& c.args_view() =~= seq!["-q"@, devnode@]
            &&& c.failure_context@ == "thin_check for thin pool meta device "@ + devnode@
                + " failed"@
        },
        r matches Err(e) ==> e@ == ErrorView::NotFound(missing_binary_msg("thin_check"@)),
{
    let program = match get_executable(execs, StratBinary::ThinCheck) {
        Ok(p) => p,
        Err(e) => {
            return Err(e);
        },
    };
    let mut args: Vec<String> = Vec::new();
    args.push(String::from_str("-q"));
    args.push(String::from_str(devnode));
    Ok(
        CommandSpec {
            program,
            args,
            failure_context: String::from_str("thin_check for thin pool meta device ").concat(
                devnode,
            ).concat(" failed"),
        },
    )
}

/// Build the invocation that reconstructs thin-provisioning metadata from
/// `meta_dev` into `new_meta_dev`.
pub fn thin_repair(execs: &VerifiedExecutables, meta_dev: &str, new_meta_dev: &str) -> (r: Result<
    CommandSpec,
    StratisError,
>)
    ensures
        r matches Ok(c) ==> {
            &&& c.program@ == execs.path_of(StratBinary::ThinRepair)
            &&& c.args_view() =~= seq!["-i"@, meta_dev@, "-o"@, new_meta_dev@]
            &&& c.failure_context@ == "thin_repair of thin pool meta device "@ + meta_dev@
                + " failed"@
        },
        r matches Err(e) ==> e@ == ErrorView::NotFound(missing_binary_msg("thin_repair"@)),
{
    let program = match get_executable(execs, StratBinary::ThinRepair) {
        Ok(p) => p,
        Err(e) => {
            return Err(e);
        },
    };
    let mut args: Vec<String> = Vec::new();
    args.push(String::from_str("-i"));
    args.push(String::from_str(meta_dev));
    args.push(String::from_str("-o"));
    args.push(String::from_str(new_meta_dev));
    Ok(
        CommandSpec {
            program,
            args,
            failure_context: String::from_str("thin_repair of thin pool meta device ").concat(
                meta_dev,
            ).concat(" failed"),
        },
    )
}

} // verus!
