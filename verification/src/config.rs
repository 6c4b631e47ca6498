//! The layered configuration: a primary record merged over a defaults
//! record, with every relative path joined onto the directory it was named
//! in, and the runtime options a harness sets programmatically.
//!
//! The loaders mirror the on-disk records field for field; the embedding
//! application parses the record text and hands the loaders in. Merging,
//! defaulting and validation all happen here, under contract: a missing
//! mandatory field is reported as the error naming it, and no configuration
//! object is constructed.

use vstd::prelude::*;

verus! {

/// Default size of the auxiliary page.
pub const DEFAULT_AUX_BUFFER_SIZE: usize = 4096;

/// The primary record's value wins; the defaults record fills the gaps.
pub open spec fn spec_or<T>(a: Option<T>, b: Option<T>) -> Option<T> {
    if a is Some {
        a
    } else {
        b
    }
}

/// Merges one optional field of the primary record over the defaults record.
pub fn opt_or<T>(a: Option<T>, b: Option<T>) -> (r: Option<T>)
    ensures
        r == spec_or(a, b),
{
    match a {
        Some(x) => Some(x),
        None => b,
    }
}

/// An absolute path starts with a slash.
pub open spec fn spec_is_absolute(p: Seq<char>) -> bool {
    p.len() > 0 && p[0] == '/'
}

/// A path as seen from a base directory: an absolute path stands as it is,
/// a relative one is joined onto the base with a slash.
pub open spec fn spec_abs(base: Seq<char>, p: Seq<char>) -> Seq<char> {
    if spec_is_absolute(p) {
        p
    } else {
        base + seq!['/'] + p
    }
}

/// Joins a possibly-relative path onto a base directory. The join is
/// lexical; resolving symlinks or dot segments is left to the caller that
/// touches the file system.
pub fn into_absolute_path(base: &str, path: String) -> (r: String)
    ensures
        r@ == spec_abs(base@, path@),
{
    proof {
        reveal_strlit("/");
    }
    let n = path.as_str().unicode_len();
    if n > 0 && path.as_str().get_char(0) == '/' {
        path
    } else {
        let mut r = base.to_owned();
        r.append("/");
        r.append(path.as_str());
        proof {
            assert("/"@ =~= seq!['/']);
        }
        r
    }
}

/// A missing mandatory field or a conflicting record, named.
#[derive(Clone, Copy, Debug, PartialEq, Eq, Structural)]
pub enum ConfigError {
    MissingQemuBinary,
    MissingKernel,
    MissingRamfs,
    MissingHda,
    MissingPresnapshot,
    MissingSnapshotPath,
    MissingDebug,
    ConflictingRunner,
    MissingSeedPath,
    MissingWorkdirPath,
    MissingBitmapSize,
    MissingMemLimit,
    MissingTimeLimit,
    MissingDict,
    MissingSnapshotPlacement,
}

/// One instruction-pointer filter range; active only when both ends are
/// non-zero.
#[derive(Clone, Copy, Debug, PartialEq, Eq, Structural)]
pub struct IptFilter {
    pub a: u64,
    pub b: u64,
}

/// A time limit in whole seconds and the microseconds below a second.
#[derive(Clone, Copy, Debug, PartialEq, Eq, Structural)]
pub struct TimeSpec {
    pub secs: u64,
    pub micros: u32,
}

/// Boot configuration for a kernel/initrd VM, merged and made absolute.
#[derive(Clone, Debug)]
pub struct QemuKernelConfig {
    pub qemu_binary: String,
    pub kernel: String,
    pub ramfs: String,
    pub debug: bool,
}

/// The kernel/initrd record as it stands on disk: every field optional.
#[derive(Clone, Debug)]
pub struct QemuKernelConfigLoader {
    pub qemu_binary: Option<String>,
    pub kernel: Option<String>,
    pub ramfs: Option<String>,
    pub debug: Option<bool>,
}

/// Every mandatory field of a kernel boot is present after the merge.
pub open spec fn spec_kernel_ok(
    default: QemuKernelConfigLoader,
    config: QemuKernelConfigLoader,
) -> bool {
    &&& spec_or(config.qemu_binary, default.qemu_binary) is Some
    &&& spec_or(config.kernel, default.kernel) is Some
    &&& spec_or(config.ramfs, default.ramfs) is Some
    &&& spec_or(config.debug, default.debug) is Some
}

/// The kernel boot configuration that merging the records yields: the
/// primary record wins field by field, and each path is joined onto the
/// defaults directory.
pub open spec fn spec_kernel_merged(
    folder: Seq<char>,
    default: QemuKernelConfigLoader,
    config: QemuKernelConfigLoader,
    c: QemuKernelConfig,
) -> bool {
    &&& c.qemu_binary@ == spec_abs(folder, spec_or(config.qemu_binary, default.qemu_binary)->0@)
    &&& c.kernel@ == spec_abs(folder, spec_or(config.kernel, default.kernel)->0@)
    &&& c.ramfs@ == spec_abs(folder, spec_or(config.ramfs, default.ramfs)->0@)
    &&& c.debug == spec_or(config.debug, default.debug)->0
}

impl QemuKernelConfig {
    /// Merges the primary record over the defaults record and joins each
    /// path onto the defaults directory. Every field is mandatory after the
    /// merge; the first missing one is reported.
    pub fn new_from_loader(
        default_config_folder: &str,
        default: QemuKernelConfigLoader,
        config: QemuKernelConfigLoader,
    ) -> (r: Result<Self, ConfigError>)
        ensures
            r is Ok <==> spec_kernel_ok(default, config),
            r matches Ok(c) ==> spec_kernel_merged(default_config_folder@, default, config, c),
            spec_or(config.qemu_binary, default.qemu_binary) is None ==> r == Err::<QemuKernelConfig, ConfigError>(ConfigError::MissingQemuBinary),
            spec_or(config.qemu_binary, default.qemu_binary) is Some && spec_or(
                config.kernel,
                default.kernel,
            ) is None ==> r == Err::<QemuKernelConfig, ConfigError>(ConfigError::MissingKernel),
            spec_or(config.qemu_binary, default.qemu_binary) is Some && spec_or(
                config.kernel,
                default.kernel,
            ) is Some && spec_or(config.ramfs, default.ramfs) is None ==> r == Err::<
                QemuKernelConfig,
                ConfigError,
            >(ConfigError::MissingRamfs),
            spec_or(config.qemu_binary, default.qemu_binary) is Some && spec_or(
                config.kernel,
                default.kernel,
            ) is Some && spec_or(config.ramfs, default.ramfs) is Some && spec_or(
                config.debug,
                default.debug,
            ) is None ==> r == Err::<QemuKernelConfig, ConfigError>(ConfigError::MissingDebug),
    {
        let qemu_binary = match opt_or(config.qemu_binary, default.qemu_binary) {
            Some(x) => x,
            None => { return Err(ConfigError::MissingQemuBinary) },
        };
        let kernel = match opt_or(config.kernel, default.kernel) {
            Some(x) => x,
            None => { return Err(ConfigError::MissingKernel) },
        };
        let ramfs = match opt_or(config.ramfs, default.ramfs) {
            Some(x) => x,
            None => { return Err(ConfigError::MissingRamfs) },
        };
        let debug = match opt_or(config.debug, default.debug) {
            Some(x) => x,
            None => { return Err(ConfigError::MissingDebug) },
        };
        Ok(
            QemuKernelConfig {
                qemu_binary: into_absolute_path(default_config_folder, qemu_binary),
                kernel: into_absolute_path(default_config_folder, kernel),
                ramfs: into_absolute_path(default_config_folder, ramfs),
                debug,
            },
        )
    }
}

/// Where the root snapshot comes from or goes to.
#[derive(Clone, Debug)]
pub enum SnapshotPath {
    Reuse(String),
    Create(String),
    DefaultPath,
}

/// Boot configuration for a disk-image VM, merged and made absolute.
#[derive(Clone, Debug)]
pub struct QemuSnapshotConfig {
    pub qemu_binary: String,
    pub hda: String,
    pub presnapshot: String,
    pub snapshot_path: SnapshotPath,
    pub debug: bool,
}

/// The disk-image record as it stands on disk: every field optional.
#[derive(Clone, Debug)]
pub struct QemuSnapshotConfigLoader {
    pub qemu_binary: Option<String>,
    pub hda: Option<String>,
    pub presnapshot: Option<String>,
    pub snapshot_path: Option<SnapshotPath>,
    pub debug: Option<bool>,
}

/// Every mandatory field of a disk boot is present after the merge.
pub open spec fn spec_snapshot_ok(
    default: QemuSnapshotConfigLoader,
    config: QemuSnapshotConfigLoader,
) -> bool {
    &&& spec_or(config.qemu_binary, default.qemu_binary) is Some
    &&& spec_or(config.hda, default.hda) is Some
    &&& spec_or(config.presnapshot, default.presnapshot) is Some
    &&& spec_or(config.snapshot_path, default.snapshot_path) is Some
    &&& spec_or(config.debug, default.debug) is Some
}

/// The disk boot configuration that merging the records yields.
pub open spec fn spec_snapshot_merged(
    folder: Seq<char>,
    default: QemuSnapshotConfigLoader,
    config: QemuSnapshotConfigLoader,
    c: QemuSnapshotConfig,
) -> bool {
    &&& c.qemu_binary@ == spec_abs(folder, spec_or(config.qemu_binary, default.qemu_binary)->0@)
    &&& c.hda@ == spec_abs(folder, spec_or(config.hda, default.hda)->0@)
    &&& c.presnapshot@ == spec_abs(folder, spec_or(config.presnapshot, default.presnapshot)->0@)
    &&& c.snapshot_path == spec_or(config.snapshot_path, default.snapshot_path)->0
    &&& c.debug == spec_or(config.debug, default.debug)->0
}

impl QemuSnapshotConfig {
    /// Merges the primary record over the defaults record and joins each
    /// path onto the defaults directory. Every field is mandatory after the
    /// merge; the first missing one is reported.
    pub fn new_from_loader(
        default_config_folder: &str,
        default: QemuSnapshotConfigLoader,
        config: QemuSnapshotConfigLoader,
    ) -> (r: Result<Self, ConfigError>)
        ensures
            r is Ok <==> spec_snapshot_ok(default, config),
            r matches Ok(c) ==> spec_snapshot_merged(default_config_folder@, default, config, c),
            spec_or(config.qemu_binary, default.qemu_binary) is None ==> r == Err::<
                QemuSnapshotConfig,
                ConfigError,
            >(ConfigError::MissingQemuBinary),
            spec_or(config.qemu_binary, default.qemu_binary) is Some && spec_or(
                config.hda,
                default.hda,
            ) is None ==> r == Err::<QemuSnapshotConfig, ConfigError>(ConfigError::MissingHda),
            spec_or(config.qemu_binary, default.qemu_binary) is Some && spec_or(
                config.hda,
                default.hda,
            ) is Some && spec_or(config.presnapshot, default.presnapshot) is None ==> r == Err::<
                QemuSnapshotConfig,
                ConfigError,
            >(ConfigError::MissingPresnapshot),
            spec_or(config.qemu_binary, default.qemu_binary) is Some && spec_or(
                config.hda,
                default.hda,
            ) is Some && spec_or(config.presnapshot, default.presnapshot) is Some && spec_or(
                config.snapshot_path,
                default.snapshot_path,
            ) is None ==> r == Err::<QemuSnapshotConfig, ConfigError>(
                ConfigError::MissingSnapshotPath,
            ),
            spec_or(config.qemu_binary, default.qemu_binary) is Some && spec_or(
                config.hda,
                default.hda,
            ) is Some && spec_or(config.presnapshot, default.presnapshot) is Some && spec_or(
                config.snapshot_path,
                default.snapshot_path,
            ) is Some && spec_or(config.debug, default.debug) is None ==> r == Err::<
                QemuSnapshotConfig,
                ConfigError,
            >(ConfigError::MissingDebug),
    {
        let qemu_binary = match opt_or(config.qemu_binary, default.qemu_binary) {
            Some(x) => x,
            None => { return Err(ConfigError::MissingQemuBinary) },
        };
        let hda = match opt_or(config.hda, default.hda) {
            Some(x) => x,
            None => { return Err(ConfigError::MissingHda) },
        };
        let presnapshot = match opt_or(config.presnapshot, default.presnapshot) {
            Some(x) => x,
            None => { return Err(ConfigError::MissingPresnapshot) },
        };
        let snapshot_path = match opt_or(config.snapshot_path, default.snapshot_path) {
            Some(x) => x,
            None => { return Err(ConfigError::MissingSnapshotPath) },
        };
        let debug = match opt_or(config.debug, default.debug) {
            Some(x) => x,
            None => { return Err(ConfigError::MissingDebug) },
        };
        Ok(
            QemuSnapshotConfig {
                qemu_binary: into_absolute_path(default_config_folder, qemu_binary),
                hda: into_absolute_path(default_config_folder, hda),
                presnapshot: into_absolute_path(default_config_folder, presnapshot),
                snapshot_path,
                debug,
            },
        )
    }
}

/// The two ways the VM can boot.
#[derive(Clone, Debug)]
pub enum FuzzRunnerConfig {
    QemuKernel(QemuKernelConfig),
    QemuSnapshot(QemuSnapshotConfig),
}

/// The runner record as it stands on disk.
#[derive(Clone, Debug)]
pub enum FuzzRunnerConfigLoader {
    QemuKernel(QemuKernelConfigLoader),
    QemuSnapshot(QemuSnapshotConfigLoader),
}

/// The record of a fork-server runner, kept for record compatibility; this
/// controller does not launch one.
#[derive(Clone, Debug)]
pub struct ForkServerConfigLoader {
    pub args: Option<Vec<String>>,
    pub hide_output: Option<bool>,
    pub input_size: Option<usize>,
    pub env: Option<Vec<String>>,
}

/// The records describe the same kind of boot and every mandatory field is
/// present after the merge.
pub open spec fn spec_runner_ok(
    default: FuzzRunnerConfigLoader,
    config: FuzzRunnerConfigLoader,
) -> bool {
    match (default, config) {
        (FuzzRunnerConfigLoader::QemuKernel(d), FuzzRunnerConfigLoader::QemuKernel(c)) => {
            spec_kernel_ok(d, c)
        },
        (FuzzRunnerConfigLoader::QemuSnapshot(d), FuzzRunnerConfigLoader::QemuSnapshot(c)) => {
            spec_snapshot_ok(d, c)
        },
        _ => false,
    }
}

/// The runner configuration that merging the records yields: the same kind
/// of boot, merged field by field.
pub open spec fn spec_runner_merged(
    folder: Seq<char>,
    default: FuzzRunnerConfigLoader,
    config: FuzzRunnerConfigLoader,
    out: FuzzRunnerConfig,
) -> bool {
    match (default, config) {
        (FuzzRunnerConfigLoader::QemuKernel(d), FuzzRunnerConfigLoader::QemuKernel(c)) => {
            match out {
                FuzzRunnerConfig::QemuKernel(k) => spec_kernel_merged(folder, d, c, k),
                _ => false,
            }
        },
        (FuzzRunnerConfigLoader::QemuSnapshot(d), FuzzRunnerConfigLoader::QemuSnapshot(c)) => {
            match out {
                FuzzRunnerConfig::QemuSnapshot(s) => spec_snapshot_merged(folder, d, c, s),
                _ => false,
            }
        },
        _ => false,
    }
}

impl FuzzRunnerConfig {
    /// Merges the primary runner record over the defaults record. The two
    /// records must describe the same kind of boot.
    pub fn new_from_loader(
        default_config_folder: &str,
        default: FuzzRunnerConfigLoader,
        config: FuzzRunnerConfigLoader,
    ) -> (r: Result<Self, ConfigError>)
        ensures
            r is Ok <==> spec_runner_ok(default, config),
            r matches Ok(k) ==> spec_runner_merged(default_config_folder@, default, config, k),
            default is QemuKernel && config is QemuSnapshot ==> r == Err::<
                FuzzRunnerConfig,
                ConfigError,
            >(ConfigError::ConflictingRunner),
            default is QemuSnapshot && config is QemuKernel ==> r == Err::<
                FuzzRunnerConfig,
                ConfigError,
            >(ConfigError::ConflictingRunner),
    {
        match (default, config) {
            (FuzzRunnerConfigLoader::QemuKernel(d), FuzzRunnerConfigLoader::QemuKernel(c)) => {
                match QemuKernelConfig::new_from_loader(default_config_folder, d, c) {
                    Ok(x) => Ok(FuzzRunnerConfig::QemuKernel(x)),
                    Err(e) => Err(e),
                }
            },
            (FuzzRunnerConfigLoader::QemuSnapshot(d), FuzzRunnerConfigLoader::QemuSnapshot(c)) => {
                match QemuSnapshotConfig::new_from_loader(default_config_folder, d, c) {
                    Ok(x) => Ok(FuzzRunnerConfig::QemuSnapshot(x)),
                    Err(e) => Err(e),
                }
            },
            _ => Err(ConfigError::ConflictingRunner),
        }
    }
}

/// Where in the run incremental snapshots are taken.
#[derive(Clone, Copy, Debug, PartialEq, Eq, Structural)]
pub enum SnapshotPlacement {
    Disabled,
    Balanced,
    Aggressive,
}

/// The fuzzer half of the configuration, merged and defaulted.
#[derive(Clone, Debug)]
pub struct FuzzerConfig {
    pub spec_path: String,
    pub workdir_path: String,
    pub bitmap_size: usize,
    pub input_buffer_size: usize,
    pub mem_limit: usize,
    pub time_limit: TimeSpec,
    pub seed_path: Option<String>,
    pub dict: Vec<Vec<u8>>,
    pub snapshot_placement: SnapshotPlacement,
    pub dump_python_code_for_inputs: Option<bool>,
    pub exit_after_first_crash: bool,
    pub write_protected_input_buffer: bool,
    pub cow_primary_size: Option<u64>,
    pub ipt_filters: [IptFilter; 4],
}

/// The fuzzer record as it stands on disk.
#[derive(Clone, Debug)]
pub struct FuzzerConfigLoader {
    pub write_protected_input_buffer: bool,
    pub cow_primary_size: u64,
    pub ip0: IptFilter,
    pub ip1: IptFilter,
    pub ip2: IptFilter,
    pub ip3: IptFilter,
    pub workdir_path: Option<String>,
    pub bitmap_size: Option<usize>,
    pub input_buffer_size: usize,
    pub mem_limit: Option<usize>,
    pub time_limit: Option<TimeSpec>,
    pub target_binary: Option<String>,
    pub threads: Option<usize>,
    pub thread_id: Option<usize>,
    pub cpu_pin_start_at: Option<usize>,
    pub seed_path: Option<String>,
    pub dict: Option<Vec<Vec<u8>>>,
    pub snapshot_placement: Option<SnapshotPlacement>,
    pub dump_python_code_for_inputs: Option<bool>,
    pub exit_after_first_crash: Option<bool>,
}

/// Record default: the input region starts at 128 KiB.
pub fn default_input_buffer_size() -> (r: usize)
    ensures
        r == 0x20000,
{
    0x20000
}

/// Record default: the input region is not write-protected.
pub fn default_write_protected_input_buffer() -> (r: bool)
    ensures
        r == false,
{
    false
}

/// Record default: no copy-on-write primary size is set.
pub fn default_cow_primary_size() -> (r: u64)
    ensures
        r == 0,
{
    0
}

/// Record default: an instruction-pointer filter with both ends zero is
/// disabled.
pub fn default_ipt_filter() -> (r: IptFilter)
    ensures
        r == (IptFilter { a: 0, b: 0 }),
{
    IptFilter { a: 0, b: 0 }
}

/// Every mandatory fuzzer field is present after the merge.
pub open spec fn spec_fuzzer_ok(default: FuzzerConfigLoader, config: FuzzerConfigLoader) -> bool {
    &&& spec_or(config.seed_path, default.seed_path) is Some
    &&& spec_or(config.workdir_path, default.workdir_path) is Some
    &&& spec_or(config.bitmap_size, default.bitmap_size) is Some
    &&& spec_or(config.mem_limit, default.mem_limit) is Some
    &&& spec_or(config.time_limit, default.time_limit) is Some
    &&& spec_or(config.dict, default.dict) is Some
    &&& spec_or(config.snapshot_placement, default.snapshot_placement) is Some
}

/// The fuzzer configuration that merging the records yields: the primary
/// record wins field by field, an empty seed path means none, a non-empty
/// one is joined onto the share directory, and a zero copy-on-write primary
/// size means unset.
pub open spec fn spec_fuzzer_merged(
    sharedir: Seq<char>,
    default: FuzzerConfigLoader,
    config: FuzzerConfigLoader,
    c: FuzzerConfig,
) -> bool {
    &&& c.spec_path@ == sharedir + "/spec.msgp"@
    &&& c.workdir_path == spec_or(config.workdir_path, default.workdir_path)->0
    &&& c.bitmap_size == spec_or(config.bitmap_size, default.bitmap_size)->0
    &&& c.input_buffer_size == config.input_buffer_size
    &&& c.mem_limit == spec_or(config.mem_limit, default.mem_limit)->0
    &&& c.time_limit == spec_or(config.time_limit, default.time_limit)->0
    &&& (spec_or(config.seed_path, default.seed_path)->0@.len() == 0 ==> c.seed_path is None)
    &&& (spec_or(config.seed_path, default.seed_path)->0@.len() > 0 ==> (
    c.seed_path matches Some(sp) && sp@ == spec_abs(
        sharedir,
        spec_or(config.seed_path, default.seed_path)->0@,
    )))
    &&& c.dict == spec_or(config.dict, default.dict)->0
    &&& c.snapshot_placement == spec_or(config.snapshot_placement, default.snapshot_placement)->0
    &&& c.dump_python_code_for_inputs == spec_or(
        config.dump_python_code_for_inputs,
        default.dump_python_code_for_inputs,
    )
    &&& c.exit_after_first_crash == config.exit_after_first_crash.unwrap_or(
        default.exit_after_first_crash.unwrap_or(false),
    )
    &&& c.write_protected_input_buffer == config.write_protected_input_buffer
    &&& (config.cow_primary_size != 0 ==> c.cow_primary_size == Some(config.cow_primary_size))
    &&& (config.cow_primary_size == 0 ==> c.cow_primary_size is None)
    &&& c.ipt_filters@ == seq![config.ip0, config.ip1, config.ip2, config.ip3]
}

impl FuzzerConfig {
    /// Merges the primary fuzzer record over the defaults record: the seed
    /// path (empty meaning none) is joined onto the share directory, the
    /// spec path is derived from it, and the remaining mandatory fields are
    /// merged; the first missing one is reported.
    pub fn new_from_loader(
        sharedir: &str,
        default: FuzzerConfigLoader,
        config: FuzzerConfigLoader,
    ) -> (r: Result<Self, ConfigError>)
        ensures
            r is Ok <==> spec_fuzzer_ok(default, config),
            r matches Ok(c) ==> spec_fuzzer_merged(sharedir@, default, config, c),
            spec_or(config.seed_path, default.seed_path) is None ==> r == Err::<
                FuzzerConfig,
                ConfigError,
            >(ConfigError::MissingSeedPath),
            spec_or(config.seed_path, default.seed_path) is Some && spec_or(
                config.workdir_path,
                default.workdir_path,
            ) is None ==> r == Err::<FuzzerConfig, ConfigError>(ConfigError::MissingWorkdirPath),
            spec_or(config.seed_path, default.seed_path) is Some && spec_or(
                config.workdir_path,
                default.workdir_path,
            ) is Some && spec_or(config.bitmap_size, default.bitmap_size) is None ==> r == Err::<
                FuzzerConfig,
                ConfigError,
            >(ConfigError::MissingBitmapSize),
            spec_or(config.seed_path, default.seed_path) is Some && spec_or(
                config.workdir_path,
                default.workdir_path,
            ) is Some && spec_or(config.bitmap_size, default.bitmap_size) is Some && spec_or(
                config.mem_limit,
                default.mem_limit,
            ) is None ==> r == Err::<FuzzerConfig, ConfigError>(ConfigError::MissingMemLimit),
            spec_or(config.seed_path, default.seed_path) is Some && spec_or(
                config.workdir_path,
                default.workdir_path,
            ) is Some && spec_or(config.bitmap_size, default.bitmap_size) is Some && spec_or(
                config.mem_limit,
                default.mem_limit,
            ) is Some && spec_or(config.time_limit, default.time_limit) is None ==> r == Err::<
                FuzzerConfig,
                ConfigError,
            >(ConfigError::MissingTimeLimit),
            spec_or(config.seed_path, default.seed_path) is Some && spec_or(
                config.workdir_path,
                default.workdir_path,
            ) is Some && spec_or(config.bitmap_size, default.bitmap_size) is Some && spec_or(
                config.mem_limit,
                default.mem_limit,
            ) is Some && spec_or(config.time_limit, default.time_limit) is Some && spec_or(
                config.dict,
                default.dict,
            ) is None ==> r == Err::<FuzzerConfig, ConfigError>(ConfigError::MissingDict),
            spec_or(config.seed_path, default.seed_path) is Some && spec_or(
                config.workdir_path,
                default.workdir_path,
            ) is Some && spec_or(config.bitmap_size, default.bitmap_size) is Some && spec_or(
                config.mem_limit,
                default.mem_limit,
            ) is Some && spec_or(config.time_limit, default.time_limit) is Some && spec_or(
                config.dict,
                default.dict,
            ) is Some && spec_or(config.snapshot_placement, default.snapshot_placement) is None
                ==> r == Err::<FuzzerConfig, ConfigError>(ConfigError::MissingSnapshotPlacement),
    {
        let seed_path = match opt_or(config.seed_path, default.seed_path) {
            Some(x) => x,
            None => { return Err(ConfigError::MissingSeedPath) },
        };
        let seed_path_value = if seed_path.as_str().unicode_len() == 0 {
            None
        } else {
            Some(into_absolute_path(sharedir, seed_path))
        };
        let workdir_path = match opt_or(config.workdir_path, default.workdir_path) {
            Some(x) => x,
            None => { return Err(ConfigError::MissingWorkdirPath) },
        };
        let bitmap_size = match opt_or(config.bitmap_size, default.bitmap_size) {
            Some(x) => x,
            None => { return Err(ConfigError::MissingBitmapSize) },
        };
        let mem_limit = match opt_or(config.mem_limit, default.mem_limit) {
            Some(x) => x,
            None => { return Err(ConfigError::MissingMemLimit) },
        };
        let time_limit = match opt_or(config.time_limit, default.time_limit) {
            Some(x) => x,
            None => { return Err(ConfigError::MissingTimeLimit) },
        };
        let dict = match opt_or(config.dict, default.dict) {
            Some(x) => x,
            None => { return Err(ConfigError::MissingDict) },
        };
        let snapshot_placement = match opt_or(
            config.snapshot_placement,
            default.snapshot_placement,
        ) {
            Some(x) => x,
            None => { return Err(ConfigError::MissingSnapshotPlacement) },
        };
        let mut spec_path = sharedir.to_owned();
        spec_path.append("/spec.msgp");
        let dump_python_code_for_inputs = opt_or(
            config.dump_python_code_for_inputs,
            default.dump_python_code_for_inputs,
        );
        let exit_after_first_crash = config.exit_after_first_crash.unwrap_or(
            default.exit_after_first_crash.unwrap_or(false),
        );
        let cow_primary_size = if config.cow_primary_size != 0 {
            Some(config.cow_primary_size)
        } else {
            None
        };
        let ipt_filters = [config.ip0, config.ip1, config.ip2, config.ip3];
        proof {
            assert(ipt_filters@ =~= seq![config.ip0, config.ip1, config.ip2, config.ip3]);
        }
        Ok(
            FuzzerConfig {
                spec_path,
                workdir_path,
                bitmap_size,
                input_buffer_size: config.input_buffer_size,
                mem_limit,
                time_limit,
                seed_path: seed_path_value,
                dict,
                snapshot_placement,
                dump_python_code_for_inputs,
                exit_after_first_crash,
                write_protected_input_buffer: config.write_protected_input_buffer,
                cow_primary_size,
                ipt_filters,
            },
        )
    }
}

/// The cooperation role of a worker process.
#[derive(Clone, Copy, Debug, PartialEq, Eq, Structural)]
pub enum QemuNyxRole {
    /// The snapshot is kept in memory and never serialized.
    StandAlone,
    /// Serializes the root snapshot into the workdir for children to map.
    Parent,
    /// Waits for the parent's snapshot files and maps them.
    Child,
}

/// Options a harness sets programmatically, never read from a record.
#[derive(Clone, Debug)]
pub struct RuntimeConfig {
    pub hprintf_fd: Option<i32>,
    pub process_role: QemuNyxRole,
    pub reuse_snapshot_path: Option<String>,
    pub debug_mode: bool,
    pub worker_id: usize,
    pub aux_buffer_size: usize,
}

/// Relies on nix::fcntl::fcntl with F_GETFD: the probe succeeds exactly
/// when the descriptor exists in this process, which no contract can pin
/// down from here.
#[verifier::external_body]
pub(crate) fn fd_probe(fd: i32) -> bool {
    nix::fcntl::fcntl(fd, nix::fcntl::FcntlArg::F_GETFD).is_ok()
}

impl RuntimeConfig {
    /// The runtime options of a fresh configuration.
    pub fn new() -> (r: Self)
        ensures
            r.hprintf_fd is None,
            r.process_role is StandAlone,
            r.reuse_snapshot_path is None,
            r.debug_mode == false,
            r.worker_id == 0,
            r.aux_buffer_size == DEFAULT_AUX_BUFFER_SIZE,
    {
        RuntimeConfig {
            hprintf_fd: None,
            process_role: QemuNyxRole::StandAlone,
            reuse_snapshot_path: None,
            debug_mode: false,
            worker_id: 0,
            aux_buffer_size: DEFAULT_AUX_BUFFER_SIZE,
        }
    }

    /// The configured hprintf descriptor, if one was set.
    pub fn hprintf_fd(&self) -> (r: Option<i32>)
        ensures
            r == self.hprintf_fd,
    {
        self.hprintf_fd
    }

    /// Probes the descriptor and records it as the hprintf destination;
    /// a descriptor that does not exist is refused and nothing changes.
    pub fn set_hpintf_fd(&mut self, fd: i32) -> (r: bool)
        ensures
            r ==> *final(self) == (RuntimeConfig { hprintf_fd: Some(fd), ..*old(self) }),
            !r ==> *final(self) == *old(self),
    {
        if fd_probe(fd) {
            self.hprintf_fd = Some(fd);
            true
        } else {
            false
        }
    }

    /// The configured cooperation role.
    pub fn process_role(&self) -> (r: &QemuNyxRole)
        ensures
            r == self.process_role,
    {
        &self.process_role
    }

    /// Sets the cooperation role.
    pub fn set_process_role(&mut self, role: QemuNyxRole)
        ensures
            *final(self) == (RuntimeConfig { process_role: role, ..*old(self) }),
    {
        self.process_role = role;
    }

    /// The snapshot path pinned for reuse, if one was set.
    pub fn reuse_root_snapshot_path(&self) -> (r: Option<String>)
        ensures
            r is Some <==> self.reuse_snapshot_path is Some,
            r matches Some(p) ==> self.reuse_snapshot_path matches Some(q) && p@ == q@,
    {
        match &self.reuse_snapshot_path {
            Some(p) => Some(p.clone()),
            None => None,
        }
    }

    /// Pins a snapshot path for reuse. The path is recorded as handed in;
    /// the caller resolves it against the file system beforehand.
    pub fn set_reuse_snapshot_path(&mut self, path: String)
        ensures
            *final(self) == (RuntimeConfig { reuse_snapshot_path: Some(path), ..*old(self) }),
    {
        self.reuse_snapshot_path = Some(path);
    }

    /// Whether VM debug mode is on.
    pub fn debug_mode(&self) -> (r: bool)
        ensures
            r == self.debug_mode,
    {
        self.debug_mode
    }

    /// Switches VM debug mode.
    pub fn set_debug_mode(&mut self, debug_mode: bool)
        ensures
            *final(self) == (RuntimeConfig { debug_mode: debug_mode, ..*old(self) }),
    {
        self.debug_mode = debug_mode;
    }

    /// The worker id of this VM instance.
    pub fn worker_id(&self) -> (r: usize)
        ensures
            r == self.worker_id,
    {
        self.worker_id
    }

    /// Sets the worker id.
    pub fn set_worker_id(&mut self, thread_id: usize)
        ensures
            *final(self) == (RuntimeConfig { worker_id: thread_id, ..*old(self) }),
    {
        self.worker_id = thread_id;
    }

    /// Sets the auxiliary page size. A size is accepted exactly when it is
    /// at least 4096 and a multiple of 4096; anything else is refused and
    /// nothing changes.
    pub fn set_aux_buffer_size(&mut self, aux_buffer_size: usize) -> (r: bool)
        ensures
            r == (aux_buffer_size >= 4096 && aux_buffer_size % 4096 == 0),
            r ==> *final(self) == (RuntimeConfig {
                aux_buffer_size: aux_buffer_size,
                ..*old(self)
            }),
            !r ==> *final(self) == *old(self),
    {
        if aux_buffer_size < DEFAULT_AUX_BUFFER_SIZE || aux_buffer_size % 4096 != 0 {
            return false;
        }
        self.aux_buffer_size = aux_buffer_size;
        true
    }

    /// The configured auxiliary page size.
    pub fn aux_buffer_size(&self) -> (r: usize)
        ensures
            r == self.aux_buffer_size,
    {
        self.aux_buffer_size
    }
}

/// The whole configuration: how to boot, how to fuzz, and the runtime
/// options.
#[derive(Clone, Debug)]
pub struct Config {
    pub runner: FuzzRunnerConfig,
    pub fuzz: FuzzerConfig,
    pub runtime: RuntimeConfig,
}

impl Config {
    /// Merges a primary record over a defaults record and starts with fresh
    /// runtime options.
    pub fn new_from_loader(
        sharedir: &str,
        default_config_folder: &str,
        default: ConfigLoader,
        config: ConfigLoader,
    ) -> (r: Result<Self, ConfigError>)
        ensures
            r is Ok <==> spec_runner_ok(default.runner, config.runner) && spec_fuzzer_ok(
                default.fuzz,
                config.fuzz,
            ),
            r matches Ok(c) ==> {
                &&& spec_runner_merged(
                    default_config_folder@,
                    default.runner,
                    config.runner,
                    c.runner,
                )
                &&& spec_fuzzer_merged(sharedir@, default.fuzz, config.fuzz, c.fuzz)
                &&& c.runtime.hprintf_fd is None
                &&& c.runtime.process_role is StandAlone
                &&& c.runtime.reuse_snapshot_path is None
                &&& c.runtime.debug_mode == false
                &&& c.runtime.worker_id == 0
                &&& c.runtime.aux_buffer_size == DEFAULT_AUX_BUFFER_SIZE
            },
    {
        let runner = match FuzzRunnerConfig::new_from_loader(
            default_config_folder,
            default.runner,
            config.runner,
        ) {
            Ok(x) => x,
            Err(e) => { return Err(e) },
        };
        let fuzz = match FuzzerConfig::new_from_loader(sharedir, default.fuzz, config.fuzz) {
            Ok(x) => x,
            Err(e) => { return Err(e) },
        };
        Ok(Config { runner, fuzz, runtime: RuntimeConfig::new() })
    }
}

/// The primary record as it stands on disk.
#[derive(Clone, Debug)]
pub struct ConfigLoader {
    pub include_default_config_path: Option<String>,
    pub runner: FuzzRunnerConfigLoader,
    pub fuzz: FuzzerConfigLoader,
}

} // verus!
