use libnyx::regions::{
    bitmap_effective_size, input_effective_size, input_sentinel, round_up, set_input,
};
use libnyx::config::{
    into_absolute_path, opt_or, ConfigError, FuzzerConfigLoader, IptFilter, QemuKernelConfig,
    QemuKernelConfigLoader, FuzzerConfig, RuntimeConfig, TimeSpec, default_input_buffer_size,
    default_write_protected_input_buffer, default_cow_primary_size, default_ipt_filter,
    SnapshotPlacement,
};

#[test]
fn round_up_to_multiples() {
    assert_eq!(round_up(0, 64), 0);
    assert_eq!(round_up(1, 64), 64);
    assert_eq!(round_up(64, 64), 64);
    assert_eq!(round_up(65, 64), 128);
    assert_eq!(round_up(4097, 4096), 8192);
}

#[test]
fn bitmap_grows_to_advertised_size() {
    // configured 0x10000, the guest advertises 0x30000: the mapping grows
    let n = bitmap_effective_size(0x10000, 0x30000);
    assert_eq!(n, 0x30000);
    assert_eq!(n % 64, 0);
}

#[test]
fn bitmap_resize_rounds_to_64() {
    let n = bitmap_effective_size(0x10000, 0x30001);
    assert_eq!(n, 0x30040);
    assert_eq!(n % 64, 0);
    assert!(n >= 0x30001);
}

#[test]
fn bitmap_never_shrinks() {
    assert_eq!(bitmap_effective_size(0x10000, 0), 0x10000);
    assert_eq!(bitmap_effective_size(0x10000, 0x8000), 0x10000);
}

#[test]
fn input_region_rounds_to_pages() {
    assert_eq!(input_effective_size(0x20000, 0), 0x20000);
    assert_eq!(input_effective_size(0x20000, 0x20001), 0x21000);
    assert_eq!(input_effective_size(0x20000, 0x1000), 0x20000);
}

#[test]
fn input_sentinel_text() {
    assert_eq!(input_sentinel(), "not_init");
}

#[test]
fn set_input_writes_length_prefix_and_payload() {
    let mut region = vec![0xaau8; 4096];
    set_input(&mut region, b"ABCD", 4);
    assert_eq!(&region[0..4], &[4, 0, 0, 0]);
    assert_eq!(&region[4..8], b"ABCD");
    assert_eq!(region[8], 0xaa);
}

#[test]
fn set_input_clamps_to_region() {
    let mut region = vec![0u8; 8];
    let buffer = [7u8; 16];
    set_input(&mut region, &buffer, 16);
    assert_eq!(&region[0..4], &[4, 0, 0, 0]);
    assert_eq!(&region[4..8], &[7, 7, 7, 7]);
}

#[test]
fn absolute_paths_pass_through() {
    assert_eq!(into_absolute_path("/base", "/etc/thing".to_string()), "/etc/thing");
}

#[test]
fn relative_paths_join_base() {
    assert_eq!(into_absolute_path("/base", "kernel.img".to_string()), "/base/kernel.img");
}

#[test]
fn opt_or_prefers_primary() {
    assert_eq!(opt_or(Some(1), Some(2)), Some(1));
    assert_eq!(opt_or(None::<i32>, Some(2)), Some(2));
    assert_eq!(opt_or(None::<i32>, None), None);
}

fn kernel_loader(binary: Option<&str>) -> QemuKernelConfigLoader {
    QemuKernelConfigLoader {
        qemu_binary: binary.map(|s| s.to_string()),
        kernel: Some("vmlinux".to_string()),
        ramfs: Some("/boot/init.cpio".to_string()),
        debug: Some(false),
    }
}

#[test]
fn kernel_config_merges_and_absolutizes() {
    let default = kernel_loader(Some("qemu-system-x86_64"));
    let config = kernel_loader(None);
    let merged = QemuKernelConfig::new_from_loader("/share/defaults", default, config).unwrap();
    assert_eq!(merged.qemu_binary, "/share/defaults/qemu-system-x86_64");
    assert_eq!(merged.kernel, "/share/defaults/vmlinux");
    assert_eq!(merged.ramfs, "/boot/init.cpio");
    assert!(!merged.debug);
}

#[test]
fn kernel_config_reports_first_missing_field() {
    let mut default = kernel_loader(None);
    default.kernel = None;
    let config = kernel_loader(None);
    let r = QemuKernelConfig::new_from_loader("/d", default, config);
    assert_eq!(r.unwrap_err(), ConfigError::MissingQemuBinary);
}

fn fuzzer_loader() -> FuzzerConfigLoader {
    FuzzerConfigLoader {
        write_protected_input_buffer: default_write_protected_input_buffer(),
        cow_primary_size: default_cow_primary_size(),
        ip0: default_ipt_filter(),
        ip1: default_ipt_filter(),
        ip2: default_ipt_filter(),
        ip3: default_ipt_filter(),
        workdir_path: Some("/tmp/wd".to_string()),
        bitmap_size: Some(0x10000),
        input_buffer_size: default_input_buffer_size(),
        mem_limit: Some(512),
        time_limit: Some(TimeSpec { secs: 1, micros: 0 }),
        target_binary: None,
        threads: None,
        thread_id: None,
        cpu_pin_start_at: None,
        seed_path: Some(String::new()),
        dict: Some(vec![]),
        snapshot_placement: Some(SnapshotPlacement::Disabled),
        dump_python_code_for_inputs: None,
        exit_after_first_crash: None,
    }
}

#[test]
fn fuzzer_config_merges_defaults() {
    let cfg = FuzzerConfig::new_from_loader("/share", fuzzer_loader(), fuzzer_loader()).unwrap();
    assert_eq!(cfg.spec_path, "/share/spec.msgp");
    assert_eq!(cfg.workdir_path, "/tmp/wd");
    assert_eq!(cfg.bitmap_size, 0x10000);
    assert_eq!(cfg.input_buffer_size, 1 << 17);
    assert_eq!(cfg.seed_path, None);
    assert!(!cfg.exit_after_first_crash);
    assert_eq!(cfg.cow_primary_size, None);
}

#[test]
fn fuzzer_config_seed_path_absolutized() {
    let mut primary = fuzzer_loader();
    primary.seed_path = Some("seeds".to_string());
    let cfg = FuzzerConfig::new_from_loader("/share", fuzzer_loader(), primary).unwrap();
    assert_eq!(cfg.seed_path, Some("/share/seeds".to_string()));
}

#[test]
fn fuzzer_config_cow_zero_means_unset() {
    let mut primary = fuzzer_loader();
    primary.cow_primary_size = 0x40000000;
    let cfg = FuzzerConfig::new_from_loader("/share", fuzzer_loader(), primary).unwrap();
    assert_eq!(cfg.cow_primary_size, Some(0x40000000));
}

#[test]
fn fuzzer_config_missing_workdir_reported() {
    let mut primary = fuzzer_loader();
    primary.workdir_path = None;
    let mut default = fuzzer_loader();
    default.workdir_path = None;
    let r = FuzzerConfig::new_from_loader("/share", default, primary);
    assert_eq!(r.unwrap_err(), ConfigError::MissingWorkdirPath);
}

#[test]
fn runtime_defaults() {
    let rt = RuntimeConfig::new();
    assert_eq!(rt.hprintf_fd(), None);
    assert_eq!(rt.worker_id(), 0);
    assert_eq!(rt.aux_buffer_size(), 4096);
    assert!(!rt.debug_mode());
    assert_eq!(rt.reuse_root_snapshot_path(), None);
}

#[test]
fn aux_buffer_size_validation() {
    let mut rt = RuntimeConfig::new();
    assert!(!rt.set_aux_buffer_size(0));
    assert!(!rt.set_aux_buffer_size(4095));
    assert!(!rt.set_aux_buffer_size(6000));
    assert!(!rt.set_aux_buffer_size(2048));
    assert_eq!(rt.aux_buffer_size(), 4096);
    assert!(rt.set_aux_buffer_size(4096));
    assert!(rt.set_aux_buffer_size(8192));
    assert_eq!(rt.aux_buffer_size(), 8192);
    assert!(rt.set_aux_buffer_size(4096 * 7));
}

#[test]
fn runtime_hprintf_probe_rejects_bad_fd() {
    let mut rt = RuntimeConfig::new();
    assert!(!rt.set_hpintf_fd(-1));
    assert_eq!(rt.hprintf_fd(), None);
    // stdout exists in the test process
    assert!(rt.set_hpintf_fd(1));
    assert_eq!(rt.hprintf_fd(), Some(1));
}

#[test]
fn ipt_filter_default_disabled() {
    let f = default_ipt_filter();
    assert_eq!(f, IptFilter { a: 0, b: 0 });
}

use libnyx::config::{
    Config, ConfigLoader, FuzzRunnerConfigLoader, QemuSnapshotConfig, QemuSnapshotConfigLoader,
    SnapshotPath, FuzzRunnerConfig,
};

fn snapshot_loader() -> QemuSnapshotConfigLoader {
    QemuSnapshotConfigLoader {
        qemu_binary: Some("/usr/bin/qemu".to_string()),
        hda: Some("disk.img".to_string()),
        presnapshot: Some("pre".to_string()),
        snapshot_path: Some(SnapshotPath::DefaultPath),
        debug: Some(false),
    }
}

#[test]
fn kernel_config_missing_kernel_ramfs_debug() {
    let mut d = kernel_loader(Some("q"));
    d.kernel = None;
    let mut c = kernel_loader(Some("q"));
    c.kernel = None;
    assert_eq!(
        QemuKernelConfig::new_from_loader("/d", d, c).unwrap_err(),
        ConfigError::MissingKernel
    );
    let mut d = kernel_loader(Some("q"));
    d.ramfs = None;
    let mut c = kernel_loader(Some("q"));
    c.ramfs = None;
    assert_eq!(
        QemuKernelConfig::new_from_loader("/d", d, c).unwrap_err(),
        ConfigError::MissingRamfs
    );
    let mut d = kernel_loader(Some("q"));
    d.debug = None;
    let mut c = kernel_loader(Some("q"));
    c.debug = None;
    assert_eq!(
        QemuKernelConfig::new_from_loader("/d", d, c).unwrap_err(),
        ConfigError::MissingDebug
    );
}

#[test]
fn snapshot_config_merges_and_reports_missing_fields() {
    let merged =
        QemuSnapshotConfig::new_from_loader("/d", snapshot_loader(), snapshot_loader()).unwrap();
    assert_eq!(merged.qemu_binary, "/usr/bin/qemu");
    assert_eq!(merged.hda, "/d/disk.img");
    assert_eq!(merged.presnapshot, "/d/pre");
    assert!(matches!(merged.snapshot_path, SnapshotPath::DefaultPath));

    let mut d = snapshot_loader();
    d.hda = None;
    let mut c = snapshot_loader();
    c.hda = None;
    assert_eq!(
        QemuSnapshotConfig::new_from_loader("/d", d, c).unwrap_err(),
        ConfigError::MissingHda
    );
    let mut d = snapshot_loader();
    d.presnapshot = None;
    let mut c = snapshot_loader();
    c.presnapshot = None;
    assert_eq!(
        QemuSnapshotConfig::new_from_loader("/d", d, c).unwrap_err(),
        ConfigError::MissingPresnapshot
    );
    let mut d = snapshot_loader();
    d.snapshot_path = None;
    let mut c = snapshot_loader();
    c.snapshot_path = None;
    assert_eq!(
        QemuSnapshotConfig::new_from_loader("/d", d, c).unwrap_err(),
        ConfigError::MissingSnapshotPath
    );
}

#[test]
fn conflicting_runner_records_rejected() {
    let d = ConfigLoader {
        include_default_config_path: None,
        runner: FuzzRunnerConfigLoader::QemuKernel(kernel_loader(Some("q"))),
        fuzz: fuzzer_loader(),
    };
    let c = ConfigLoader {
        include_default_config_path: None,
        runner: FuzzRunnerConfigLoader::QemuSnapshot(snapshot_loader()),
        fuzz: fuzzer_loader(),
    };
    assert_eq!(
        Config::new_from_loader("/s", "/d", d, c).unwrap_err(),
        ConfigError::ConflictingRunner
    );
}

#[test]
fn config_merges_both_halves() {
    let mk = || ConfigLoader {
        include_default_config_path: None,
        runner: FuzzRunnerConfigLoader::QemuKernel(kernel_loader(Some("q"))),
        fuzz: fuzzer_loader(),
    };
    let cfg = Config::new_from_loader("/s", "/d", mk(), mk()).unwrap();
    assert!(matches!(cfg.runner, FuzzRunnerConfig::QemuKernel(_)));
    assert_eq!(cfg.fuzz.workdir_path, "/tmp/wd");
    assert_eq!(cfg.runtime.worker_id(), 0);
}

#[test]
fn fuzzer_config_reports_each_missing_field() {
    let wipe = |f: &mut FuzzerConfigLoader| {
        f.seed_path = Some(String::new());
    };
    let mut d = fuzzer_loader();
    let mut c = fuzzer_loader();
    wipe(&mut d);
    wipe(&mut c);
    d.seed_path = None;
    c.seed_path = None;
    assert_eq!(
        FuzzerConfig::new_from_loader("/s", d, c).unwrap_err(),
        ConfigError::MissingSeedPath
    );
    for (idx, expected) in [
        ConfigError::MissingBitmapSize,
        ConfigError::MissingMemLimit,
        ConfigError::MissingTimeLimit,
        ConfigError::MissingDict,
        ConfigError::MissingSnapshotPlacement,
    ]
    .iter()
    .enumerate()
    {
        let mut d = fuzzer_loader();
        let mut c = fuzzer_loader();
        match idx {
            0 => {
                d.bitmap_size = None;
                c.bitmap_size = None;
            }
            1 => {
                d.mem_limit = None;
                c.mem_limit = None;
            }
            2 => {
                d.time_limit = None;
                c.time_limit = None;
            }
            3 => {
                d.dict = None;
                c.dict = None;
            }
            _ => {
                d.snapshot_placement = None;
                c.snapshot_placement = None;
            }
        }
        assert_eq!(FuzzerConfig::new_from_loader("/s", d, c).unwrap_err(), *expected);
    }
}
