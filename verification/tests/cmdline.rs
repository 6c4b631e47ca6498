use libnyx::config::{
    Config, FuzzRunnerConfig, FuzzerConfig, IptFilter, QemuKernelConfig, QemuNyxRole,
    QemuSnapshotConfig, RuntimeConfig, SnapshotPath, SnapshotPlacement, TimeSpec,
};
use libnyx::params::{validate_role, QemuParams, RoleError, WorkdirSetup};

fn kernel_config() -> Config {
    Config {
        runner: FuzzRunnerConfig::QemuKernel(QemuKernelConfig {
            qemu_binary: "/usr/bin/qemu".to_string(),
            kernel: "/share/vmlinux".to_string(),
            ramfs: "/share/init.cpio".to_string(),
            debug: false,
        }),
        fuzz: FuzzerConfig {
            spec_path: "/share/spec.msgp".to_string(),
            workdir_path: "/tmp/wd".to_string(),
            bitmap_size: 0x10000,
            input_buffer_size: 0x20000,
            mem_limit: 512,
            time_limit: TimeSpec { secs: 1, micros: 500_000 },
            seed_path: None,
            dict: vec![],
            snapshot_placement: SnapshotPlacement::Disabled,
            dump_python_code_for_inputs: None,
            exit_after_first_crash: false,
            write_protected_input_buffer: false,
            cow_primary_size: None,
            ipt_filters: [IptFilter { a: 0, b: 0 }; 4],
        },
        runtime: RuntimeConfig::new(),
    }
}

#[test]
fn role_preconditions() {
    assert!(validate_role(&QemuNyxRole::StandAlone, 0).is_ok());
    assert!(validate_role(&QemuNyxRole::Parent, 0).is_ok());
    assert_eq!(validate_role(&QemuNyxRole::StandAlone, 1), Err(RoleError::WorkerIdNotZero));
    assert_eq!(validate_role(&QemuNyxRole::Parent, 2), Err(RoleError::WorkerIdNotZero));
    // constructing a child with worker id zero is rejected
    assert_eq!(validate_role(&QemuNyxRole::Child, 0), Err(RoleError::ChildWorkerIdZero));
    assert!(validate_role(&QemuNyxRole::Child, 1).is_ok());
}

#[test]
fn child_with_zero_worker_id_rejected_in_params() {
    let mut cfg = kernel_config();
    cfg.runtime.set_process_role(QemuNyxRole::Child);
    let r = QemuParams::new("/share".to_string(), &cfg);
    assert!(matches!(r, Err(RoleError::ChildWorkerIdZero)));
}

#[test]
fn kernel_standalone_command_line() {
    let cfg = kernel_config();
    let p = QemuParams::new("/share".to_string(), &cfg).unwrap();
    let expected: Vec<&str> = vec![
        "/usr/bin/qemu",
        "-kernel",
        "/share/vmlinux",
        "-initrd",
        "/share/init.cpio",
        "-append",
        "nokaslr oops=panic nopti ignore_rlimit_data",
        "-display",
        "none",
        "-serial",
        "none",
        "-enable-kvm",
        "-net",
        "none",
        "-k",
        "de",
        "-m",
        "512",
        "-chardev",
        "socket,server,path=/tmp/wd/interface_0,id=nyx_interface",
        "-device",
        "nyx,chardev=nyx_interface,bitmap_size=65536,input_buffer_size=131072,worker_id=0,workdir=/tmp/wd,sharedir=/share,aux_buffer_size=4096",
        "-machine",
        "kAFL64-v1",
        "-cpu",
        "kAFL64-Hypervisor-v1",
        "-fast_vm_reload",
        "path=/tmp/wd/snapshot/,load=off,skip_serialization=on",
    ];
    assert_eq!(p.cmd, expected);
    assert_eq!(p.qemu_aux_buffer_filename, "/tmp/wd/aux_buffer_0");
    assert_eq!(p.control_filename, "/tmp/wd/interface_0");
    assert_eq!(p.workdir_setup, WorkdirSetup::Prepare);
    assert_eq!(p.bitmap_size, 0x10000);
    assert_eq!(p.payload_size, 0x20000);
    assert_eq!(p.aux_buffer_size, 4096);
}

#[test]
fn debug_mode_uses_vnc_and_monitor() {
    let mut cfg = kernel_config();
    cfg.runtime.set_debug_mode(true);
    let p = QemuParams::new("/share".to_string(), &cfg).unwrap();
    let cmd = &p.cmd;
    let vnc = cmd.iter().position(|t| t == "-vnc").unwrap();
    assert_eq!(cmd[vnc + 1], ":0");
    let serial = cmd.iter().position(|t| t == "-serial").unwrap();
    assert_eq!(cmd[serial + 1], "mon:stdio");
    assert!(!cmd.contains(&"-display".to_string()));
}

#[test]
fn ipt_filters_numbered_by_active_ones() {
    let mut cfg = kernel_config();
    cfg.fuzz.ipt_filters = [
        IptFilter { a: 0, b: 0 },
        IptFilter { a: 0x1000, b: 0x2000 },
        IptFilter { a: 5, b: 0 },
        IptFilter { a: 0x3000, b: 0x4000 },
    ];
    cfg.fuzz.cow_primary_size = Some(1024);
    let p = QemuParams::new("/share".to_string(), &cfg).unwrap();
    let dev = p.cmd.iter().find(|t| t.starts_with("nyx,")).unwrap();
    assert!(dev.contains(",ip0_a=4096,ip0_b=8192"));
    assert!(dev.contains(",ip1_a=12288,ip1_b=16384"));
    assert!(!dev.contains("ip2_"));
    assert!(dev.ends_with(",cow_primary_size=1024"));
}

fn snapshot_config(presnapshot: &str) -> Config {
    let mut cfg = kernel_config();
    cfg.runner = FuzzRunnerConfig::QemuSnapshot(QemuSnapshotConfig {
        qemu_binary: "/usr/bin/qemu".to_string(),
        hda: "/share/disk.img".to_string(),
        presnapshot: presnapshot.to_string(),
        snapshot_path: SnapshotPath::DefaultPath,
        debug: false,
    });
    cfg
}

#[test]
fn snapshot_boot_uses_drive_and_stdio_serial() {
    let cfg = snapshot_config("");
    let p = QemuParams::new("/share".to_string(), &cfg).unwrap();
    let drive = p.cmd.iter().position(|t| t == "-drive").unwrap();
    assert_eq!(p.cmd[drive + 1], "file=/share/disk.img,index=0,media=disk");
    let serial = p.cmd.iter().position(|t| t == "-serial").unwrap();
    assert_eq!(p.cmd[serial + 1], "stdio");
    assert_eq!(
        p.cmd.last().unwrap(),
        "path=/tmp/wd/snapshot/,load=off,skip_serialization=on"
    );
}

#[test]
fn snapshot_roles_pick_snapshot_clause() {
    let mut cfg = snapshot_config("/share/pre");
    let p = QemuParams::new("/share".to_string(), &cfg).unwrap();
    assert_eq!(
        p.cmd.last().unwrap(),
        "path=/tmp/wd/snapshot/,load=off,pre_path=/share/pre,skip_serialization=on"
    );
    cfg.runtime.set_process_role(QemuNyxRole::Parent);
    let p = QemuParams::new("/share".to_string(), &cfg).unwrap();
    assert_eq!(p.cmd.last().unwrap(), "path=/tmp/wd/snapshot/,load=off,pre_path=/share/pre");
    cfg.runtime.set_process_role(QemuNyxRole::Child);
    cfg.runtime.set_worker_id(1);
    let p = QemuParams::new("/share".to_string(), &cfg).unwrap();
    assert_eq!(p.cmd.last().unwrap(), "path=/tmp/wd/snapshot/,load=on");
    assert_eq!(p.workdir_setup, WorkdirSetup::AwaitParent);
}

#[test]
fn parent_role_serializes_kernel_snapshot() {
    let mut cfg = kernel_config();
    cfg.runtime.set_process_role(QemuNyxRole::Parent);
    let p = QemuParams::new("/share".to_string(), &cfg).unwrap();
    assert_eq!(p.cmd.last().unwrap(), "path=/tmp/wd/snapshot/,load=off");
}

#[test]
fn pinned_reuse_path_wins_over_role() {
    let mut cfg = kernel_config();
    cfg.runtime.set_reuse_snapshot_path("/snapshots/root".to_string());
    let p = QemuParams::new("/share".to_string(), &cfg).unwrap();
    assert_eq!(p.cmd.last().unwrap(), "path=/snapshots/root,load=on");
}
