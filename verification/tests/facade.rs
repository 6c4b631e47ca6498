use libnyx::config::{
    ConfigLoader, FuzzRunnerConfigLoader, FuzzerConfigLoader, QemuKernelConfigLoader, QemuNyxRole,
    SnapshotPlacement, TimeSpec, default_cow_primary_size, default_input_buffer_size,
    default_ipt_filter, default_write_protected_input_buffer,
};
use libnyx::nyx::{aux_string, inspect_bytes, misc_as_string, NyxConfig, NyxProcessRole};

fn loader() -> ConfigLoader {
    ConfigLoader {
        include_default_config_path: Some("default.ron".to_string()),
        runner: FuzzRunnerConfigLoader::QemuKernel(QemuKernelConfigLoader {
            qemu_binary: Some("/usr/bin/qemu".to_string()),
            kernel: Some("vmlinux".to_string()),
            ramfs: Some("init.cpio".to_string()),
            debug: Some(false),
        }),
        fuzz: FuzzerConfigLoader {
            write_protected_input_buffer: default_write_protected_input_buffer(),
            cow_primary_size: default_cow_primary_size(),
            ip0: default_ipt_filter(),
            ip1: default_ipt_filter(),
            ip2: default_ipt_filter(),
            ip3: default_ipt_filter(),
            workdir_path: Some("/tmp/wd".to_string()),
            bitmap_size: Some(0x10000),
            input_buffer_size: default_input_buffer_size(),
            mem_limit: Some(512),
            time_limit: Some(TimeSpec { secs: 2, micros: 0 }),
            target_binary: None,
            threads: None,
            thread_id: None,
            cpu_pin_start_at: None,
            seed_path: Some(String::new()),
            dict: Some(vec![vec![1, 2], vec![3]]),
            snapshot_placement: Some(SnapshotPlacement::Balanced),
            dump_python_code_for_inputs: None,
            exit_after_first_crash: None,
        },
    }
}

#[test]
fn nyx_config_exposes_loaded_values() {
    let cfg = NyxConfig::load("/share", "/share", loader(), loader()).unwrap();
    assert_eq!(cfg.sharedir_path(), "/share");
    assert_eq!(cfg.qemu_binary_path(), Some("/usr/bin/qemu".to_string()));
    assert_eq!(cfg.kernel_image_path(), Some("/share/vmlinux".to_string()));
    assert_eq!(cfg.ramfs_image_path(), Some("/share/init.cpio".to_string()));
    assert_eq!(cfg.timeout(), TimeSpec { secs: 2, micros: 0 });
    assert_eq!(cfg.spec_path(), "/share/spec.msgp");
    assert_eq!(cfg.bitmap_size(), 0x10000);
    assert_eq!(cfg.workdir_path(), "/tmp/wd");
    assert_eq!(cfg.input_buffer_size(), 1 << 17);
    assert!(!cfg.input_buffer_write_protection());
    assert_eq!(cfg.worker_id(), 0);
    assert_eq!(cfg.dict(), vec![vec![1, 2], vec![3]]);
}

#[test]
fn nyx_config_setters() {
    let mut cfg = NyxConfig::load("/share", "/share", loader(), loader()).unwrap();
    cfg.set_workdir_path("/tmp/other".to_string());
    assert_eq!(cfg.workdir_path(), "/tmp/other");
    cfg.set_input_buffer_size(0x4000);
    assert_eq!(cfg.input_buffer_size(), 0x4000);
    cfg.set_input_buffer_write_protection(true);
    assert!(cfg.input_buffer_write_protection());
    cfg.set_worker_id(3);
    assert_eq!(cfg.worker_id(), 3);
    cfg.set_process_role(NyxProcessRole::Child);
    assert!(matches!(*cfg.process_role(), QemuNyxRole::Child));
    cfg.set_reuse_snapshot_path("/snap".to_string());
    assert!(cfg.set_aux_buffer_size(8192));
    assert!(!cfg.set_aux_buffer_size(4095));
}

#[test]
fn hprintf_fd_probe_through_facade() {
    let mut cfg = NyxConfig::load("/share", "/share", loader(), loader()).unwrap();
    assert_eq!(cfg.hprintf_fd(), -1);
    assert!(!cfg.set_hprintf_fd(-5));
    assert_eq!(cfg.hprintf_fd(), -1);
    assert!(cfg.set_hprintf_fd(2));
    assert_eq!(cfg.hprintf_fd(), 2);
}

fn page_with_misc(data: &[u8]) -> Vec<u8> {
    let mut page = vec![0u8; 4096];
    let len = data.len() as u16;
    page[1408] = (len & 0xff) as u8;
    page[1409] = (len >> 8) as u8;
    page[1410..1410 + data.len()].copy_from_slice(data);
    page
}

#[test]
fn aux_string_decodes_misc_text() {
    let page = page_with_misc(b"hello\n");
    assert_eq!(aux_string(&page), "hello\n");
}

#[test]
fn aux_string_is_lossy_on_invalid_utf8() {
    let page = page_with_misc(&[0xff, 0xfe, b'a']);
    let s = aux_string(&page);
    assert!(s.ends_with('a'));
    assert!(s.contains('\u{FFFD}'));
}

#[test]
fn inspect_bytes_escapes_like_a_debugger() {
    assert_eq!(inspect_bytes(b"hello\n"), "hello\\n");
    assert_eq!(inspect_bytes(b"\t\r\\"), "\\t\\r\\\\");
    assert_eq!(inspect_bytes(&[0x00, 0x1b, 0x7f]), "\\x00\\x1b\\x7f");
    assert_eq!(inspect_bytes(b"'\""), "\\'\\\"");
    assert_eq!(inspect_bytes(b"plain text 123"), "plain text 123");
}

#[test]
fn misc_as_string_escapes_payload() {
    let page = page_with_misc(b"boom\x00");
    assert_eq!(misc_as_string(&page), "boom\\x00");
}
