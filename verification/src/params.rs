//! The VM invocation: every token of the command line, the per-worker file
//! names, and the role checks, assembled deterministically from the active
//! configuration.
//!
//! The embedding application spawns the process with exactly these tokens;
//! nothing here touches the file system. The command is specified token for
//! token: the contract of `QemuParams::new` pins the whole vector.

use vstd::prelude::*;
use crate::config::{Config, FuzzRunnerConfig, QemuNyxRole, IptFilter, TimeSpec};
use crate::decimal::{dec_of, u64_to_dec, usize_to_dec};

verus! {

/// The views of a token vector.
pub open spec fn views(v: Seq<String>) -> Seq<Seq<char>> {
    v.map_values(|s: String| s@)
}

/// Token views distribute over concatenation.
pub proof fn lemma_views_add(a: Seq<String>, b: Seq<String>)
    ensures
        views(a + b) == views(a) + views(b),
{
    assert(views(a + b) =~= views(a) + views(b));
}

/// A worker id that does not fit the configured role.
#[derive(Clone, Copy, Debug, PartialEq, Eq, Structural)]
pub enum RoleError {
    /// Standalone and parent workers must carry worker id zero.
    WorkerIdNotZero,
    /// A child shares the parent's workdir and must not carry worker id zero.
    ChildWorkerIdZero,
}

/// Standalone and parent carry worker id zero; a child never does.
pub open spec fn spec_role_ok(role: QemuNyxRole, worker_id: usize) -> bool {
    if role is Child {
        worker_id != 0
    } else {
        worker_id == 0
    }
}

/// Checks the worker id against the role: standalone and parent must be
/// worker zero, and constructing a child with worker id zero is rejected.
pub fn validate_role(role: &QemuNyxRole, worker_id: usize) -> (r: Result<(), RoleError>)
    ensures
        r is Ok <==> spec_role_ok(*role, worker_id),
        !(*role is Child) && worker_id != 0 ==> r == Err::<(), RoleError>(
            RoleError::WorkerIdNotZero,
        ),
        *role is Child && worker_id == 0 ==> r == Err::<(), RoleError>(
            RoleError::ChildWorkerIdZero,
        ),
{
    match role {
        QemuNyxRole::Child => {
            if worker_id == 0 {
                Err(RoleError::ChildWorkerIdZero)
            } else {
                Ok(())
            }
        },
        _ => {
            if worker_id != 0 {
                Err(RoleError::WorkerIdNotZero)
            } else {
                Ok(())
            }
        },
    }
}

/// What the role obliges the worker to do about the workdir before boot.
#[derive(Clone, Copy, Debug, PartialEq, Eq, Structural)]
pub enum WorkdirSetup {
    /// Standalone and parent build the workdir skeleton themselves.
    Prepare,
    /// A child waits for the parent to materialize the snapshot files.
    AwaitParent,
}

/// The boot tokens: kernel/initrd boot or disk-image boot.
pub open spec fn spec_boot_cmd(runner: FuzzRunnerConfig) -> Seq<Seq<char>> {
    match runner {
        FuzzRunnerConfig::QemuKernel(x) => seq![
            x.qemu_binary@,
            "-kernel"@,
            x.kernel@,
            "-initrd"@,
            x.ramfs@,
            "-append"@,
            "nokaslr oops=panic nopti ignore_rlimit_data"@,
        ],
        FuzzRunnerConfig::QemuSnapshot(x) => seq![
            x.qemu_binary@,
            "-drive"@,
            "file="@ + x.hda@ + ",index=0,media=disk"@,
        ],
    }
}

/// The display tokens: headless, or a VNC display numbered by the worker.
pub open spec fn spec_display_cmd(debug: bool, worker_id: usize) -> Seq<Seq<char>> {
    if debug {
        seq!["-vnc"@, ":"@ + dec_of(worker_id as nat)]
    } else {
        seq!["-display"@, "none"@]
    }
}

/// The serial tokens: a monitor in debug mode; otherwise none for kernel
/// boots and stdio for disk boots.
pub open spec fn spec_serial_cmd(debug: bool, runner: FuzzRunnerConfig) -> Seq<Seq<char>> {
    if debug {
        seq!["-serial"@, "mon:stdio"@]
    } else {
        match runner {
            FuzzRunnerConfig::QemuKernel(_) => seq!["-serial"@, "none"@],
            FuzzRunnerConfig::QemuSnapshot(_) => seq!["-serial"@, "stdio"@],
        }
    }
}

/// The fixed middle of the command: KVM, no network, keymap, memory.
pub open spec fn spec_base_cmd(mem_limit: usize) -> Seq<Seq<char>> {
    seq![
        "-enable-kvm"@,
        "-net"@,
        "none"@,
        "-k"@,
        "de"@,
        "-m"@,
        dec_of(mem_limit as nat),
    ]
}

/// The control-socket character device, bound to the per-worker path.
pub open spec fn spec_chardev_cmd(control_filename: Seq<char>) -> Seq<Seq<char>> {
    seq!["-chardev"@, "socket,server,path="@ + control_filename + ",id=nyx_interface"@]
}

/// The instruction-pointer filter options from position `k` on, numbering
/// active filters from `i`: a filter is emitted exactly when both ends are
/// non-zero, and only emitted filters advance the number.
pub open spec fn spec_ipt_from(fs: Seq<IptFilter>, k: int, i: nat) -> Seq<char>
    decreases fs.len() - k,
{
    if k < 0 || k >= fs.len() {
        seq![]
    } else {
        let f = fs[k];
        if f.a != 0 && f.b != 0 {
            ",ip"@ + dec_of(i) + "_a="@ + dec_of(f.a as nat) + ",ip"@ + dec_of(i) + "_b="@ + dec_of(
                f.b as nat,
            ) + spec_ipt_from(fs, k + 1, i + 1)
        } else {
            spec_ipt_from(fs, k + 1, i)
        }
    }
}

/// The optional copy-on-write primary size option.
pub open spec fn spec_cow_opt(cow: Option<u64>) -> Seq<char> {
    match cow {
        Some(x) => ",cow_primary_size="@ + dec_of(x as nat),
        None => seq![],
    }
}

/// The device option string: the keyed options of the fuzzing device.
pub open spec fn spec_device_opts(
    bitmap_size: usize,
    input_buffer_size: usize,
    worker_id: usize,
    workdir: Seq<char>,
    sharedir: Seq<char>,
    aux_buffer_size: usize,
    filters: Seq<IptFilter>,
    cow: Option<u64>,
) -> Seq<char> {
    "nyx,chardev=nyx_interface"@ + ",bitmap_size="@ + dec_of(bitmap_size as nat)
        + ",input_buffer_size="@ + dec_of(input_buffer_size as nat) + ",worker_id="@ + dec_of(
        worker_id as nat,
    ) + ",workdir="@ + workdir + ",sharedir="@ + sharedir + ",aux_buffer_size="@ + dec_of(
        aux_buffer_size as nat,
    ) + spec_ipt_from(filters, 0, 0) + spec_cow_opt(cow)
}

/// The machine model tokens.
pub open spec fn spec_machine_cmd() -> Seq<Seq<char>> {
    seq!["-machine"@, "kAFL64-v1"@, "-cpu"@, "kAFL64-Hypervisor-v1"@]
}

/// The snapshot tokens. A pinned reuse path is loaded whatever the role;
/// otherwise the role decides between loading, serializing, or keeping the
/// snapshot in memory, with the disk boot adding its pre-snapshot path.
pub open spec fn spec_snapshot_cmd(
    reuse: Option<String>,
    runner: FuzzRunnerConfig,
    role: QemuNyxRole,
    workdir: Seq<char>,
) -> Seq<Seq<char>> {
    if reuse is Some {
        seq!["-fast_vm_reload"@, "path="@ + reuse->0@ + ",load=on"@]
    } else {
        match runner {
            FuzzRunnerConfig::QemuKernel(_) => match role {
                QemuNyxRole::StandAlone => seq![
                    "-fast_vm_reload"@,
                    "path="@ + workdir + "/snapshot/,load=off,skip_serialization=on"@,
                ],
                QemuNyxRole::Parent => seq![
                    "-fast_vm_reload"@,
                    "path="@ + workdir + "/snapshot/,load=off"@,
                ],
                QemuNyxRole::Child => seq![
                    "-fast_vm_reload"@,
                    "path="@ + workdir + "/snapshot/,load=on"@,
                ],
            },
            FuzzRunnerConfig::QemuSnapshot(x) => match role {
                QemuNyxRole::StandAlone => {
                    if x.presnapshot@.len() == 0 {
                        seq![
                            "-fast_vm_reload"@,
                            "path="@ + workdir + "/snapshot/,load=off,skip_serialization=on"@,
                        ]
                    } else {
                        seq![
                            "-fast_vm_reload"@,
                            "path="@ + workdir + "/snapshot/,load=off,pre_path="@ + x.presnapshot@
                                + ",skip_serialization=on"@,
                        ]
                    }
                },
                QemuNyxRole::Parent => seq![
                    "-fast_vm_reload"@,
                    "path="@ + workdir + "/snapshot/,load=off,pre_path="@ + x.presnapshot@,
                ],
                QemuNyxRole::Child => seq![
                    "-fast_vm_reload"@,
                    "path="@ + workdir + "/snapshot/,load=on"@,
                ],
            },
        }
    }
}

/// The whole command line, token for token.
pub open spec fn spec_qemu_cmd(sharedir: Seq<char>, cfg: Config) -> Seq<Seq<char>> {
    spec_boot_cmd(cfg.runner) + spec_display_cmd(cfg.runtime.debug_mode, cfg.runtime.worker_id)
        + spec_serial_cmd(cfg.runtime.debug_mode, cfg.runner) + spec_base_cmd(cfg.fuzz.mem_limit)
        + spec_chardev_cmd(
        cfg.fuzz.workdir_path@ + "/interface_"@ + dec_of(cfg.runtime.worker_id as nat),
    ) + seq![
        "-device"@,
        spec_device_opts(
            cfg.fuzz.bitmap_size,
            cfg.fuzz.input_buffer_size,
            cfg.runtime.worker_id,
            cfg.fuzz.workdir_path@,
            sharedir,
            cfg.runtime.aux_buffer_size,
            cfg.fuzz.ipt_filters@,
            cfg.fuzz.cow_primary_size,
        ),
    ] + spec_machine_cmd() + spec_snapshot_cmd(
        cfg.runtime.reuse_snapshot_path,
        cfg.runner,
        cfg.runtime.process_role,
        cfg.fuzz.workdir_path@,
    )
}

/// Everything the launcher needs to spawn and find one worker VM.
pub struct QemuParams {
    pub cmd: Vec<String>,
    pub qemu_aux_buffer_filename: String,
    pub control_filename: String,
    pub workdir: String,
    pub qemu_id: usize,
    pub bitmap_size: usize,
    pub payload_size: usize,
    pub dump_python_code_for_inputs: bool,
    pub write_protected_input_buffer: bool,
    pub cow_primary_size: Option<u64>,
    pub hprintf_fd: Option<i32>,
    pub aux_buffer_size: usize,
    pub time_limit: TimeSpec,
    pub workdir_setup: WorkdirSetup,
}

fn boot_cmd(runner: &FuzzRunnerConfig) -> (r: Vec<String>)
    ensures
        views(r@) == spec_boot_cmd(*runner),
{
    let mut cmd: Vec<String> = Vec::new();
    match runner {
        FuzzRunnerConfig::QemuKernel(x) => {
            cmd.push(x.qemu_binary.clone());
            cmd.push("-kernel".to_owned());
            cmd.push(x.kernel.clone());
            cmd.push("-initrd".to_owned());
            cmd.push(x.ramfs.clone());
            cmd.push("-append".to_owned());
            cmd.push("nokaslr oops=panic nopti ignore_rlimit_data".to_owned());
            proof {
                assert(views(cmd@) =~= spec_boot_cmd(*runner));
            }
        },
        FuzzRunnerConfig::QemuSnapshot(x) => {
            cmd.push(x.qemu_binary.clone());
            cmd.push("-drive".to_owned());
            let mut drive = "file=".to_owned();
            drive.append(x.hda.as_str());
            drive.append(",index=0,media=disk");
            cmd.push(drive);
            proof {
                assert(views(cmd@) =~= spec_boot_cmd(*runner));
            }
        },
    }
    cmd
}

fn display_cmd(debug: bool, worker_id: usize) -> (r: Vec<String>)
    ensures
        views(r@) == spec_display_cmd(debug, worker_id),
{
    let mut cmd: Vec<String> = Vec::new();
    if debug {
        cmd.push("-vnc".to_owned());
        let mut v = ":".to_owned();
        let d = usize_to_dec(worker_id);
        v.append(d.as_str());
        cmd.push(v);
    } else {
        cmd.push("-display".to_owned());
        cmd.push("none".to_owned());
    }
    proof {
        assert(views(cmd@) =~= spec_display_cmd(debug, worker_id));
    }
    cmd
}

fn serial_cmd(debug: bool, runner: &FuzzRunnerConfig) -> (r: Vec<String>)
    ensures
        views(r@) == spec_serial_cmd(debug, *runner),
{
    let mut cmd: Vec<String> = Vec::new();
    cmd.push("-serial".to_owned());
    if debug {
        cmd.push("mon:stdio".to_owned());
    } else {
        match runner {
            FuzzRunnerConfig::QemuKernel(_) => cmd.push("none".to_owned()),
            FuzzRunnerConfig::QemuSnapshot(_) => cmd.push("stdio".to_owned()),
        }
    }
    proof {
        assert(views(cmd@) =~= spec_serial_cmd(debug, *runner));
    }
    cmd
}

fn base_cmd(mem_limit: usize) -> (r: Vec<String>)
    ensures
        views(r@) == spec_base_cmd(mem_limit),
{
    let mut cmd: Vec<String> = Vec::new();
    cmd.push("-enable-kvm".to_owned());
    cmd.push("-net".to_owned());
    cmd.push("none".to_owned());
    cmd.push("-k".to_owned());
    cmd.push("de".to_owned());
    cmd.push("-m".to_owned());
    cmd.push(usize_to_dec(mem_limit));
    proof {
        assert(views(cmd@) =~= spec_base_cmd(mem_limit));
    }
    cmd
}

fn ipt_opts_from(fs: &[IptFilter], k: usize, i: u64) -> (r: String)
    requires
        k <= fs@.len(),
        i <= k,
    ensures
        r@ == spec_ipt_from(fs@, k as int, i as nat),
    decreases fs@.len() - k,
{
    if k == fs.len() {
        proof {
            reveal_strlit("");
            assert(""@ =~= Seq::<char>::empty());
        }
        "".to_owned()
    } else {
        let f = fs[k];
        if f.a != 0 && f.b != 0 {
            let mut s = ",ip".to_owned();
            let num = u64_to_dec(i);
            s.append(num.as_str());
            s.append("_a=");
            let a = u64_to_dec(f.a);
            s.append(a.as_str());
            s.append(",ip");
            s.append(num.as_str());
            s.append("_b=");
            let b = u64_to_dec(f.b);
            s.append(b.as_str());
            let rest = ipt_opts_from(fs, k + 1, i + 1);
            s.append(rest.as_str());
            s
        } else {
            ipt_opts_from(fs, k + 1, i)
        }
    }
}

fn device_opts(
    bitmap_size: usize,
    input_buffer_size: usize,
    worker_id: usize,
    workdir: &str,
    sharedir: &str,
    aux_buffer_size: usize,
    filters: &[IptFilter],
    cow: &Option<u64>,
) -> (r: String)
    requires
        filters@.len() == 4,
    ensures
        r@ == spec_device_opts(
            bitmap_size,
            input_buffer_size,
            worker_id,
            workdir@,
            sharedir@,
            aux_buffer_size,
            filters@,
            *cow,
        ),
{
    let mut s = "nyx,chardev=nyx_interface".to_owned();
    s.append(",bitmap_size=");
    let d0 = usize_to_dec(bitmap_size);
    s.append(d0.as_str());
    s.append(",input_buffer_size=");
    let d1 = usize_to_dec(input_buffer_size);
    s.append(d1.as_str());
    s.append(",worker_id=");
    let d2 = usize_to_dec(worker_id);
    s.append(d2.as_str());
    s.append(",workdir=");
    s.append(workdir);
    s.append(",sharedir=");
    s.append(sharedir);
    s.append(",aux_buffer_size=");
    let d3 = usize_to_dec(aux_buffer_size);
    s.append(d3.as_str());
    let ipt = ipt_opts_from(filters, 0, 0);
    s.append(ipt.as_str());
    match cow {
        Some(x) => {
            s.append(",cow_primary_size=");
            let d4 = u64_to_dec(*x);
            s.append(d4.as_str());
        },
        None => {},
    }
    s
}

fn machine_cmd() -> (r: Vec<String>)
    ensures
        views(r@) == spec_machine_cmd(),
{
    let mut cmd: Vec<String> = Vec::new();
    cmd.push("-machine".to_owned());
    cmd.push("kAFL64-v1".to_owned());
    cmd.push("-cpu".to_owned());
    cmd.push("kAFL64-Hypervisor-v1".to_owned());
    proof {
        assert(views(cmd@) =~= spec_machine_cmd());
    }
    cmd
}

fn snapshot_cmd(
    reuse: &Option<String>,
    runner: &FuzzRunnerConfig,
    role: &QemuNyxRole,
    workdir: &str,
) -> (r: Vec<String>)
    ensures
        views(r@) == spec_snapshot_cmd(*reuse, *runner, *role, workdir@),
{
    let mut cmd: Vec<String> = Vec::new();
    cmd.push("-fast_vm_reload".to_owned());
    match reuse {
        Some(p) => {
            let mut s = "path=".to_owned();
            s.append(p.as_str());
            s.append(",load=on");
            cmd.push(s);
        },
        None => {
            match runner {
                FuzzRunnerConfig::QemuKernel(_) => {
                    let mut s = "path=".to_owned();
                    s.append(workdir);
                    match role {
                        QemuNyxRole::StandAlone => s.append(
                            "/snapshot/,load=off,skip_serialization=on",
                        ),
                        QemuNyxRole::Parent => s.append("/snapshot/,load=off"),
                        QemuNyxRole::Child => s.append("/snapshot/,load=on"),
                    }
                    cmd.push(s);
                },
                FuzzRunnerConfig::QemuSnapshot(x) => {
                    let mut s = "path=".to_owned();
                    s.append(workdir);
                    match role {
                        QemuNyxRole::StandAlone => {
                            if x.presnapshot.as_str().unicode_len() == 0 {
                                s.append("/snapshot/,load=off,skip_serialization=on");
                            } else {
                                s.append("/snapshot/,load=off,pre_path=");
                                s.append(x.presnapshot.as_str());
                                s.append(",skip_serialization=on");
                            }
                        },
                        QemuNyxRole::Parent => {
                            s.append("/snapshot/,load=off,pre_path=");
                            s.append(x.presnapshot.as_str());
                        },
                        QemuNyxRole::Child => {
                            s.append("/snapshot/,load=on");
                        },
                    }
                    cmd.push(s);
                },
            }
        },
    }
    proof {
        assert(views(cmd@) =~= spec_snapshot_cmd(*reuse, *runner, *role, workdir@));
    }
    cmd
}

impl QemuParams {
    /// Assembles the VM invocation from the active configuration: the whole
    /// token vector, the per-worker auxiliary-page and control-socket paths,
    /// and the workdir duty the role imposes. A worker id that does not fit
    /// the role is rejected and nothing is assembled.
    pub fn new(sharedir: String, fuzzer_config: &Config) -> (r: Result<QemuParams, RoleError>)
        ensures
            r is Ok <==> spec_role_ok(
                fuzzer_config.runtime.process_role,
                fuzzer_config.runtime.worker_id,
            ),
            !(fuzzer_config.runtime.process_role is Child) && fuzzer_config.runtime.worker_id != 0
                ==> r == Err::<QemuParams, RoleError>(RoleError::WorkerIdNotZero),
            fuzzer_config.runtime.process_role is Child && fuzzer_config.runtime.worker_id == 0
                ==> r == Err::<QemuParams, RoleError>(RoleError::ChildWorkerIdZero),
            r matches Ok(p) ==> {
                &&& views(p.cmd@) == spec_qemu_cmd(sharedir@, *fuzzer_config)
                &&& p.qemu_aux_buffer_filename@ == fuzzer_config.fuzz.workdir_path@
                    + "/aux_buffer_"@ + dec_of(fuzzer_config.runtime.worker_id as nat)
                &&& p.control_filename@ == fuzzer_config.fuzz.workdir_path@ + "/interface_"@
                    + dec_of(fuzzer_config.runtime.worker_id as nat)
                &&& p.workdir@ == fuzzer_config.fuzz.workdir_path@
                &&& p.qemu_id == fuzzer_config.runtime.worker_id
                &&& p.bitmap_size == fuzzer_config.fuzz.bitmap_size
                &&& p.payload_size == fuzzer_config.fuzz.input_buffer_size
                &&& p.dump_python_code_for_inputs
                    == fuzzer_config.fuzz.dump_python_code_for_inputs.unwrap_or(false)
                &&& p.write_protected_input_buffer
                    == fuzzer_config.fuzz.write_protected_input_buffer
                &&& p.cow_primary_size == fuzzer_config.fuzz.cow_primary_size
                &&& p.hprintf_fd == fuzzer_config.runtime.hprintf_fd
                &&& p.aux_buffer_size == fuzzer_config.runtime.aux_buffer_size
                &&& p.time_limit == fuzzer_config.fuzz.time_limit
                &&& (p.workdir_setup is Prepare <==> !(fuzzer_config.runtime.process_role
                    is Child))
            },
    {
        let qemu_id = fuzzer_config.runtime.worker_id();
        match validate_role(fuzzer_config.runtime.process_role(), qemu_id) {
            Ok(()) => {},
            Err(e) => { return Err(e) },
        }
        let workdir = fuzzer_config.fuzz.workdir_path.clone();
        let debug = fuzzer_config.runtime.debug_mode();
        let id_dec = usize_to_dec(qemu_id);

        let mut qemu_aux_buffer_filename = workdir.clone();
        qemu_aux_buffer_filename.append("/aux_buffer_");
        qemu_aux_buffer_filename.append(id_dec.as_str());

        let mut control_filename = workdir.clone();
        control_filename.append("/interface_");
        control_filename.append(id_dec.as_str());

        let mut cmd = boot_cmd(&fuzzer_config.runner);
        let ghost c1 = cmd@;
        let mut part = display_cmd(debug, qemu_id);
        proof {
            lemma_views_add(c1, part@);
        }
        cmd.append(&mut part);
        let ghost c2 = cmd@;
        let mut part = serial_cmd(debug, &fuzzer_config.runner);
        proof {
            lemma_views_add(c2, part@);
        }
        cmd.append(&mut part);
        let ghost c3 = cmd@;
        let mut part = base_cmd(fuzzer_config.fuzz.mem_limit);
        proof {
            lemma_views_add(c3, part@);
        }
        cmd.append(&mut part);
        let ghost c4 = cmd@;
        cmd.push("-chardev".to_owned());
        let mut chardev = "socket,server,path=".to_owned();
        chardev.append(control_filename.as_str());
        chardev.append(",id=nyx_interface");
        cmd.push(chardev);
        let ghost c5 = cmd@;
        cmd.push("-device".to_owned());
        let dev = device_opts(
            fuzzer_config.fuzz.bitmap_size,
            fuzzer_config.fuzz.input_buffer_size,
            qemu_id,
            workdir.as_str(),
            sharedir.as_str(),
            fuzzer_config.runtime.aux_buffer_size(),
            &fuzzer_config.fuzz.ipt_filters,
            &fuzzer_config.fuzz.cow_primary_size,
        );
        cmd.push(dev);
        let ghost c6 = cmd@;
        let mut part = machine_cmd();
        proof {
            lemma_views_add(c6, part@);
        }
        cmd.append(&mut part);
        let ghost c7 = cmd@;
        let mut part = snapshot_cmd(
            &fuzzer_config.runtime.reuse_snapshot_path,
            &fuzzer_config.runner,
            &fuzzer_config.runtime.process_role,
            workdir.as_str(),
        );
        proof {
            lemma_views_add(c7, part@);
        }
        cmd.append(&mut part);

        proof {
            assert(views(cmd@) =~= spec_qemu_cmd(sharedir@, *fuzzer_config));
        }

        let workdir_setup = match fuzzer_config.runtime.process_role() {
            QemuNyxRole::Child => WorkdirSetup::AwaitParent,
            _ => WorkdirSetup::Prepare,
        };
        let dump_python_code_for_inputs = match fuzzer_config.fuzz.dump_python_code_for_inputs {
            None => false,
            Some(x) => x,
        };
        Ok(
            QemuParams {
                cmd,
                qemu_aux_buffer_filename,
                control_filename,
                workdir,
                qemu_id,
                bitmap_size: fuzzer_config.fuzz.bitmap_size,
                payload_size: fuzzer_config.fuzz.input_buffer_size,
                dump_python_code_for_inputs,
                write_protected_input_buffer: fuzzer_config.fuzz.write_protected_input_buffer,
                cow_primary_size: fuzzer_config.fuzz.cow_primary_size,
                hprintf_fd: fuzzer_config.runtime.hprintf_fd(),
                aux_buffer_size: fuzzer_config.runtime.aux_buffer_size(),
                time_limit: fuzzer_config.fuzz.time_limit,
                workdir_setup,
            },
        )
    }
}

} // verus!
