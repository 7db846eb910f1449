//! The invocation of the guest monitor: which program is run, with which
//! arguments, and what it inherits from the host.
//!
//! The monitor gets the console socket and the data socket as inherited
//! file descriptors, and is told their numbers in its arguments. They are
//! its only link to the host.

use vstd::prelude::*;
use vstd::string::StringExecFns;
use crate::params::Params;

verus! {

/// What becomes of one of the monitor's standard streams.
#[derive(Debug, Clone, Copy, PartialEq, Eq, Structural)]
pub enum Stdio {
    /// The stream is the host's own.
    Inherit,
    /// The stream is closed to the monitor.
    Null,
}

/// All that the host needs to create the monitor process.
#[derive(Debug, PartialEq, Eq)]
pub struct Invocation {
    /// The executable to run.
    pub program: String,
    /// Its arguments, in order.
    pub args: Vec<String>,
    /// The file descriptors that stay open in the monitor: the console
    /// socket, then the data socket.
    pub preserved_fds: Vec<i32>,
    /// Whether the process is ended when its handle is discarded.
    pub kill_on_drop: bool,
    /// The monitor's standard input.
    pub stdin: Stdio,
    /// The monitor's standard output.
    pub stdout: Stdio,
    /// The monitor's standard error.
    pub stderr: Stdio,
}

/// The character for one decimal digit.
pub open spec fn digit_char(d: nat) -> char {
    if d == 0 {
        '0'
    } else if d == 1 {
        '1'
    } else if d == 2 {
        '2'
    } else if d == 3 {
        '3'
    } else if d == 4 {
        '4'
    } else if d == 5 {
        '5'
    } else if d == 6 {
        '6'
    } else if d == 7 {
        '7'
    } else if d == 8 {
        '8'
    } else {
        '9'
    }
}

/// A natural number in decimal, without leading zeros.
pub open spec fn decimal(n: nat) -> Seq<char>
    decreases n,
{
    if n < 10 {
        seq![digit_char(n)]
    } else {
        decimal(n / 10).push(digit_char(n % 10))
    }
}

/// An integer in decimal, with a minus sign where it is negative.
pub open spec fn signed_decimal(i: int) -> Seq<char> {
    if i < 0 {
        seq!['-'] + decimal((-i) as nat)
    } else {
        decimal(i as nat)
    }
}

/// The texts of a list of strings.
pub open spec fn texts(strings: Seq<String>) -> Seq<Seq<char>> {
    Seq::new(strings.len(), |i: int| strings[i]@)
}

/// The arguments that bound the guest's memory, where a size is given.
pub open spec fn memory_args(memory_size: Option<String>) -> Seq<Seq<char>> {
    match memory_size {
        Some(size) => seq!["-m"@, size@],
        None => Seq::empty(),
    }
}

/// The arguments that route the guest's first serial port to the console
/// socket and its virtio console to the data socket.
pub open spec fn socket_args(console_fd: int, data_fd: int) -> Seq<Seq<char>> {
    seq![
        "-chardev"@,
        "socket,id=consock,fd="@ + signed_decimal(console_fd),
        "-serial"@,
        "chardev:consock"@,
        "-chardev"@,
        "socket,id=commsock,fd="@ + signed_decimal(data_fd),
        "-device"@,
        "virtio-serial-device,max_ports=1"@,
        "-device"@,
        "virtconsole,chardev=commsock"@,
    ]
}

/// The arguments that pass a host PCI device through, where one is given.
pub open spec fn passthrough_args(pci_passthrough: Option<String>) -> Seq<Seq<char>> {
    match pci_passthrough {
        Some(address) => seq!["-device"@, "vfio-pci,host="@ + address@],
        None => Seq::empty(),
    }
}

/// The arguments that make the monitor wait for a debugger, where a port
/// is given.
pub open spec fn debug_args(gdb: Option<u16>) -> Seq<Seq<char>> {
    match gdb {
        Some(port) => seq!["-gdb"@, "tcp::"@ + decimal(port as nat), "-S"@],
        None => Seq::empty(),
    }
}

/// The monitor's arguments, in order.
pub open spec fn monitor_args(params: Params, console_fd: int, data_fd: int) -> Seq<Seq<char>> {
    seq!["-enable-kvm"@, "-d"@, "int,unimp,guest_errors"@, "-cpu"@, "IvyBridge-IBRS"@]
        + memory_args(params.memory_size) + seq![
        "-nodefaults"@,
        "-nographic"@,
        "-no-reboot"@,
        "-machine"@,
        "microvm,acpi=on"@,
    ] + socket_args(console_fd, data_fd) + passthrough_args(params.pci_passthrough) + seq![
        "-bios"@,
        params.bios_binary@,
        "-kernel"@,
        params.kernel@,
    ] + debug_args(params.gdb) + seq!["-initrd"@, params.initrd@]
}

/// The text of one decimal digit.
fn digit_text(d: u8) -> (text: &'static str)
    requires
        d < 10,
    ensures
        text@ == seq![digit_char(d as nat)],
{
    proof {
        reveal_strlit("0");
        reveal_strlit("1");
        reveal_strlit("2");
        reveal_strlit("3");
        reveal_strlit("4");
        reveal_strlit("5");
        reveal_strlit("6");
        reveal_strlit("7");
        reveal_strlit("8");
        reveal_strlit("9");
    }
    let text = if d == 0 {
        "0"
    } else if d == 1 {
        "1"
    } else if d == 2 {
        "2"
    } else if d == 3 {
        "3"
    } else if d == 4 {
        "4"
    } else if d == 5 {
        "5"
    } else if d == 6 {
        "6"
    } else if d == 7 {
        "7"
    } else if d == 8 {
        "8"
    } else {
        "9"
    };
    assert(text@ =~= seq![digit_char(d as nat)]);
    text
}

/// Appends `n` in decimal.
fn push_decimal(text: &mut String, n: u64)
    ensures
        final(text)@ == old(text)@ + decimal(n as nat),
    decreases n,
{
    if n >= 10 {
        push_decimal(text, n / 10);
    }
    text.append(digit_text((n % 10) as u8));
    assert(text@ =~= old(text)@ + decimal(n as nat));
}

/// Appends `i` in decimal, with its sign.
fn push_signed_decimal(text: &mut String, i: i32)
    ensures
        final(text)@ == old(text)@ + signed_decimal(i as int),
{
    if i < 0 {
        proof {
            reveal_strlit("-");
        }
        text.append("-");
        push_decimal(text, (-(i as i64)) as u64);
        assert(text@ =~= old(text)@ + signed_decimal(i as int));
    } else {
        push_decimal(text, i as u64);
    }
}

/// Appends one argument.
fn push_arg(args: &mut Vec<String>, text: String)
    ensures
        texts(final(args)@) == texts(old(args)@).push(text@),
{
    args.push(text);
    assert(texts(args@) =~= texts(old(args)@).push(text@));
}

/// Appends one argument, given as text.
fn push_flag(args: &mut Vec<String>, text: &str)
    ensures
        texts(final(args)@) == texts(old(args)@).push(text@),
{
    push_arg(args, String::from_str(text));
}

/// Appends the arguments that tie two of the guest's devices to the two
/// sockets.
fn push_socket_args(args: &mut Vec<String>, console_fd: i32, data_fd: i32)
    ensures
        texts(final(args)@) == texts(old(args)@) + socket_args(console_fd as int, data_fd as int),
{
    push_flag(args, "-chardev");
    let mut console = String::from_str("socket,id=consock,fd=");
    push_signed_decimal(&mut console, console_fd);
    push_arg(args, console);
    push_flag(args, "-serial");
    push_flag(args, "chardev:consock");
    push_flag(args, "-chardev");
    let mut data = String::from_str("socket,id=commsock,fd=");
    push_signed_decimal(&mut data, data_fd);
    push_arg(args, data);
    push_flag(args, "-device");
    push_flag(args, "virtio-serial-device,max_ports=1");
    push_flag(args, "-device");
    push_flag(args, "virtconsole,chardev=commsock");
    assert(texts(args@) =~= texts(old(args)@) + socket_args(console_fd as int, data_fd as int));
}

/// The monitor's arguments for the given parameters and sockets.
pub fn monitor_arguments(params: &Params, console_fd: i32, data_fd: i32) -> (args: Vec<String>)
    ensures
        texts(args@) == monitor_args(*params, console_fd as int, data_fd as int),
{
    let mut args: Vec<String> = Vec::new();
    assert(texts(args@) =~= Seq::<Seq<char>>::empty());
    push_flag(&mut args, "-enable-kvm");
    push_flag(&mut args, "-d");
    push_flag(&mut args, "int,unimp,guest_errors");
    push_flag(&mut args, "-cpu");
    push_flag(&mut args, "IvyBridge-IBRS");
    let ghost head = texts(args@);
    assert(head =~= seq![
        "-enable-kvm"@,
        "-d"@,
        "int,unimp,guest_errors"@,
        "-cpu"@,
        "IvyBridge-IBRS"@,
    ]);
    match &params.memory_size {
        Some(size) => {
            push_flag(&mut args, "-m");
            push_arg(&mut args, size.clone());
        },
        None => {},
    }
    let ghost with_memory = texts(args@);
    assert(with_memory =~= head + memory_args(params.memory_size));
    push_flag(&mut args, "-nodefaults");
    push_flag(&mut args, "-nographic");
    push_flag(&mut args, "-no-reboot");
    push_flag(&mut args, "-machine");
    push_flag(&mut args, "microvm,acpi=on");
    let ghost with_machine = texts(args@);
    assert(with_machine =~= with_memory + seq![
        "-nodefaults"@,
        "-nographic"@,
        "-no-reboot"@,
        "-machine"@,
        "microvm,acpi=on"@,
    ]);
    push_socket_args(&mut args, console_fd, data_fd);
    let ghost with_sockets = texts(args@);
    match &params.pci_passthrough {
        Some(address) => {
            push_flag(&mut args, "-device");
            let mut device = String::from_str("vfio-pci,host=");
            device.append(address.as_str());
            push_arg(&mut args, device);
        },
        None => {},
    }
    let ghost with_passthrough = texts(args@);
    assert(with_passthrough =~= with_sockets + passthrough_args(params.pci_passthrough));
    push_flag(&mut args, "-bios");
    push_arg(&mut args, params.bios_binary.clone());
    push_flag(&mut args, "-kernel");
    push_arg(&mut args, params.kernel.clone());
    let ghost with_images = texts(args@);
    assert(with_images =~= with_passthrough + seq![
        "-bios"@,
        params.bios_binary@,
        "-kernel"@,
        params.kernel@,
    ]);
    match params.gdb {
        Some(port) => {
            push_flag(&mut args, "-gdb");
            let mut listen = String::from_str("tcp::");
            push_decimal(&mut listen, port as u64);
            push_arg(&mut args, listen);
            push_flag(&mut args, "-S");
        },
        None => {},
    }
    let ghost with_debug = texts(args@);
    assert(with_debug =~= with_images + debug_args(params.gdb));
    push_flag(&mut args, "-initrd");
    push_arg(&mut args, params.initrd.clone());
    assert(texts(args@) =~= with_debug + seq!["-initrd"@, params.initrd@]);
    args
}

/// The invocation of the monitor for the given parameters. The two sockets
/// stay open in the monitor, the console socket first; the monitor reads no
/// input and writes where the host writes; and the process does not outlive
/// its handle.
pub fn invocation(params: &Params, console_fd: i32, data_fd: i32) -> (plan: Invocation)
    ensures
        plan.program@ == params.vmm_binary@,
        texts(plan.args@) == monitor_args(*params, console_fd as int, data_fd as int),
        plan.preserved_fds@ == seq![console_fd, data_fd],
        plan.kill_on_drop,
        plan.stdin == Stdio::Null,
        plan.stdout == Stdio::Inherit,
        plan.stderr == Stdio::Inherit,
{
    let mut preserved_fds: Vec<i32> = Vec::new();
    preserved_fds.push(console_fd);
    preserved_fds.push(data_fd);
    assert(preserved_fds@ =~= seq![console_fd, data_fd]);
    Invocation {
        program: params.vmm_binary.clone(),
        args: monitor_arguments(params, console_fd, data_fd),
        preserved_fds,
        kill_on_drop: true,
        stdin: Stdio::Null,
        stdout: Stdio::Inherit,
        stderr: Stdio::Inherit,
    }
}

} // verus!
