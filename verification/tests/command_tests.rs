use guest_launcher::command::{invocation, monitor_arguments, Stdio};
use guest_launcher::params::{InitialDataVersion, Params};

fn params() -> Params {
    Params {
        vmm_binary: "/usr/bin/qemu-system-x86_64".to_string(),
        kernel: "/images/kernel".to_string(),
        app_binary: Some("/images/app".to_string()),
        bios_binary: "/images/stage0.bin".to_string(),
        gdb: None,
        memory_size: None,
        initrd: "/images/initrd.cpio".to_string(),
        pci_passthrough: None,
        initial_data_version: InitialDataVersion::V0,
    }
}

fn strings(items: &[&str]) -> Vec<String> {
    items.iter().map(|s| s.to_string()).collect()
}

#[test]
fn arguments_without_options() {
    let args = monitor_arguments(&params(), 5, 7);
    assert_eq!(
        args,
        strings(&[
            "-enable-kvm",
            "-d",
            "int,unimp,guest_errors",
            "-cpu",
            "IvyBridge-IBRS",
            "-nodefaults",
            "-nographic",
            "-no-reboot",
            "-machine",
            "microvm,acpi=on",
            "-chardev",
            "socket,id=consock,fd=5",
            "-serial",
            "chardev:consock",
            "-chardev",
            "socket,id=commsock,fd=7",
            "-device",
            "virtio-serial-device,max_ports=1",
            "-device",
            "virtconsole,chardev=commsock",
            "-bios",
            "/images/stage0.bin",
            "-kernel",
            "/images/kernel",
            "-initrd",
            "/images/initrd.cpio",
        ])
    );
}

#[test]
fn arguments_with_every_option() {
    let mut params = params();
    params.memory_size = Some("256M".to_string());
    params.pci_passthrough = Some("0000:01:00.0".to_string());
    params.gdb = Some(1234);
    let args = monitor_arguments(&params, 10, 123);
    assert_eq!(
        args,
        strings(&[
            "-enable-kvm",
            "-d",
            "int,unimp,guest_errors",
            "-cpu",
            "IvyBridge-IBRS",
            "-m",
            "256M",
            "-nodefaults",
            "-nographic",
            "-no-reboot",
            "-machine",
            "microvm,acpi=on",
            "-chardev",
            "socket,id=consock,fd=10",
            "-serial",
            "chardev:consock",
            "-chardev",
            "socket,id=commsock,fd=123",
            "-device",
            "virtio-serial-device,max_ports=1",
            "-device",
            "virtconsole,chardev=commsock",
            "-device",
            "vfio-pci,host=0000:01:00.0",
            "-bios",
            "/images/stage0.bin",
            "-kernel",
            "/images/kernel",
            "-gdb",
            "tcp::1234",
            "-S",
            "-initrd",
            "/images/initrd.cpio",
        ])
    );
}

#[test]
fn descriptor_numbers_are_written_in_decimal() {
    for (fd, text) in [
        (0, "0"),
        (9, "9"),
        (10, "10"),
        (1024, "1024"),
        (i32::MAX, "2147483647"),
        (-1, "-1"),
        (i32::MIN, "-2147483648"),
    ] {
        let args = monitor_arguments(&params(), fd, 3);
        assert_eq!(args[11], format!("socket,id=consock,fd={}", text));
        assert_eq!(args[15], "socket,id=commsock,fd=3");
        let args = monitor_arguments(&params(), 3, fd);
        assert_eq!(args[15], format!("socket,id=commsock,fd={}", text));
    }
}

#[test]
fn debug_port_is_written_in_decimal() {
    for port in [0u16, 7, 80, 9999, 65535] {
        let mut params = params();
        params.gdb = Some(port);
        let args = monitor_arguments(&params, 3, 4);
        assert_eq!(args[24], "-gdb");
        assert_eq!(args[25], format!("tcp::{}", port));
        assert_eq!(args[26], "-S");
    }
}

#[test]
fn application_path_and_version_are_no_arguments() {
    let mut other = params();
    other.app_binary = None;
    other.initial_data_version = InitialDataVersion::V1;
    other.vmm_binary = "another".to_string();
    assert_eq!(monitor_arguments(&other, 3, 4), monitor_arguments(&params(), 3, 4));
}

#[test]
fn invocation_runs_the_monitor_with_both_sockets() {
    let plan = invocation(&params(), 5, 7);
    assert_eq!(plan.program, "/usr/bin/qemu-system-x86_64");
    assert_eq!(plan.args, monitor_arguments(&params(), 5, 7));
    assert_eq!(plan.preserved_fds, vec![5, 7]);
    assert_eq!(plan.stdin, Stdio::Null);
    assert_eq!(plan.stdout, Stdio::Inherit);
    assert_eq!(plan.stderr, Stdio::Inherit);
}

#[test]
fn invocation_does_not_outlive_its_handle() {
    let mut params = params();
    assert!(invocation(&params, 3, 4).kill_on_drop);
    params.app_binary = None;
    params.gdb = Some(1);
    assert!(invocation(&params, 0, 1).kill_on_drop);
}
