//! Launch configuration of a guest instance.

use vstd::prelude::*;
use vstd::string::StringExecFns;

verus! {

/// Layout of the initial data handed to the guest at startup.
#[derive(Debug, Clone, Copy, PartialEq, Eq, Structural)]
pub enum InitialDataVersion {
    /// The raw application bytes.
    V0,
    /// A fixed header followed by the serialized application envelope.
    V1,
}

impl Default for InitialDataVersion {
    fn default() -> (version: Self)
        ensures
            version == InitialDataVersion::V0,
    {
        InitialDataVersion::V0
    }
}

/// Parameters used for launching a guest instance. Paths are held as text;
/// each one that names a file has been checked before the launcher sees it.
#[derive(Clone, Debug, PartialEq)]
pub struct Params {
    /// Path to the monitor executable.
    pub vmm_binary: String,
    /// Path to the kernel to load into the guest.
    pub kernel: String,
    /// Path to the application binary to hand to the guest, if any.
    pub app_binary: Option<String>,
    /// Path to the firmware image.
    pub bios_binary: String,
    /// Port on which the monitor waits for a debugger, if any.
    pub gdb: Option<u16>,
    /// How much memory to give to the guest, e.g. 256M.
    pub memory_size: Option<String>,
    /// Path to the initial RAM disk.
    pub initrd: String,
    /// Address of a host PCI device to pass through to the guest.
    pub pci_passthrough: Option<String>,
    /// Layout of the initial data.
    pub initial_data_version: InitialDataVersion,
}

/// What a look at the file system found under a path.
#[derive(Debug, Clone, PartialEq, Eq)]
pub enum PathProbe {
    /// A regular file.
    File,
    /// Something that is not a regular file.
    NotFile,
    /// Nothing that could be examined, with the reason.
    Unreadable(String),
}

/// The message with which a path that is not a file is refused.
pub open spec fn not_a_file_message() -> Seq<char> {
    "path does not represent a file"@
}

/// Accepts a path that names a regular file and refuses every other one:
/// with the probe's own reason where the path could not be examined, with
/// a fixed message where it is not a file.
pub fn path_exists(s: &str, probe: PathProbe) -> (checked: Result<String, String>)
    ensures
        match probe {
            PathProbe::File => checked is Ok && checked->Ok_0@ == s@,
            PathProbe::NotFile => checked is Err && checked->Err_0@ == not_a_file_message(),
            PathProbe::Unreadable(reason) => checked == Err::<String, String>(reason),
        },
{
    match probe {
        PathProbe::File => Ok(String::from_str(s)),
        PathProbe::NotFile => Err(String::from_str("path does not represent a file")),
        PathProbe::Unreadable(reason) => Err(reason),
    }
}

} // verus!
