use vstd::prelude::*;

verus! {

/// The operating systems the installer distinguishes. The build-time
/// detection lives with the caller; the library only maps the platform
/// to its names.
#[derive(PartialEq, Eq, Structural, Clone, Copy, Debug)]
pub enum Os {
    Windows,
    Macos,
    Linux,
    Other,
}

/// The processor architectures the installer distinguishes.
#[derive(PartialEq, Eq, Structural, Clone, Copy, Debug)]
pub enum Arch {
    X86_64,
    Aarch64,
    Other,
}

/// The platform name used in asset naming conventions.
pub fn get_platform(os: Os) -> (r: &'static str)
    ensures
        os == Os::Windows ==> r@ == "windows"@,
        os == Os::Macos ==> r@ == "macos"@,
        os == Os::Linux ==> r@ == "linux"@,
        os == Os::Other ==> r@ == "unknown"@,
{
    match os {
        Os::Windows => "windows",
        Os::Macos => "macos",
        Os::Linux => "linux",
        Os::Other => "unknown",
    }
}

/// The architecture name used in asset naming conventions.
pub fn get_arch(arch: Arch) -> (r: &'static str)
    ensures
        arch == Arch::X86_64 ==> r@ == "x86_64"@,
        arch == Arch::Aarch64 ==> r@ == "aarch64"@,
        arch == Arch::Other ==> r@ == "unknown"@,
{
    match arch {
        Arch::X86_64 => "x86_64",
        Arch::Aarch64 => "aarch64",
        Arch::Other => "unknown",
    }
}

/// The filename extension executables carry on the platform.
pub fn get_binary_extension(os: Os) -> (r: &'static str)
    ensures
        os == Os::Windows ==> r@ == "exe"@,
        os != Os::Windows ==> r@ == ""@,
{
    match os {
        Os::Windows => "exe",
        _ => "",
    }
}

} // verus!
