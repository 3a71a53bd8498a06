//! The two families of operating system the supervisor knows how to drive.

use vstd::prelude::*;

verus! {

/// The process lifecycle backend in use.
#[derive(Clone, Copy, Debug, PartialEq, Eq, Structural)]
pub enum Platform {
    /// Process groups exist; a child can be made leader of a new one.
    Posix,
    /// No process groups; a console child would open a window unless told not to.
    Windows,
}

/// File name of the bundled server binary, as text.
pub open spec fn sidecar_name_text(platform: Platform) -> Seq<char> {
    match platform {
        Platform::Windows => "bord-server.exe"@,
        Platform::Posix => "bord-server"@,
    }
}

/// File name of the bundled server binary on the given platform.
pub fn sidecar_name(platform: Platform) -> (name: &'static str)
    ensures
        name@ == sidecar_name_text(platform),
{
    match platform {
        Platform::Windows => "bord-server.exe",
        Platform::Posix => "bord-server",
    }
}

/// Process creation flag that keeps a console child from opening a window.
pub const CREATE_NO_WINDOW: u32 = 0x0800_0000;

/// Creation flags that a spawn on the given platform passes to the system.
pub open spec fn creation_flags_for(platform: Platform) -> u32 {
    match platform {
        Platform::Windows => CREATE_NO_WINDOW,
        Platform::Posix => 0,
    }
}

/// Whether files on the given platform carry permission bits that decide
/// who may execute them.
pub open spec fn uses_permission_bits(platform: Platform) -> bool {
    platform == Platform::Posix
}

/// Whether a spawn on the given platform puts the child at the head of a
/// process group of its own, so that its descendants can be signalled with it.
pub open spec fn leads_own_group(platform: Platform) -> bool {
    platform == Platform::Posix
}

} // verus!
