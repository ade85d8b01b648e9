use vstd::prelude::*;
use crate::error::AppError;

verus! {

/// The operating-system families the resolver tells apart.
#[derive(Debug, Clone, Copy, PartialEq, Eq, Structural)]
pub enum HostOs {
    Linux,
    MacOs,
    Windows,
    Other,
}

/// How many package managers are probed on Linux.
pub const MANAGER_COUNT: usize = 4;

/// The binary of the `i`-th package manager, in priority order.
pub open spec fn manager_name(i: int) -> Seq<char> {
    if i == 0 {
        "apt-get"@
    } else if i == 1 {
        "dnf"@
    } else if i == 2 {
        "yum"@
    } else {
        "pacman"@
    }
}

/// The command that installs the VCS with the `i`-th package manager.
pub open spec fn manager_command(i: int) -> Seq<char> {
    if i == 0 {
        "sudo apt-get update && sudo apt-get install git"@
    } else if i == 1 {
        "sudo dnf install git"@
    } else if i == 2 {
        "sudo yum install git"@
    } else {
        "sudo pacman -Syu git"@
    }
}

pub open spec fn macos_command() -> Seq<char> {
    "xcode-select --install"@
}

pub open spec fn windows_command() -> Seq<char> {
    "Visit https://git-scm.com/download/win and run the installer."@
}

/// Whether probe `i` found its manager; probes not made count as not found.
pub open spec fn probe_found(found: Seq<bool>, i: int) -> bool {
    0 <= i < found.len() && found[i]
}

/// The first manager, from position `i` on, whose probe found it.
pub open spec fn first_found_from(found: Seq<bool>, i: int) -> Option<int>
    decreases MANAGER_COUNT - i,
{
    if i < 0 || i >= MANAGER_COUNT {
        None
    } else if probe_found(found, i) {
        Some(i)
    } else {
        first_found_from(found, i + 1)
    }
}

/// The install command for a system, given which managers were found.
pub open spec fn install_advice(os: HostOs, found: Seq<bool>) -> Option<Seq<char>> {
    match os {
        HostOs::Linux => match first_found_from(found, 0) {
            Some(i) => Some(manager_command(i)),
            None => None,
        },
        HostOs::MacOs => Some(macos_command()),
        HostOs::Windows => Some(windows_command()),
        HostOs::Other => None,
    }
}

/// The package managers to probe for, in priority order, each with the
/// command that installs the VCS through it.
pub fn package_managers() -> (r: Vec<(&'static str, &'static str)>)
    ensures
        r@.len() == MANAGER_COUNT,
        forall|i: int|
            0 <= i < MANAGER_COUNT ==> (#[trigger] r@[i]).0@ == manager_name(i) && r@[i].1@
                == manager_command(i),
{
    let mut r: Vec<(&'static str, &'static str)> = Vec::new();
    r.push(("apt-get", "sudo apt-get update && sudo apt-get install git"));
    r.push(("dnf", "sudo dnf install git"));
    r.push(("yum", "sudo yum install git"));
    r.push(("pacman", "sudo pacman -Syu git"));
    r
}

/// The command that installs the VCS. On Linux `found[i]` says whether the
/// `i`-th manager of `package_managers` is on the path; the first found
/// wins. Fails where no manager was found, or for an unknown system.
pub fn get_install_command(os: HostOs, found: &Vec<bool>) -> (r: Result<String, AppError>)
    ensures
        match install_advice(os, found@) {
            Some(c) => r is Ok && r->Ok_0@ == c,
            None => r is Err && r->Err_0 is PlatformDetectionFailed,
        },
{
    match os {
        HostOs::Linux => {
            let table = package_managers();
            let mut i: usize = 0;
            while i < table.len()
                invariant
                    os == HostOs::Linux,
                    table@.len() == MANAGER_COUNT,
                    forall|j: int|
                        0 <= j < MANAGER_COUNT ==> (#[trigger] table@[j]).1@ == manager_command(j),
                    i <= MANAGER_COUNT,
                    first_found_from(found@, 0) == first_found_from(found@, i as int),
                decreases MANAGER_COUNT - i,
            {
                if i < found.len() && found[i] {
                    assert(first_found_from(found@, i as int) == Some(i as int));
                    return Ok(table[i].1.to_owned());
                }
                i = i + 1;
            }
            Err(AppError::PlatformDetectionFailed)
        },
        HostOs::MacOs => Ok("xcode-select --install".to_owned()),
        HostOs::Windows => Ok("Visit https://git-scm.com/download/win and run the installer.".to_owned()),
        HostOs::Other => Err(AppError::PlatformDetectionFailed),
    }
}

} // verus!
