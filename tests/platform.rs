use gitup::error::AppError;
use gitup::platform::{get_install_command, package_managers, HostOs};

#[test]
fn linux_without_any_manager_fails() {
    assert_eq!(
        get_install_command(HostOs::Linux, &vec![false, false, false, false]),
        Err(AppError::PlatformDetectionFailed)
    );
    assert_eq!(get_install_command(HostOs::Linux, &vec![]), Err(AppError::PlatformDetectionFailed));
}

#[test]
fn linux_first_found_manager_wins() {
    assert_eq!(
        get_install_command(HostOs::Linux, &vec![true, true, true, true]),
        Ok("sudo apt-get update && sudo apt-get install git".to_string())
    );
    assert_eq!(
        get_install_command(HostOs::Linux, &vec![false, true, true, false]),
        Ok("sudo dnf install git".to_string())
    );
    assert_eq!(
        get_install_command(HostOs::Linux, &vec![false, false, true, true]),
        Ok("sudo yum install git".to_string())
    );
    assert_eq!(
        get_install_command(HostOs::Linux, &vec![false, false, false, true]),
        Ok("sudo pacman -Syu git".to_string())
    );
}

#[test]
fn fixed_commands_for_mac_and_windows() {
    assert_eq!(get_install_command(HostOs::MacOs, &vec![]), Ok("xcode-select --install".to_string()));
    assert_eq!(
        get_install_command(HostOs::Windows, &vec![]),
        Ok("Visit https://git-scm.com/download/win and run the installer.".to_string())
    );
    assert_eq!(get_install_command(HostOs::Other, &vec![true]), Err(AppError::PlatformDetectionFailed));
}

#[test]
fn managers_are_probed_in_priority_order() {
    let names: Vec<&str> = package_managers().iter().map(|p| p.0).collect();
    assert_eq!(names, vec!["apt-get", "dnf", "yum", "pacman"]);
}
