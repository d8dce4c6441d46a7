use hayaku_ike::actuator::CommandLine;
use hayaku_ike::packages::{arch_is_arm, detect_distro, install_packages, package_manager, PackageManager};

fn line(c: &CommandLine) -> String {
    let mut parts = vec![c.program.clone()];
    parts.extend(c.args.iter().cloned());
    parts.join(" ")
}

fn distro(listing: &str) -> Option<String> {
    detect_distro(listing.as_bytes()).map(|id| String::from_utf8(id).unwrap())
}

#[test]
fn distribution_id_is_read_from_the_first_id_line() {
    assert_eq!(distro("NAME=\"Ubuntu\"\nID=ubuntu\nID_LIKE=debian\n").as_deref(), Some("ubuntu"));
    assert_eq!(distro("ID=\"opensuse-leap\"\n").as_deref(), Some("opensuse-leap"));
    assert_eq!(distro("ID=Fedora").as_deref(), Some("fedora"));
    assert_eq!(distro("ID=\"\"Arch\"\"\r\nID=debian\n").as_deref(), Some("arch"));
    assert_eq!(distro("ID=\n").as_deref(), Some(""));
    assert_eq!(distro("ID=\"\"").as_deref(), Some(""));
    assert_eq!(distro("ID=a\"b\n").as_deref(), Some("a\"b"));
    assert_eq!(distro("ID=alpine\r").as_deref(), Some("alpine\r"));
    assert_eq!(distro("ID_LIKE=debian\nVERSION_ID=\"22.04\"\n"), None);
    assert_eq!(distro(" ID=ubuntu\n"), None);
    assert_eq!(distro(""), None);
    assert_eq!(distro("ID"), None);
}

#[test]
fn distribution_id_is_read_as_the_standard_library_reads_it() {
    for listing in [
        "NAME=x\nID=\"Debian\"\nID=other\n",
        "ID=\"quoted\"\r\n",
        "ID==\"x\"",
        "ID=\"\"\"\n",
        "PRETTY=1\n\nID=MANJARO\n",
        "nothing here",
    ] {
        let mut expected = None;
        for l in listing.lines() {
            if l.starts_with("ID=") {
                expected = Some(l[3..].trim_matches('"').to_lowercase());
                break;
            }
        }
        assert_eq!(distro(listing), expected, "{:?}", listing);
    }
}

#[test]
fn every_known_distribution_has_its_manager() {
    assert_eq!(package_manager("ubuntu"), Some(PackageManager::Apt));
    assert_eq!(package_manager("debian"), Some(PackageManager::Apt));
    assert_eq!(package_manager("fedora"), Some(PackageManager::Dnf));
    assert_eq!(package_manager("centos"), Some(PackageManager::Dnf));
    assert_eq!(package_manager("rhel"), Some(PackageManager::Dnf));
    assert_eq!(package_manager("arch"), Some(PackageManager::Pacman));
    assert_eq!(package_manager("manjaro"), Some(PackageManager::Pacman));
    assert_eq!(package_manager("opensuse-tumbleweed"), Some(PackageManager::Zypper));
    assert_eq!(package_manager("opensuse-leap"), Some(PackageManager::Zypper));
    assert_eq!(package_manager("alpine"), Some(PackageManager::Apk));
    assert_eq!(package_manager("gentoo"), None);
    assert_eq!(package_manager("Ubuntu"), None);
    assert_eq!(package_manager(""), None);
    assert_eq!(PackageManager::Apt.program(), "apt");
    assert_eq!(PackageManager::Dnf.program(), "dnf");
    assert_eq!(PackageManager::Pacman.program(), "pacman");
    assert_eq!(PackageManager::Zypper.program(), "zypper");
    assert_eq!(PackageManager::Apk.program(), "apk");
}

#[test]
fn arm_machines_are_told_by_the_name_of_the_architecture() {
    assert!(arch_is_arm("arm"));
    assert!(arch_is_arm("armv7l"));
    assert!(arch_is_arm("aarch64"));
    assert!(!arch_is_arm("x86_64"));
    assert!(!arch_is_arm("aarch64_be"));
    assert!(!arch_is_arm("ar"));
    assert!(!arch_is_arm(""));
    assert!(!arch_is_arm("Arm"));
    assert!(!arch_is_arm("unknown"));
}

#[test]
fn packages_are_installed_one_by_one() {
    let commands = install_packages("ubuntu", "x86_64").unwrap();
    let lines: Vec<String> = commands.iter().map(line).collect();
    assert_eq!(
        lines,
        vec![
            "apt install -y pkg-config",
            "apt install -y libglib2.0-dev",
            "apt install -y libgtk-3-dev",
            "apt install -y cpufrequtils",
            "apt install -y procps",
            "apt install -y libappindicator3-dev",
        ]
    );
    let commands = install_packages("manjaro", "aarch64").unwrap();
    let lines: Vec<String> = commands.iter().map(line).collect();
    assert_eq!(
        lines,
        vec![
            "pacman -Syu --noconfirm pkgconf",
            "pacman -Syu --noconfirm glib2",
            "pacman -Syu --noconfirm gtk3",
            "pacman -Syu --noconfirm cpupower",
            "pacman -Syu --noconfirm procps-ng",
            "pacman -Syu --noconfirm libappindicator-gtk3",
            "pacman -Syu --noconfirm libappindicator3-1:arm",
        ]
    );
    let commands = install_packages("alpine", "armv7l").unwrap();
    assert_eq!(commands.len(), 7);
    assert_eq!(line(&commands[0]), "apk add --no-cache pkgconfig");
    assert_eq!(line(&commands[2]), "apk add --no-cache gtk+3.0-dev");
    assert_eq!(line(&commands[6]), "apk add --no-cache libappindicator3-1:arm");
    let commands = install_packages("rhel", "x86_64").unwrap();
    assert_eq!(commands.len(), 6);
    assert_eq!(line(&commands[0]), "dnf install -y pkgconf-pkg-config");
    assert_eq!(line(&commands[3]), "dnf install -y cpupowerutils");
    let commands = install_packages("opensuse-leap", "x86_64").unwrap();
    assert_eq!(line(&commands[5]), "zypper install -y libappindicator3-devel");
    assert!(install_packages("gentoo", "x86_64").is_none());
    assert!(install_packages("", "arm").is_none());
}

#[test]
fn every_manager_names_six_packages() {
    for manager in [
        PackageManager::Apt,
        PackageManager::Dnf,
        PackageManager::Pacman,
        PackageManager::Zypper,
        PackageManager::Apk,
    ] {
        assert_eq!(manager.packages().len(), 6);
        let command = manager.install("some-package");
        assert_eq!(command.program, manager.program());
        assert_eq!(command.args.len(), 3);
        assert_eq!(command.args[2], "some-package");
    }
    assert_eq!(
        PackageManager::Zypper.packages(),
        vec!["pkg-config", "glib2-devel", "gtk3-devel", "cpupower", "procps", "libappindicator3-devel"]
    );
}
