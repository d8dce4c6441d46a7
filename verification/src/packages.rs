//! What the installer installs: the distribution of the machine, its
//! package manager, and the packages that the program needs.

use vstd::prelude::*;
use vstd::string::*;
use crate::actuator::{command_views, CommandLine, CommandLineView};
use crate::installer::command_of;
use crate::text::{
    find_first, first_of, keyed_line_at, lemma_first_of, line_has_key, ByteClass,
};

verus! {

/// Tells whether two texts are the same.
fn same_text(a: &str, b: &str) -> (same: bool)
    ensures
        same == (a@ == b@),
{
    let a = String::from_str(a);
    let b = String::from_str(b);
    a == b
}

/// The package managers that the installer knows.
#[derive(Debug, Clone, Copy, PartialEq, Eq, Structural)]
pub enum PackageManager {
    Apt,
    Dnf,
    Pacman,
    Zypper,
    Apk,
}

/// The package manager of a distribution, by the distribution's id.
pub open spec fn manager_of(distro: Seq<char>) -> Option<PackageManager> {
    if distro == "ubuntu"@ || distro == "debian"@ {
        Some(PackageManager::Apt)
    } else if distro == "fedora"@ || distro == "centos"@ || distro == "rhel"@ {
        Some(PackageManager::Dnf)
    } else if distro == "arch"@ || distro == "manjaro"@ {
        Some(PackageManager::Pacman)
    } else if distro == "opensuse-tumbleweed"@ || distro == "opensuse-leap"@ {
        Some(PackageManager::Zypper)
    } else if distro == "alpine"@ {
        Some(PackageManager::Apk)
    } else {
        None
    }
}

/// The program of a package manager.
pub open spec fn manager_program(manager: PackageManager) -> Seq<char> {
    match manager {
        PackageManager::Apt => "apt"@,
        PackageManager::Dnf => "dnf"@,
        PackageManager::Pacman => "pacman"@,
        PackageManager::Zypper => "zypper"@,
        PackageManager::Apk => "apk"@,
    }
}

/// The packages that the program needs, as a package manager names them.
pub open spec fn base_packages(manager: PackageManager) -> Seq<Seq<char>> {
    match manager {
        PackageManager::Apt => seq![
            "pkg-config"@,
            "libglib2.0-dev"@,
            "libgtk-3-dev"@,
            "cpufrequtils"@,
            "procps"@,
            "libappindicator3-dev"@,
        ],
        PackageManager::Dnf => seq![
            "pkgconf-pkg-config"@,
            "glib2-devel"@,
            "gtk3-devel"@,
            "cpupowerutils"@,
            "procps-ng"@,
            "libappindicator-gtk3"@,
        ],
        PackageManager::Pacman => seq![
            "pkgconf"@,
            "glib2"@,
            "gtk3"@,
            "cpupower"@,
            "procps-ng"@,
            "libappindicator-gtk3"@,
        ],
        PackageManager::Zypper => seq![
            "pkg-config"@,
            "glib2-devel"@,
            "gtk3-devel"@,
            "cpupower"@,
            "procps"@,
            "libappindicator3-devel"@,
        ],
        PackageManager::Apk => seq![
            "pkgconfig"@,
            "glib-dev"@,
            "gtk+3.0-dev"@,
            "cpupower"@,
            "procps"@,
            "libappindicator-gtk3-dev"@,
        ],
    }
}

/// The package that an ARM machine needs on top.
pub const ARM_PACKAGE: &'static str = "libappindicator3-1:arm";

/// Whether an architecture is an ARM: its name begins with "arm", or is
/// "aarch64".
pub open spec fn is_arm(arch: Seq<char>) -> bool {
    "arm"@.is_prefix_of(arch) || arch == "aarch64"@
}

/// The packages to install on a machine, in the order of installation.
pub open spec fn packages_for(manager: PackageManager, arch: Seq<char>) -> Seq<Seq<char>> {
    if is_arm(arch) {
        base_packages(manager).push(ARM_PACKAGE@)
    } else {
        base_packages(manager)
    }
}

/// The command that installs one package.
pub open spec fn install_command(manager: PackageManager, package: Seq<char>) -> CommandLineView {
    CommandLineView {
        program: manager_program(manager),
        args: match manager {
            PackageManager::Apt => seq!["install"@, "-y"@, package],
            PackageManager::Dnf => seq!["install"@, "-y"@, package],
            PackageManager::Pacman => seq!["-Syu"@, "--noconfirm"@, package],
            PackageManager::Zypper => seq!["install"@, "-y"@, package],
            PackageManager::Apk => seq!["add"@, "--no-cache"@, package],
        },
    }
}

/// The commands that install the packages of a machine, one command per
/// package; nothing for a distribution that the installer does not know.
pub open spec fn install_commands(distro: Seq<char>, arch: Seq<char>) -> Option<
    Seq<CommandLineView>,
> {
    match manager_of(distro) {
        Some(manager) => Some(
            packages_for(manager, arch).map_values(
                |package: Seq<char>| install_command(manager, package),
            ),
        ),
        None => None,
    }
}

/// The view of an optional list of commands.
pub open spec fn commands_view(commands: Option<Vec<CommandLine>>) -> Option<Seq<CommandLineView>> {
    match commands {
        Some(c) => Some(command_views(c@)),
        None => None,
    }
}

/// Finds the package manager of a distribution.
pub fn package_manager(distro: &str) -> (manager: Option<PackageManager>)
    ensures
        manager == manager_of(distro@),
{
    if same_text(distro, "ubuntu") || same_text(distro, "debian") {
        Some(PackageManager::Apt)
    } else if same_text(distro, "fedora") || same_text(distro, "centos") || same_text(
        distro,
        "rhel",
    ) {
        Some(PackageManager::Dnf)
    } else if same_text(distro, "arch") || same_text(distro, "manjaro") {
        Some(PackageManager::Pacman)
    } else if same_text(distro, "opensuse-tumbleweed") || same_text(distro, "opensuse-leap") {
        Some(PackageManager::Zypper)
    } else if same_text(distro, "alpine") {
        Some(PackageManager::Apk)
    } else {
        None
    }
}

/// Tells whether an architecture is an ARM.
pub fn arch_is_arm(arch: &str) -> (arm: bool)
    ensures
        arm == is_arm(arch@),
{
    proof {
        reveal_strlit("arm");
    }
    if same_text(arch, "aarch64") {
        return true;
    }
    if arch.unicode_len() < 3 {
        return false;
    }
    let arm = arch.get_char(0) == 'a' && arch.get_char(1) == 'r' && arch.get_char(2) == 'm';
    proof {
        if arm {
            assert("arm"@ =~= arch@.subrange(0, 3));
        } else {
            if "arm"@.is_prefix_of(arch@) {
                assert(arch@.subrange(0, 3)[0] == arch@[0]);
                assert(arch@.subrange(0, 3)[1] == arch@[1]);
                assert(arch@.subrange(0, 3)[2] == arch@[2]);
            }
        }
    }
    arm
}

impl PackageManager {
    /// The program of the package manager.
    pub fn program(&self) -> (name: &'static str)
        ensures
            name@ == manager_program(*self),
    {
        match self {
            PackageManager::Apt => "apt",
            PackageManager::Dnf => "dnf",
            PackageManager::Pacman => "pacman",
            PackageManager::Zypper => "zypper",
            PackageManager::Apk => "apk",
        }
    }

    /// The packages that the program needs.
    pub fn packages(&self) -> (names: Vec<&'static str>)
        ensures
            names@.map_values(|n: &'static str| n@) == base_packages(*self),
    {
        let mut names: Vec<&'static str> = Vec::new();
        match self {
            PackageManager::Apt => {
                names.push("pkg-config");
                names.push("libglib2.0-dev");
                names.push("libgtk-3-dev");
                names.push("cpufrequtils");
                names.push("procps");
                names.push("libappindicator3-dev");
            },
            PackageManager::Dnf => {
                names.push("pkgconf-pkg-config");
                names.push("glib2-devel");
                names.push("gtk3-devel");
                names.push("cpupowerutils");
                names.push("procps-ng");
                names.push("libappindicator-gtk3");
            },
            PackageManager::Pacman => {
                names.push("pkgconf");
                names.push("glib2");
                names.push("gtk3");
                names.push("cpupower");
                names.push("procps-ng");
                names.push("libappindicator-gtk3");
            },
            PackageManager::Zypper => {
                names.push("pkg-config");
                names.push("glib2-devel");
                names.push("gtk3-devel");
                names.push("cpupower");
                names.push("procps");
                names.push("libappindicator3-devel");
            },
            PackageManager::Apk => {
                names.push("pkgconfig");
                names.push("glib-dev");
                names.push("gtk+3.0-dev");
                names.push("cpupower");
                names.push("procps");
                names.push("libappindicator-gtk3-dev");
            },
        }
        assert(names@.map_values(|n: &'static str| n@) =~= base_packages(*self));
        names
    }

    /// Writes the command that installs one package.
    pub fn install(&self, package: &str) -> (command: CommandLine)
        ensures
            command@ == install_command(*self, package@),
    {
        let command = match self {
            PackageManager::Apt => command_of("apt", "install", Some("-y"), Some(package)),
            PackageManager::Dnf => command_of("dnf", "install", Some("-y"), Some(package)),
            PackageManager::Pacman => command_of(
                "pacman",
                "-Syu",
                Some("--noconfirm"),
                Some(package),
            ),
            PackageManager::Zypper => command_of("zypper", "install", Some("-y"), Some(package)),
            PackageManager::Apk => command_of("apk", "add", Some("--no-cache"), Some(package)),
        };
        assert(command@.args =~= install_command(*self, package@).args);
        command
    }
}

/// Plans the installation of the packages that the program needs: one
/// command per package, in order.  The caller runs each of them as the
/// superuser and stops at the first that fails for good.  There is no plan
/// for a distribution that the installer does not know.
pub fn install_packages(distro: &str, arch: &str) -> (commands: Option<Vec<CommandLine>>)
    ensures
        commands_view(commands) == install_commands(distro@, arch@),
{
    let manager = match package_manager(distro) {
        Some(m) => m,
        None => {
            return None;
        },
    };
    let mut names = manager.packages();
    if arch_is_arm(arch) {
        let ghost before = names@;
        names.push(ARM_PACKAGE);
        assert(names@.map_values(|n: &'static str| n@) =~= before.map_values(
            |n: &'static str| n@,
        ).push(ARM_PACKAGE@));
    }
    assert(names@.map_values(|n: &'static str| n@) == packages_for(manager, arch@));
    let ghost wanted = packages_for(manager, arch@);
    let mut commands: Vec<CommandLine> = Vec::new();
    let mut i: usize = 0;
    while i < names.len()
        invariant
            i <= names.len(),
            names@.map_values(|n: &'static str| n@) == wanted,
            command_views(commands@) =~= wanted.take(i as int).map_values(
                |package: Seq<char>| install_command(manager, package),
            ),
        decreases names.len() - i,
    {
        let command = manager.install(names[i]);
        let ghost before = commands@;
        commands.push(command);
        proof {
            assert(wanted[i as int] == names@[i as int]@);
            assert(command_views(commands@) =~= command_views(before).push(command@));
        }
        i += 1;
    }
    proof {
        assert(wanted.take(i as int) =~= wanted);
    }
    Some(commands)
}

/// The listing that names the distribution.
pub const OS_RELEASE_PATH: &'static str = "/etc/os-release";

/// How the line of the distribution's id begins.
pub const DISTRO_KEY: &'static str = "ID=";

/// The carriage return.
pub const CARRIAGE_RETURN: u8 = 13;

/// The double quote.
pub const QUOTE: u8 = 34;

/// Where the first line begins that begins at or after `from` and begins
/// with `key`.
pub open spec fn first_keyed_line(data: Seq<u8>, key: Seq<char>, from: int) -> Option<int>
    decreases data.len() - from,
{
    if from < 0 || from >= data.len() {
        None
    } else if line_has_key(data, from, key) {
        Some(from)
    } else {
        first_keyed_line(data, key, from + 1)
    }
}

/// The line that begins at `at`, without the line feed, or the carriage
/// return and line feed, that ends it.
pub open spec fn line_text(data: Seq<u8>, at: int) -> Seq<u8> {
    let end = first_of(data, at, ByteClass::Newline);
    if at < end < data.len() && data[end - 1] == CARRIAGE_RETURN {
        data.subrange(at, end - 1)
    } else {
        data.subrange(at, end)
    }
}

/// A text without the bytes `b` at its start.
pub open spec fn without_leading(text: Seq<u8>, b: u8) -> Seq<u8>
    decreases text.len(),
{
    if text.len() > 0 && text[0] == b {
        without_leading(text.drop_first(), b)
    } else {
        text
    }
}

/// A text without the bytes `b` at its end.
pub open spec fn without_trailing(text: Seq<u8>, b: u8) -> Seq<u8>
    decreases text.len(),
{
    if text.len() > 0 && text.last() == b {
        without_trailing(text.drop_last(), b)
    } else {
        text
    }
}

/// The small letter of a capital letter of ASCII; any other byte as it is.
pub open spec fn lower(b: u8) -> u8 {
    if 65 <= b && b <= 90 {
        (b + 32) as u8
    } else {
        b
    }
}

/// The id of the distribution that a listing names: what stands behind the
/// key on the first line that begins with the key, without the double
/// quotes around it, in small letters.
pub open spec fn distro_id(os_release: Seq<u8>) -> Option<Seq<u8>> {
    match first_keyed_line(os_release, DISTRO_KEY@, 0) {
        Some(at) => Some(
            without_trailing(
                without_leading(line_text(os_release, at).skip(3), QUOTE),
                QUOTE,
            ).map_values(|b: u8| lower(b)),
        ),
        None => None,
    }
}

/// What is left of a text whose first `n` bytes are `b` and whose next byte
/// is another.
proof fn lemma_without_leading(text: Seq<u8>, b: u8, n: int)
    requires
        0 <= n <= text.len(),
        forall|i: int| 0 <= i < n ==> text[i] == b,
        n < text.len() ==> text[n] != b,
    ensures
        without_leading(text, b) == text.subrange(n, text.len() as int),
    decreases n,
{
    if n == 0 {
        assert(text.subrange(0, text.len() as int) =~= text);
    } else {
        let rest = text.drop_first();
        assert forall|i: int| 0 <= i < n - 1 implies rest[i] == b by {
            assert(rest[i] == text[i + 1]);
        }
        lemma_without_leading(rest, b, n - 1);
        assert(rest.subrange(n - 1, rest.len() as int) =~= text.subrange(n, text.len() as int));
    }
}

/// What is left of a text whose bytes from `n` on are `b` and whose byte
/// before them is another.
proof fn lemma_without_trailing(text: Seq<u8>, b: u8, n: int)
    requires
        0 <= n <= text.len(),
        forall|i: int| n <= i < text.len() ==> text[i] == b,
        n > 0 ==> text[n - 1] != b,
    ensures
        without_trailing(text, b) == text.subrange(0, n),
    decreases text.len() - n,
{
    if n == text.len() {
        assert(text.subrange(0, n) =~= text);
    } else {
        let rest = text.drop_last();
        lemma_without_trailing(rest, b, n);
        assert(rest.subrange(0, n) =~= text.subrange(0, n));
    }
}

/// The view of an optional list of bytes.
pub open spec fn id_view(id: Option<Vec<u8>>) -> Option<Seq<u8>> {
    match id {
        Some(v) => Some(v@),
        None => None,
    }
}

/// Reads the id of the distribution from the listing that names it.
pub fn detect_distro(os_release: &[u8]) -> (id: Option<Vec<u8>>)
    ensures
        id_view(id) == distro_id(os_release@),
{
    proof {
        reveal_strlit("ID=");
    }
    let mut at: usize = 0;
    while at < os_release.len()
        invariant
            at <= os_release.len(),
            DISTRO_KEY.is_ascii(),
            DISTRO_KEY@.len() == 3,
            DISTRO_KEY@[0] == 'I',
            DISTRO_KEY@[1] == 'D',
            DISTRO_KEY@[2] == '=',
            first_keyed_line(os_release@, DISTRO_KEY@, 0) == first_keyed_line(
                os_release@,
                DISTRO_KEY@,
                at as int,
            ),
        decreases os_release.len() - at,
    {
        if keyed_line_at(os_release, at, DISTRO_KEY) {
            let end = find_first(os_release, at, ByteClass::Newline);
            proof {
                lemma_first_of(os_release@, at as int, ByteClass::Newline);
                assert(os_release@[at + 0] == 'I' as u8);
                assert(os_release@[at + 1] == 'D' as u8);
                assert(os_release@[at + 2] == '=' as u8);
                if end < at + 3 {
                    assert(os_release@[end as int] == 10);
                }
            }
            let stop: usize = if end < os_release.len() && end > at && os_release[end - 1]
                == CARRIAGE_RETURN {
                end - 1
            } else {
                end
            };
            let from: usize = at + 3;
            let ghost value = os_release@.subrange(from as int, stop as int);
            proof {
                assert(line_text(os_release@, at as int).skip(3) =~= value);
            }
            let mut a: usize = from;
            while a < stop && os_release[a] == QUOTE
                invariant
                    from <= a <= stop <= os_release.len(),
                    forall|i: int| from <= i < a ==> os_release@[i] == QUOTE,
                decreases stop - a,
            {
                a += 1;
            }
            let mut b: usize = stop;
            while b > a && os_release[b - 1] == QUOTE
                invariant
                    a <= b <= stop <= os_release.len(),
                    forall|i: int| b <= i < stop ==> os_release@[i] == QUOTE,
                decreases b,
            {
                b -= 1;
            }
            proof {
                lemma_without_leading(value, QUOTE, a - from);
                let rest = value.subrange(a - from, value.len() as int);
                assert(rest =~= os_release@.subrange(a as int, stop as int));
                lemma_without_trailing(rest, QUOTE, b - a);
                assert(rest.subrange(0, b - a) =~= os_release@.subrange(a as int, b as int));
            }
            let ghost bare = os_release@.subrange(a as int, b as int);
            let mut id: Vec<u8> = Vec::new();
            let mut k: usize = a;
            while k < b
                invariant
                    a <= k <= b <= os_release.len(),
                    bare == os_release@.subrange(a as int, b as int),
                    id@ =~= bare.take(k - a).map_values(|b: u8| lower(b)),
                decreases b - k,
            {
                let byte = os_release[k];
                let small: u8 = if 65 <= byte && byte <= 90 {
                    byte + 32
                } else {
                    byte
                };
                id.push(small);
                k += 1;
            }
            proof {
                assert(bare.take(k - a) =~= bare);
            }
            return Some(id);
        }
        at += 1;
    }
    None
}

} // verus!
