//! The image browser: which icon stands for a distribution.

use crate::text::{chars_of, contains, holds, lowercase_of, to_lowercase};
use vstd::prelude::*;

verus! {

/// The icon for a distribution of the Ubuntu family, told from its identifier in
/// lower case; the tests come in this order, and the first that holds
/// decides.
pub open spec fn ubuntu_icon(id: Seq<char>) -> Option<Seq<char>> {
    if contains(id, "ubuntu"@) && !contains(id, "kubuntu"@) && !contains(id, "xubuntu"@) && !contains(id, "lubuntu"@) && !contains(id, "mate"@) {
        Some("ubuntu"@)
    } else if contains(id, "kubuntu"@) {
        Some("kubuntu"@)
    } else if contains(id, "xubuntu"@) {
        Some("xubuntu"@)
    } else if contains(id, "lubuntu"@) {
        Some("lubuntu"@)
    } else if contains(id, "mate"@) {
        Some("ubuntumate"@)
    } else if contains(id, "pop"@) {
        Some("popos"@)
    } else if contains(id, "zorin"@) {
        Some("zorin"@)
    } else if contains(id, "elementary"@) {
        Some("elementary"@)
    } else if contains(id, "bodhi"@) {
        Some("ubuntu"@)
    } else if contains(id, "trisquel"@) {
        Some("ubuntu"@)
    } else {
        None
    }
}

/// Picks the icon for a distribution of the Ubuntu family.
fn pick_ubuntu_icon(s: &[char]) -> (r: Option<&'static str>)
    ensures
        match r {
            Some(name) => ubuntu_icon(s@) == Some(name@),
            None => ubuntu_icon(s@) is None,
        },
{
    if holds(s, "ubuntu") && !holds(s, "kubuntu") && !holds(s, "xubuntu") && !holds(s, "lubuntu") && !holds(s, "mate") {
        Some("ubuntu")
    } else if holds(s, "kubuntu") {
        Some("kubuntu")
    } else if holds(s, "xubuntu") {
        Some("xubuntu")
    } else if holds(s, "lubuntu") {
        Some("lubuntu")
    } else if holds(s, "mate") {
        Some("ubuntumate")
    } else if holds(s, "pop") {
        Some("popos")
    } else if holds(s, "zorin") {
        Some("zorin")
    } else if holds(s, "elementary") {
        Some("elementary")
    } else if holds(s, "bodhi") {
        Some("ubuntu")
    } else if holds(s, "trisquel") {
        Some("ubuntu")
    } else {
        None
    }
}

/// The icon for a distribution of the Fedora family, told from its identifier in
/// lower case; the tests come in this order, and the first that holds
/// decides.
pub open spec fn fedora_icon(id: Seq<char>) -> Option<Seq<char>> {
    if contains(id, "fedora"@) {
        Some("fedora"@)
    } else if contains(id, "centos"@) {
        Some("centos"@)
    } else if contains(id, "rocky"@) {
        Some("rockylinux"@)
    } else if contains(id, "alma"@) {
        Some("almalinux"@)
    } else if contains(id, "rhel"@) {
        Some("fedora"@)
    } else if contains(id, "oracle-linux"@) || contains(id, "oracle"@) {
        Some("fedora"@)
    } else if contains(id, "eurolinux"@) {
        Some("fedora"@)
    } else if contains(id, "scientific-linux"@) {
        Some("fedora"@)
    } else if contains(id, "nst-"@) {
        Some("fedora"@)
    } else {
        None
    }
}

/// Picks the icon for a distribution of the Fedora family.
fn pick_fedora_icon(s: &[char]) -> (r: Option<&'static str>)
    ensures
        match r {
            Some(name) => fedora_icon(s@) == Some(name@),
            None => fedora_icon(s@) is None,
        },
{
    if holds(s, "fedora") {
        Some("fedora")
    } else if holds(s, "centos") {
        Some("centos")
    } else if holds(s, "rocky") {
        Some("rockylinux")
    } else if holds(s, "alma") {
        Some("almalinux")
    } else if holds(s, "rhel") {
        Some("fedora")
    } else if holds(s, "oracle-linux") || holds(s, "oracle") {
        Some("fedora")
    } else if holds(s, "eurolinux") {
        Some("fedora")
    } else if holds(s, "scientific-linux") {
        Some("fedora")
    } else if holds(s, "nst-") {
        Some("fedora")
    } else {
        None
    }
}

/// The icon for a distribution of the Debian family, told from its identifier in
/// lower case; the tests come in this order, and the first that holds
/// decides.
pub open spec fn debian_icon(id: Seq<char>) -> Option<Seq<char>> {
    if contains(id, "debian"@) {
        Some("debian"@)
    } else if contains(id, "mx"@) {
        Some("mxlinux"@)
    } else if contains(id, "antix"@) {
        Some("debian"@)
    } else if contains(id, "devuan"@) {
        Some("debian"@)
    } else if contains(id, "sparky"@) {
        Some("debian"@)
    } else if contains(id, "peppermint"@) {
        Some("debian"@)
    } else if contains(id, "parrot"@) {
        Some("parrotsecurity"@)
    } else if contains(id, "vanilla"@) {
        Some("debian"@)
    } else if contains(id, "bugtraq"@) {
        Some("debian"@)
    } else if contains(id, "backbox"@) {
        Some("ubuntu"@)
    } else if contains(id, "caine"@) {
        Some("ubuntu"@)
    } else if contains(id, "remnux"@) {
        Some("ubuntu"@)
    } else if contains(id, "deft"@) {
        Some("ubuntu"@)
    } else {
        None
    }
}

/// Picks the icon for a distribution of the Debian family.
fn pick_debian_icon(s: &[char]) -> (r: Option<&'static str>)
    ensures
        match r {
            Some(name) => debian_icon(s@) == Some(name@),
            None => debian_icon(s@) is None,
        },
{
    if holds(s, "debian") {
        Some("debian")
    } else if holds(s, "mx") {
        Some("mxlinux")
    } else if holds(s, "antix") {
        Some("debian")
    } else if holds(s, "devuan") {
        Some("debian")
    } else if holds(s, "sparky") {
        Some("debian")
    } else if holds(s, "peppermint") {
        Some("debian")
    } else if holds(s, "parrot") {
        Some("parrotsecurity")
    } else if holds(s, "vanilla") {
        Some("debian")
    } else if holds(s, "bugtraq") {
        Some("debian")
    } else if holds(s, "backbox") {
        Some("ubuntu")
    } else if holds(s, "caine") {
        Some("ubuntu")
    } else if holds(s, "remnux") {
        Some("ubuntu")
    } else if holds(s, "deft") {
        Some("ubuntu")
    } else {
        None
    }
}

/// The icon for a distribution of the Arch family, told from its identifier in
/// lower case; the tests come in this order, and the first that holds
/// decides.
pub open spec fn arch_icon(id: Seq<char>) -> Option<Seq<char>> {
    if contains(id, "arch"@) && !contains(id, "black"@) {
        Some("archlinux"@)
    } else if contains(id, "manjaro"@) {
        Some("manjaro"@)
    } else if contains(id, "endeavour"@) {
        Some("endeavouros"@)
    } else if contains(id, "garuda"@) {
        Some("garudalinux"@)
    } else if contains(id, "artix"@) {
        Some("artixlinux"@)
    } else if contains(id, "cachy"@) {
        Some("archlinux"@)
    } else if contains(id, "arco"@) {
        Some("archlinux"@)
    } else if contains(id, "xero"@) {
        Some("archlinux"@)
    } else if contains(id, "archcraft"@) {
        Some("archlinux"@)
    } else if contains(id, "crystal"@) {
        Some("crystal"@)
    } else if contains(id, "reborn"@) {
        Some("archlinux"@)
    } else if contains(id, "biglinux"@) {
        Some("archlinux"@)
    } else if contains(id, "parabola"@) {
        Some("archlinux"@)
    } else if contains(id, "blend"@) {
        Some("archlinux"@)
    } else if contains(id, "blackarch"@) {
        Some("archlinux"@)
    } else if contains(id, "athena"@) {
        Some("archlinux"@)
    } else if contains(id, "archstrike"@) {
        Some("archlinux"@)
    } else {
        None
    }
}

/// Picks the icon for a distribution of the Arch family.
fn pick_arch_icon(s: &[char]) -> (r: Option<&'static str>)
    ensures
        match r {
            Some(name) => arch_icon(s@) == Some(name@),
            None => arch_icon(s@) is None,
        },
{
    if holds(s, "arch") && !holds(s, "black") {
        Some("archlinux")
    } else if holds(s, "manjaro") {
        Some("manjaro")
    } else if holds(s, "endeavour") {
        Some("endeavouros")
    } else if holds(s, "garuda") {
        Some("garudalinux")
    } else if holds(s, "artix") {
        Some("artixlinux")
    } else if holds(s, "cachy") {
        Some("archlinux")
    } else if holds(s, "arco") {
        Some("archlinux")
    } else if holds(s, "xero") {
        Some("archlinux")
    } else if holds(s, "archcraft") {
        Some("archlinux")
    } else if holds(s, "crystal") {
        Some("crystal")
    } else if holds(s, "reborn") {
        Some("archlinux")
    } else if holds(s, "biglinux") {
        Some("archlinux")
    } else if holds(s, "parabola") {
        Some("archlinux")
    } else if holds(s, "blend") {
        Some("archlinux")
    } else if holds(s, "blackarch") {
        Some("archlinux")
    } else if holds(s, "athena") {
        Some("archlinux")
    } else if holds(s, "archstrike") {
        Some("archlinux")
    } else {
        None
    }
}

/// The icon for a distribution of Mint, the SUSE family and the Gentoo family, told from its identifier in
/// lower case; the tests come in this order, and the first that holds
/// decides.
pub open spec fn suse_icon(id: Seq<char>) -> Option<Seq<char>> {
    if contains(id, "mint"@) {
        Some("linuxmint"@)
    } else if contains(id, "opensuse"@) || contains(id, "suse"@) {
        Some("opensuse"@)
    } else if contains(id, "gentoo"@) {
        Some("gentoo"@)
    } else if contains(id, "pentoo"@) {
        Some("gentoo"@)
    } else {
        None
    }
}

/// Picks the icon for a distribution of Mint, the SUSE family and the Gentoo family.
fn pick_suse_icon(s: &[char]) -> (r: Option<&'static str>)
    ensures
        match r {
            Some(name) => suse_icon(s@) == Some(name@),
            None => suse_icon(s@) is None,
        },
{
    if holds(s, "mint") {
        Some("linuxmint")
    } else if holds(s, "opensuse") || holds(s, "suse") {
        Some("opensuse")
    } else if holds(s, "gentoo") {
        Some("gentoo")
    } else if holds(s, "pentoo") {
        Some("gentoo")
    } else {
        None
    }
}

/// The icon for a distribution of distributions for security work, told from its identifier in
/// lower case; the tests come in this order, and the first that holds
/// decides.
pub open spec fn security_icon(id: Seq<char>) -> Option<Seq<char>> {
    if contains(id, "kali"@) {
        Some("kalilinux"@)
    } else if contains(id, "tails"@) {
        Some("tails"@)
    } else if contains(id, "qubes"@) {
        Some("qubesos"@)
    } else if contains(id, "security-onion"@) {
        Some("kalilinux"@)
    } else if contains(id, "dracos"@) {
        Some("kalilinux"@)
    } else if contains(id, "wifislax"@) {
        Some("kalilinux"@)
    } else if contains(id, "samurai"@) {
        Some("kalilinux"@)
    } else {
        None
    }
}

/// Picks the icon for a distribution of distributions for security work.
fn pick_security_icon(s: &[char]) -> (r: Option<&'static str>)
    ensures
        match r {
            Some(name) => security_icon(s@) == Some(name@),
            None => security_icon(s@) is None,
        },
{
    if holds(s, "kali") {
        Some("kalilinux")
    } else if holds(s, "tails") {
        Some("tails")
    } else if holds(s, "qubes") {
        Some("qubesos")
    } else if holds(s, "security-onion") {
        Some("kalilinux")
    } else if holds(s, "dracos") {
        Some("kalilinux")
    } else if holds(s, "wifislax") {
        Some("kalilinux")
    } else if holds(s, "samurai") {
        Some("kalilinux")
    } else {
        None
    }
}

/// The icon for a distribution of single-board computers, Android and gaming, told from its identifier in
/// lower case; the tests come in this order, and the first that holds
/// decides.
pub open spec fn embedded_icon(id: Seq<char>) -> Option<Seq<char>> {
    if contains(id, "raspios"@) || contains(id, "raspberry"@) {
        Some("raspberrypi"@)
    } else if contains(id, "dietpi"@) {
        Some("raspberrypi"@)
    } else if contains(id, "libreelec"@) {
        Some("raspberrypi"@)
    } else if contains(id, "retropie"@) {
        Some("raspberrypi"@)
    } else if contains(id, "recalbox"@) {
        Some("raspberrypi"@)
    } else if contains(id, "batocera"@) {
        Some("raspberrypi"@)
    } else if contains(id, "volumio"@) {
        Some("raspberrypi"@)
    } else if contains(id, "home-assistant"@) {
        Some("raspberrypi"@)
    } else if contains(id, "android"@) {
        Some("android"@)
    } else if contains(id, "bliss"@) {
        Some("android"@)
    } else if contains(id, "prime"@) && contains(id, "os"@) {
        Some("android"@)
    } else if contains(id, "bazzite"@) {
        Some("fedora"@)
    } else if contains(id, "nobara"@) {
        Some("fedora"@)
    } else if contains(id, "chimera"@) {
        Some("archlinux"@)
    } else if contains(id, "steam"@) && contains(id, "os"@) {
        Some("archlinux"@)
    } else {
        None
    }
}

/// Picks the icon for a distribution of single-board computers, Android and gaming.
fn pick_embedded_icon(s: &[char]) -> (r: Option<&'static str>)
    ensures
        match r {
            Some(name) => embedded_icon(s@) == Some(name@),
            None => embedded_icon(s@) is None,
        },
{
    if holds(s, "raspios") || holds(s, "raspberry") {
        Some("raspberrypi")
    } else if holds(s, "dietpi") {
        Some("raspberrypi")
    } else if holds(s, "libreelec") {
        Some("raspberrypi")
    } else if holds(s, "retropie") {
        Some("raspberrypi")
    } else if holds(s, "recalbox") {
        Some("raspberrypi")
    } else if holds(s, "batocera") {
        Some("raspberrypi")
    } else if holds(s, "volumio") {
        Some("raspberrypi")
    } else if holds(s, "home-assistant") {
        Some("raspberrypi")
    } else if holds(s, "android") {
        Some("android")
    } else if holds(s, "bliss") {
        Some("android")
    } else if holds(s, "prime") && holds(s, "os") {
        Some("android")
    } else if holds(s, "bazzite") {
        Some("fedora")
    } else if holds(s, "nobara") {
        Some("fedora")
    } else if holds(s, "chimera") {
        Some("archlinux")
    } else if holds(s, "steam") && holds(s, "os") {
        Some("archlinux")
    } else {
        None
    }
}

/// The icon for a distribution of independent distributions, told from its identifier in
/// lower case; the tests come in this order, and the first that holds
/// decides.
pub open spec fn independent_icon(id: Seq<char>) -> Option<Seq<char>> {
    if contains(id, "popos"@) || contains(id, "pop_os"@) || contains(id, "pop!"@) {
        Some("popos"@)
    } else if contains(id, "elementary"@) {
        Some("elementary"@)
    } else if contains(id, "zorin"@) {
        Some("zorin"@)
    } else if contains(id, "linux-lite"@) || contains(id, "linux lite"@) {
        Some("ubuntu"@)
    } else if contains(id, "nixos"@) {
        Some("nixos"@)
    } else if contains(id, "alpine"@) {
        Some("alpinelinux"@)
    } else if contains(id, "void"@) {
        Some("voidlinux"@)
    } else if contains(id, "solus"@) {
        Some("solus"@)
    } else if contains(id, "clear"@) {
        Some("intel"@)
    } else if contains(id, "slackware"@) {
        Some("slackware"@)
    } else if contains(id, "mageia"@) {
        Some("linux"@)
    } else if contains(id, "pclinux"@) {
        Some("linux"@)
    } else if contains(id, "tiny"@) || contains(id, "tinycore"@) {
        Some("linux"@)
    } else if contains(id, "armbian"@) {
        Some("raspberrypi"@)
    } else if contains(id, "openwrt"@) {
        Some("linux"@)
    } else if contains(id, "coreos"@) {
        Some("fedora"@)
    } else if contains(id, "photon"@) {
        Some("linux"@)
    } else if contains(id, "proxmox"@) {
        Some("debian"@)
    } else if contains(id, "truenas"@) {
        Some("freebsd"@)
    } else if contains(id, "opnsense"@) || contains(id, "pfsense"@) {
        Some("freebsd"@)
    } else if contains(id, "centos"@) {
        Some("centos"@)
    } else if contains(id, "vanilla"@) {
        Some("linux"@)
    } else if contains(id, "microos"@) {
        Some("opensuse"@)
    } else {
        None
    }
}

/// Picks the icon for a distribution of independent distributions.
fn pick_independent_icon(s: &[char]) -> (r: Option<&'static str>)
    ensures
        match r {
            Some(name) => independent_icon(s@) == Some(name@),
            None => independent_icon(s@) is None,
        },
{
    if holds(s, "popos") || holds(s, "pop_os") || holds(s, "pop!") {
        Some("popos")
    } else if holds(s, "elementary") {
        Some("elementary")
    } else if holds(s, "zorin") {
        Some("zorin")
    } else if holds(s, "linux-lite") || holds(s, "linux lite") {
        Some("ubuntu")
    } else if holds(s, "nixos") {
        Some("nixos")
    } else if holds(s, "alpine") {
        Some("alpinelinux")
    } else if holds(s, "void") {
        Some("voidlinux")
    } else if holds(s, "solus") {
        Some("solus")
    } else if holds(s, "clear") {
        Some("intel")
    } else if holds(s, "slackware") {
        Some("slackware")
    } else if holds(s, "mageia") {
        Some("linux")
    } else if holds(s, "pclinux") {
        Some("linux")
    } else if holds(s, "tiny") || holds(s, "tinycore") {
        Some("linux")
    } else if holds(s, "armbian") {
        Some("raspberrypi")
    } else if holds(s, "openwrt") {
        Some("linux")
    } else if holds(s, "coreos") {
        Some("fedora")
    } else if holds(s, "photon") {
        Some("linux")
    } else if holds(s, "proxmox") {
        Some("debian")
    } else if holds(s, "truenas") {
        Some("freebsd")
    } else if holds(s, "opnsense") || holds(s, "pfsense") {
        Some("freebsd")
    } else if holds(s, "centos") {
        Some("centos")
    } else if holds(s, "vanilla") {
        Some("linux")
    } else if holds(s, "microos") {
        Some("opensuse")
    } else {
        None
    }
}

/// The icon for a distribution of the BSDs and other systems, told from its identifier in
/// lower case; the tests come in this order, and the first that holds
/// decides.
pub open spec fn other_icon(id: Seq<char>) -> Option<Seq<char>> {
    if contains(id, "freebsd"@) {
        Some("freebsd"@)
    } else if contains(id, "openbsd"@) {
        Some("openbsd"@)
    } else if contains(id, "haiku"@) {
        Some("linux"@)
    } else if contains(id, "redox"@) {
        Some("redox"@)
    } else if contains(id, "serenity"@) {
        Some("linux"@)
    } else if contains(id, "react"@) && contains(id, "os"@) {
        Some("reactos"@)
    } else if contains(id, "freedos"@) {
        Some("linux"@)
    } else if contains(id, "guix"@) {
        Some("gnu"@)
    } else if contains(id, "hyperbola"@) {
        Some("gnu"@)
    } else if contains(id, "temple"@) {
        Some("linux"@)
    } else if contains(id, "kolibri"@) {
        Some("linux"@)
    } else if contains(id, "menuet"@) {
        Some("linux"@)
    } else {
        None
    }
}

/// Picks the icon for a distribution of the BSDs and other systems.
fn pick_other_icon(s: &[char]) -> (r: Option<&'static str>)
    ensures
        match r {
            Some(name) => other_icon(s@) == Some(name@),
            None => other_icon(s@) is None,
        },
{
    if holds(s, "freebsd") {
        Some("freebsd")
    } else if holds(s, "openbsd") {
        Some("openbsd")
    } else if holds(s, "haiku") {
        Some("linux")
    } else if holds(s, "redox") {
        Some("redox")
    } else if holds(s, "serenity") {
        Some("linux")
    } else if holds(s, "react") && holds(s, "os") {
        Some("reactos")
    } else if holds(s, "freedos") {
        Some("linux")
    } else if holds(s, "guix") {
        Some("gnu")
    } else if holds(s, "hyperbola") {
        Some("gnu")
    } else if holds(s, "temple") {
        Some("linux")
    } else if holds(s, "kolibri") {
        Some("linux")
    } else if holds(s, "menuet") {
        Some("linux")
    } else {
        None
    }
}

/// The name of the icon that stands for a distribution, told from its
/// identifier in lower case. The families are asked in this order, and
/// the first that has an icon decides.
pub open spec fn icon_of(id: Seq<char>) -> Option<Seq<char>> {
    if ubuntu_icon(id) is Some {
        ubuntu_icon(id)
    } else if fedora_icon(id) is Some {
        fedora_icon(id)
    } else if debian_icon(id) is Some {
        debian_icon(id)
    } else if arch_icon(id) is Some {
        arch_icon(id)
    } else if suse_icon(id) is Some {
        suse_icon(id)
    } else if security_icon(id) is Some {
        security_icon(id)
    } else if embedded_icon(id) is Some {
        embedded_icon(id)
    } else if independent_icon(id) is Some {
        independent_icon(id)
    } else if other_icon(id) is Some {
        other_icon(id)
    } else {
        None
    }
}

/// Picks the icon for a distribution from its identifier in lower case.
pub fn icon_name(id_lower: &str) -> (r: Option<&'static str>)
    ensures
        match r {
            Some(name) => icon_of(id_lower@) == Some(name@),
            None => icon_of(id_lower@) is None,
        },
{
    let chars = chars_of(id_lower);
    let s = chars.as_slice();
    if let Some(name) = pick_ubuntu_icon(s) {
        return Some(name);
    }
    if let Some(name) = pick_fedora_icon(s) {
        return Some(name);
    }
    if let Some(name) = pick_debian_icon(s) {
        return Some(name);
    }
    if let Some(name) = pick_arch_icon(s) {
        return Some(name);
    }
    if let Some(name) = pick_suse_icon(s) {
        return Some(name);
    }
    if let Some(name) = pick_security_icon(s) {
        return Some(name);
    }
    if let Some(name) = pick_embedded_icon(s) {
        return Some(name);
    }
    if let Some(name) = pick_independent_icon(s) {
        return Some(name);
    }
    if let Some(name) = pick_other_icon(s) {
        return Some(name);
    }
    None
}

/// Picks the icon for a distribution from its identifier.
pub fn get_distro_icon(distro_id: &str) -> (r: Option<&'static str>)
    ensures
        match r {
            Some(name) => icon_of(lowercase_of(distro_id@)) == Some(name@),
            None => icon_of(lowercase_of(distro_id@)) is None,
        },
{
    let lower = to_lowercase(distro_id);
    icon_name(lower.as_str())
}

} // verus!
