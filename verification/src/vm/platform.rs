//! The hosts that machines can run on.

use vstd::prelude::*;

use crate::text;

verus! {

/// The image for 64-bit Intel and AMD hosts.
pub const UBUNTU_24_04_MINIMAL_AMD64_URL: &'static str =
    "https://cloud-images.ubuntu.com/minimal/releases/noble/release/ubuntu-24.04-minimal-cloudimg-amd64.img";

/// The image for 64-bit Arm hosts.
pub const UBUNTU_24_04_MINIMAL_ARM64_URL: &'static str =
    "https://cloud-images.ubuntu.com/minimal/releases/noble/release/ubuntu-24.04-minimal-cloudimg-arm64.img";

/// How machines are run on a host.
#[derive(Debug, PartialEq, Eq)]
pub struct HostProfile {
    pub os: &'static str,
    pub arch: &'static str,
    pub qemu_binary: &'static str,
    pub machine_type: &'static str,
    pub cpu_type: &'static str,
    pub image_url: &'static str,
    pub bios_path: Option<&'static str>,
}

/// Whether a profile is that of a Linux host on x86-64 with the given accelerator and CPU.
pub open spec fn linux_profile(p: HostProfile, machine: Seq<char>, cpu: Seq<char>) -> bool {
    &&& p.os@ == "linux"@
    &&& p.arch@ == "x86_64"@
    &&& p.qemu_binary@ == "qemu-system-x86_64"@
    &&& p.machine_type@ == machine
    &&& p.cpu_type@ == cpu
    &&& p.image_url@ == UBUNTU_24_04_MINIMAL_AMD64_URL@
    &&& p.bios_path is None
}

/// Whether a profile is that of a macOS host on Arm with the given accelerator and CPU.
pub open spec fn macos_profile(p: HostProfile, machine: Seq<char>, cpu: Seq<char>) -> bool {
    &&& p.os@ == "macos"@
    &&& p.arch@ == "aarch64"@
    &&& p.qemu_binary@ == "qemu-system-aarch64"@
    &&& p.machine_type@ == machine
    &&& p.cpu_type@ == cpu
    &&& p.image_url@ == UBUNTU_24_04_MINIMAL_ARM64_URL@
    &&& text::opt_str_view(p.bios_path) == Some("/opt/homebrew/share/qemu/edk2-aarch64-code.fd"@)
}

/// The message for a host that machines cannot run on.
pub open spec fn unsupported(os: Seq<char>, arch: Seq<char>) -> Seq<char> {
    "Unsupported host platform: "@ + os + "/"@ + arch
        + ". Supported platforms: linux/x86_64, macos/aarch64"@
}

/// Whether machines can be run on a host.
pub open spec fn supported(os: Seq<char>, arch: Seq<char>) -> bool {
    ||| os == "linux"@ && arch == "x86_64"@
    ||| os == "macos"@ && arch == "aarch64"@
}

/// Whether a profile is that of a host, with the accelerator that its user may have chosen.
pub open spec fn detected(
    p: HostProfile,
    os: Seq<char>,
    arch: Seq<char>,
    accel_override: Option<Seq<char>>,
) -> bool {
    let tcg = accel_override == Some("tcg"@);
    let cpu = if tcg {
        "max"@
    } else {
        "host"@
    };
    if os == "linux"@ {
        linux_profile(
            p,
            if tcg {
                "q35,accel=tcg"@
            } else {
                "q35,accel=kvm"@
            },
            cpu,
        )
    } else {
        macos_profile(
            p,
            if tcg {
                "virt,accel=tcg"@
            } else {
                "virt,accel=hvf"@
            },
            cpu,
        )
    }
}

impl HostProfile {
    /// The profile of the host with the given operating system and processor.
    pub fn for_target(os: &str, arch: &str) -> (r: Result<HostProfile, String>)
        ensures
            match r {
                Ok(p) => {
                    ||| os@ == "linux"@ && arch@ == "x86_64"@ && linux_profile(
                        p,
                        "q35,accel=kvm"@,
                        "host"@,
                    )
                    ||| os@ == "macos"@ && arch@ == "aarch64"@ && macos_profile(
                        p,
                        "virt,accel=hvf"@,
                        "host"@,
                    )
                },
                Err(message) => {
                    &&& !(os@ == "linux"@ && arch@ == "x86_64"@)
                    &&& !(os@ == "macos"@ && arch@ == "aarch64"@)
                    &&& message@ == unsupported(os@, arch@)
                },
            },
    {
        if text::same(os, "linux") && text::same(arch, "x86_64") {
            Ok(
                HostProfile {
                    os: "linux",
                    arch: "x86_64",
                    qemu_binary: "qemu-system-x86_64",
                    machine_type: "q35,accel=kvm",
                    cpu_type: "host",
                    image_url: UBUNTU_24_04_MINIMAL_AMD64_URL,
                    bios_path: None,
                },
            )
        } else if text::same(os, "macos") && text::same(arch, "aarch64") {
            Ok(
                HostProfile {
                    os: "macos",
                    arch: "aarch64",
                    qemu_binary: "qemu-system-aarch64",
                    machine_type: "virt,accel=hvf",
                    cpu_type: "host",
                    image_url: UBUNTU_24_04_MINIMAL_ARM64_URL,
                    bios_path: Some("/opt/homebrew/share/qemu/edk2-aarch64-code.fd"),
                },
            )
        } else {
            Err(
                text::cat5(
                    "Unsupported host platform: ",
                    os,
                    "/",
                    arch,
                    ". Supported platforms: linux/x86_64, macos/aarch64",
                ),
            )
        }
    }

    /// Switches a profile to emulation in software, if `accel_override` asks for `tcg`.
    pub fn apply_accel_override(profile: HostProfile, accel_override: Option<&str>) -> (r:
        HostProfile)
        ensures
            ({
                let tcg = accel_override matches Some(a) && a@ == "tcg"@;
                &&& r.os == profile.os
                &&& r.arch == profile.arch
                &&& r.qemu_binary == profile.qemu_binary
                &&& r.image_url == profile.image_url
                &&& r.bios_path == profile.bios_path
                &&& tcg && profile.os@ == "macos"@ ==> r.machine_type@ == "virt,accel=tcg"@
                    && r.cpu_type@ == "max"@
                &&& tcg && profile.os@ == "linux"@ && profile.os@ != "macos"@ ==> r.machine_type@
                    == "q35,accel=tcg"@ && r.cpu_type@ == "max"@
                &&& (!tcg || (profile.os@ != "macos"@ && profile.os@ != "linux"@)) ==> r == profile
            }),
    {
        let mut profile = profile;
        if let Some(accel) = accel_override {
            if text::same(accel, "tcg") {
                if text::same(profile.os, "macos") {
                    profile.machine_type = "virt,accel=tcg";
                    profile.cpu_type = "max";
                } else if text::same(profile.os, "linux") {
                    profile.machine_type = "q35,accel=tcg";
                    profile.cpu_type = "max";
                }
            }
        }
        profile
    }

    /// The profile of a host, with the accelerator that its user may have chosen.
    pub fn detect(os: &str, arch: &str, accel_override: Option<&str>) -> (r: Result<
        HostProfile,
        String,
    >)
        ensures
            match r {
                Ok(p) => supported(os@, arch@) && detected(
                    p,
                    os@,
                    arch@,
                    text::opt_str_view(accel_override),
                ),
                Err(message) => !supported(os@, arch@) && message@ == unsupported(os@, arch@),
            },
    {
        proof {
            reveal_strlit("linux");
            reveal_strlit("macos");
            assert("linux"@[0] != "macos"@[0]);
        }
        match HostProfile::for_target(os, arch) {
            Ok(profile) => Ok(HostProfile::apply_accel_override(profile, accel_override)),
            Err(message) => Err(message),
        }
    }
}

/// A profile is that of its host: the emulator is the one for the host's processor, and so is the
/// image. An emulated machine gets every feature of its processor, any other the host's own
/// processor by way of the host's accelerator.
pub proof fn law_profile_fits_its_host(
    p: HostProfile,
    os: Seq<char>,
    arch: Seq<char>,
    accel_override: Option<Seq<char>>,
)
    requires
        supported(os, arch),
        detected(p, os, arch, accel_override),
    ensures
        p.os@ == os,
        p.arch@ == arch,
        p.qemu_binary@ == "qemu-system-"@ + arch,
        text::occurs_in("amd64.img"@, p.image_url@) <==> arch == "x86_64"@,
        text::occurs_in("arm64.img"@, p.image_url@) <==> arch == "aarch64"@,
        p.bios_path is Some <==> arch == "aarch64"@,
        accel_override == Some("tcg"@) <==> text::occurs_in("accel=tcg"@, p.machine_type@),
        accel_override == Some("tcg"@) <==> p.cpu_type@ == "max"@,
        accel_override != Some("tcg"@) <==> p.cpu_type@ == "host"@,
        accel_override != Some("tcg"@) ==> p.machine_type@ == (if os == "linux"@ {
            "q35,accel=kvm"@
        } else {
            "virt,accel=hvf"@
        }),
{
    reveal_strlit("linux");
    reveal_strlit("macos");
    reveal_strlit("x86_64");
    reveal_strlit("aarch64");
    reveal_strlit("qemu-system-");
    reveal_strlit("qemu-system-x86_64");
    reveal_strlit("qemu-system-aarch64");
    reveal_strlit("max");
    reveal_strlit("host");
    reveal_strlit("accel=tcg");
    assert("linux"@[0] != "macos"@[0]);
    assert("x86_64"@[0] != "aarch64"@[0]);
    assert("max"@[0] != "host"@[0]);
    assert("qemu-system-x86_64"@ =~= "qemu-system-"@ + "x86_64"@);
    assert("qemu-system-aarch64"@ =~= "qemu-system-"@ + "aarch64"@);
    lemma_accelerators();
    lemma_images();
}

proof fn lemma_accelerators()
    ensures
        text::occurs_in("accel=tcg"@, "q35,accel=tcg"@),
        text::occurs_in("accel=tcg"@, "virt,accel=tcg"@),
        !text::occurs_in("accel=tcg"@, "q35,accel=kvm"@),
        !text::occurs_in("accel=tcg"@, "virt,accel=hvf"@),
{
    reveal_strlit("accel=tcg");
    reveal_strlit("q35,accel=tcg");
    reveal_strlit("virt,accel=tcg");
    reveal_strlit("q35,accel=kvm");
    reveal_strlit("virt,accel=hvf");
    let needle = "accel=tcg"@;
    assert("q35,accel=tcg"@.subrange(4, 13) =~= needle);
    assert(text::occurs_at(needle, "q35,accel=tcg"@, 4));
    assert("virt,accel=tcg"@.subrange(5, 14) =~= needle);
    assert(text::occurs_at(needle, "virt,accel=tcg"@, 5));
    assert forall|i: int| !text::occurs_at(needle, "q35,accel=kvm"@, i) by {
        if text::occurs_at(needle, "q35,accel=kvm"@, i) {
            let part = "q35,accel=kvm"@.subrange(i, i + 9);
            assert(part[6] == needle[6] && part[7] == needle[7]);
            assert("q35,accel=kvm"@[i + 6] == 't');
        }
    }
    assert forall|i: int| !text::occurs_at(needle, "virt,accel=hvf"@, i) by {
        if text::occurs_at(needle, "virt,accel=hvf"@, i) {
            let part = "virt,accel=hvf"@.subrange(i, i + 9);
            assert(part[6] == needle[6] && part[0] == needle[0]);
            assert("virt,accel=hvf"@[i + 6] == 't');
            assert("virt,accel=hvf"@[i] == 'a');
        }
    }
}

proof fn lemma_images()
    ensures
        text::occurs_in("amd64.img"@, UBUNTU_24_04_MINIMAL_AMD64_URL@),
        !text::occurs_in("arm64.img"@, UBUNTU_24_04_MINIMAL_AMD64_URL@),
        text::occurs_in("arm64.img"@, UBUNTU_24_04_MINIMAL_ARM64_URL@),
        !text::occurs_in("amd64.img"@, UBUNTU_24_04_MINIMAL_ARM64_URL@),
{
    reveal_strlit("amd64.img");
    reveal_strlit("arm64.img");
    reveal_strlit(
        "https://cloud-images.ubuntu.com/minimal/releases/noble/release/ubuntu-24.04-minimal-cloudimg-amd64.img",
    );
    reveal_strlit(
        "https://cloud-images.ubuntu.com/minimal/releases/noble/release/ubuntu-24.04-minimal-cloudimg-arm64.img",
    );
    let amd = UBUNTU_24_04_MINIMAL_AMD64_URL@;
    let arm = UBUNTU_24_04_MINIMAL_ARM64_URL@;
    let n = amd.len() as int;
    assert(amd.subrange(n - 9, n) =~= "amd64.img"@);
    assert(text::occurs_at("amd64.img"@, amd, n - 9));
    assert(arm.subrange(n - 9, n) =~= "arm64.img"@);
    assert(text::occurs_at("arm64.img"@, arm, n - 9));
    assert forall|i: int| !text::occurs_at("arm64.img"@, amd, i) by {
        if text::occurs_at("arm64.img"@, amd, i) {
            let part = amd.subrange(i, i + 9);
            assert(part[1] == "arm64.img"@[1] && part[2] == "arm64.img"@[2] && part[3]
                == "arm64.img"@[3]);
            assert(amd[i + 1] == 'r' && amd[i + 2] == 'm' && amd[i + 3] == '6');
        }
    }
    assert forall|i: int| !text::occurs_at("amd64.img"@, arm, i) by {
        if text::occurs_at("amd64.img"@, arm, i) {
            let part = arm.subrange(i, i + 9);
            assert(part[1] == "amd64.img"@[1] && part[2] == "amd64.img"@[2] && part[3]
                == "amd64.img"@[3]);
            assert(arm[i + 1] == 'm' && arm[i + 2] == 'd' && arm[i + 3] == '6');
        }
    }
}

/// The message for a host that machines cannot run on names the host and every host that they can
/// run on.
pub proof fn law_unsupported_host_is_named(os: Seq<char>, arch: Seq<char>)
    ensures
        ("Unsupported host platform: "@ + os + "/"@ + arch).is_prefix_of(unsupported(os, arch)),
        ("linux/x86_64, macos/aarch64"@).is_suffix_of(unsupported(os, arch)),
        supported("linux"@, "x86_64"@) && supported("macos"@, "aarch64"@),
        !supported("linux"@, "aarch64"@) && !supported("macos"@, "x86_64"@),
{
    reveal_strlit(". Supported platforms: linux/x86_64, macos/aarch64");
    reveal_strlit("linux/x86_64, macos/aarch64");
    reveal_strlit("linux");
    reveal_strlit("macos");
    reveal_strlit("x86_64");
    reveal_strlit("aarch64");
    let message = unsupported(os, arch);
    let head = "Unsupported host platform: "@ + os + "/"@ + arch;
    let n = message.len() as int;
    assert(head =~= message.subrange(0, head.len() as int));
    assert("linux/x86_64, macos/aarch64"@ =~= message.subrange(n - 27, n));
    assert("linux"@[0] != "macos"@[0] && "x86_64"@[0] != "aarch64"@[0]);
}

} // verus!
