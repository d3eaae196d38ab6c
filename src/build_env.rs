//! The build environment that a build script sees, and the choice of the
//! target architecture, seL4 architecture and platform from it.
use vstd::prelude::*;
use crate::arch::{Arch, Platform, RustArch, SeL4Arch};
use crate::text::{owned, str_eq};

verus! {

/// Whether the build profile is debug or release.
#[derive(Debug, Clone, Copy, PartialEq, Eq, Structural)]
pub enum BuildProfile {
    Debug,
    Release,
}

impl BuildProfile {
    /// Whether this is the debug profile.
    pub fn is_debug(&self) -> (r: bool)
        ensures
            r <==> (*self is Debug),
    {
        match self {
            BuildProfile::Debug => true,
            BuildProfile::Release => false,
        }
    }

    /// Reads a profile name: `debug` or `release`.
    pub fn parse(s: &str) -> (r: Option<BuildProfile>)
        ensures
            r == (if s@ == "debug"@ {
                Some(BuildProfile::Debug)
            } else if s@ == "release"@ {
                Some(BuildProfile::Release)
            } else {
                None
            }),
    {
        if str_eq(s, "debug") {
            Some(BuildProfile::Debug)
        } else if str_eq(s, "release") {
            Some(BuildProfile::Release)
        } else {
            None
        }
    }
}

/// The settings a build script reads from its environment.
#[derive(Debug, Clone, PartialEq, Eq)]
pub struct BuildEnv {
    pub cargo_cfg_target_arch: String,
    pub cargo_cfg_target_pointer_width: usize,
    pub out_dir: String,
    pub profile: BuildProfile,
    pub sel4_config_path: Option<String>,
    pub sel4_override_arch: Option<String>,
    pub sel4_override_sel4_arch: Option<String>,
    pub sel4_platform: Option<String>,
}

/// Why no build target can be chosen.
#[derive(Debug, Clone, PartialEq, Eq, Structural)]
pub enum TargetError {
    /// The seL4 architecture override is not a known `sel4_arch`.
    UnknownSeL4ArchOverride,
    /// The architecture override is not a known `arch`.
    UnknownArchOverride,
    /// The Rust target architecture is unknown, or builds for no `sel4_arch`.
    NoSeL4ArchForTarget,
    /// No platform was given and the architecture has no default one.
    NoDefaultPlatform,
}

/// The build target chosen from a build environment.
#[derive(Debug, Clone, PartialEq, Eq)]
pub struct Target {
    pub arch: Arch,
    pub sel4_arch: SeL4Arch,
    pub platform: Platform,
}

/// The platform used when none is given: `sabre` on Arm, `pc99` on x86.
pub open spec fn default_platform(arch: Arch) -> Option<Seq<char>> {
    match arch {
        Arch::Arm => Some("sabre"@),
        Arch::X86 => Some("pc99"@),
        Arch::Riscv => None,
    }
}

/// The `sel4_arch` for a build: the override if given, else the one the
/// Rust target architecture builds for.
pub open spec fn chosen_sel4_arch(target_arch: Seq<char>, override_sel4_arch: Option<Seq<char>>) -> Result<SeL4Arch, TargetError> {
    match override_sel4_arch {
        Some(s) => match SeL4Arch::spec_parse(s) {
            Some(a) => Ok(a),
            None => Err(TargetError::UnknownSeL4ArchOverride),
        },
        None => match RustArch::spec_parse(target_arch) {
            Some(r) => match SeL4Arch::spec_from_rust_arch(r) {
                Some(a) => Ok(a),
                None => Err(TargetError::NoSeL4ArchForTarget),
            },
            None => Err(TargetError::NoSeL4ArchForTarget),
        },
    }
}

/// The `arch` for a build: the override if given, else the family of the `sel4_arch`.
pub open spec fn chosen_arch(sel4_arch: SeL4Arch, override_arch: Option<Seq<char>>) -> Result<Arch, TargetError> {
    match override_arch {
        Some(s) => match Arch::spec_parse(s) {
            Some(a) => Ok(a),
            None => Err(TargetError::UnknownArchOverride),
        },
        None => Ok(Arch::spec_from_sel4_arch(sel4_arch)),
    }
}

/// Chooses the architecture, seL4 architecture and platform of a build from
/// the Rust target architecture and the optional overrides.
pub fn choose_target(
    target_arch: &str,
    override_arch: &Option<String>,
    override_sel4_arch: &Option<String>,
    platform: &Option<String>,
) -> (r: Result<Target, TargetError>)
    ensures
        match chosen_sel4_arch(target_arch@, crate::text::opt_text(*override_sel4_arch)) {
            Err(e) => r == Err::<Target, TargetError>(e),
            Ok(s) => match chosen_arch(s, crate::text::opt_text(*override_arch)) {
                Err(e) => r == Err::<Target, TargetError>(e),
                Ok(a) => match *platform {
                    Some(p) => r matches Ok(t) && t.arch == a && t.sel4_arch == s && t.platform.0@ == p@,
                    None => match default_platform(a) {
                        Some(p) => r matches Ok(t) && t.arch == a && t.sel4_arch == s && t.platform.0@ == p,
                        None => r == Err::<Target, TargetError>(TargetError::NoDefaultPlatform),
                    },
                },
            },
        },
{
    let sel4_arch = match override_sel4_arch {
        Some(s) => match SeL4Arch::parse(s.as_str()) {
            Ok(a) => {
                a
            },
            Err(_) => return Err(TargetError::UnknownSeL4ArchOverride),
        },
        None => match RustArch::parse(target_arch) {
            Ok(r) => {
                match SeL4Arch::from_rust_arch(r) {
                    Some(a) => a,
                    None => return Err(TargetError::NoSeL4ArchForTarget),
                }
            },
            Err(_) => return Err(TargetError::NoSeL4ArchForTarget),
        },
    };
    let arch = match override_arch {
        Some(s) => match Arch::parse(s.as_str()) {
            Ok(a) => {
                a
            },
            Err(_) => return Err(TargetError::UnknownArchOverride),
        },
        None => Arch::from_sel4_arch(sel4_arch),
    };
    let platform = match platform {
        Some(p) => p.clone(),
        None => match arch {
            Arch::Arm => owned("sabre"),
            Arch::X86 => owned("pc99"),
            Arch::Riscv => return Err(TargetError::NoDefaultPlatform),
        },
    };
    Ok(Target { arch, sel4_arch, platform: Platform(platform) })
}

} // verus!
