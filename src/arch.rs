//! The architecture vocabularies: Rust's target architectures, seL4's
//! `sel4_arch` and `arch`, and platform names.
use vstd::prelude::*;
use crate::text::{owned, str_eq};

verus! {

/// The first part of a Rust target triple.
#[derive(Copy, Clone, Debug, PartialEq, Eq, Structural)]
pub enum RustArch {
    Aarch64,
    Arm,
    Armebv7r,
    Armv5te,
    Armv7,
    Armv7r,
    Armv7s,
    Asmjs,
    I386,
    I586,
    I686,
    Mips,
    Mips64,
    Mips64el,
    Mipsel,
    Nvptx64,
    Powerpc,
    Powerpc64,
    Powerpc64le,
    Riscv32imac,
    Riscv32imc,
    Riscv64gc,
    Riscv64imac,
    S390x,
    Sparc64,
    Sparcv9,
    Thumbv6m,
    Thumbv7em,
    Thumbv7m,
    Thumbv7neon,
    Thumbv8mmain,
    Wasm32,
    X86_64,
}

impl RustArch {
    /// The value written under the name `s`, if any.
    pub open spec fn spec_parse(s: Seq<char>) -> Option<RustArch> {
        if s == "aarch64"@ {
            Some(RustArch::Aarch64)
        } else if s == "arm"@ {
            Some(RustArch::Arm)
        } else if s == "armebv7r"@ {
            Some(RustArch::Armebv7r)
        } else if s == "armv5te"@ {
            Some(RustArch::Armv5te)
        } else if s == "armv7"@ {
            Some(RustArch::Armv7)
        } else if s == "armv7r"@ {
            Some(RustArch::Armv7r)
        } else if s == "armv7s"@ {
            Some(RustArch::Armv7s)
        } else if s == "asmjs"@ {
            Some(RustArch::Asmjs)
        } else if s == "i386"@ {
            Some(RustArch::I386)
        } else if s == "i586"@ {
            Some(RustArch::I586)
        } else if s == "i686"@ {
            Some(RustArch::I686)
        } else if s == "mips"@ {
            Some(RustArch::Mips)
        } else if s == "mips64"@ {
            Some(RustArch::Mips64)
        } else if s == "mips64el"@ {
            Some(RustArch::Mips64el)
        } else if s == "mipsel"@ {
            Some(RustArch::Mipsel)
        } else if s == "nvptx64"@ {
            Some(RustArch::Nvptx64)
        } else if s == "powerpc"@ {
            Some(RustArch::Powerpc)
        } else if s == "powerpc64"@ {
            Some(RustArch::Powerpc64)
        } else if s == "powerpc64le"@ {
            Some(RustArch::Powerpc64le)
        } else if s == "riscv32imac"@ {
            Some(RustArch::Riscv32imac)
        } else if s == "riscv32imc"@ {
            Some(RustArch::Riscv32imc)
        } else if s == "riscv64gc"@ {
            Some(RustArch::Riscv64gc)
        } else if s == "riscv64imac"@ {
            Some(RustArch::Riscv64imac)
        } else if s == "s390x"@ {
            Some(RustArch::S390x)
        } else if s == "sparc64"@ {
            Some(RustArch::Sparc64)
        } else if s == "sparcv9"@ {
            Some(RustArch::Sparcv9)
        } else if s == "thumbv6m"@ {
            Some(RustArch::Thumbv6m)
        } else if s == "thumbv7em"@ {
            Some(RustArch::Thumbv7em)
        } else if s == "thumbv7m"@ {
            Some(RustArch::Thumbv7m)
        } else if s == "thumbv7neon"@ {
            Some(RustArch::Thumbv7neon)
        } else if s == "thumbv8m.main"@ {
            Some(RustArch::Thumbv8mmain)
        } else if s == "wasm32"@ {
            Some(RustArch::Wasm32)
        } else if s == "x86_64"@ {
            Some(RustArch::X86_64)
        } else {
            None
        }
    }

    /// The name under which this value is written.
    pub open spec fn spec_name(self) -> Seq<char> {
        match self {
            RustArch::Aarch64 => "aarch64"@,
            RustArch::Arm => "arm"@,
            RustArch::Armebv7r => "armebv7r"@,
            RustArch::Armv5te => "armv5te"@,
            RustArch::Armv7 => "armv7"@,
            RustArch::Armv7r => "armv7r"@,
            RustArch::Armv7s => "armv7s"@,
            RustArch::Asmjs => "asmjs"@,
            RustArch::I386 => "i386"@,
            RustArch::I586 => "i586"@,
            RustArch::I686 => "i686"@,
            RustArch::Mips => "mips"@,
            RustArch::Mips64 => "mips64"@,
            RustArch::Mips64el => "mips64el"@,
            RustArch::Mipsel => "mipsel"@,
            RustArch::Nvptx64 => "nvptx64"@,
            RustArch::Powerpc => "powerpc"@,
            RustArch::Powerpc64 => "powerpc64"@,
            RustArch::Powerpc64le => "powerpc64le"@,
            RustArch::Riscv32imac => "riscv32imac"@,
            RustArch::Riscv32imc => "riscv32imc"@,
            RustArch::Riscv64gc => "riscv64gc"@,
            RustArch::Riscv64imac => "riscv64imac"@,
            RustArch::S390x => "s390x"@,
            RustArch::Sparc64 => "sparc64"@,
            RustArch::Sparcv9 => "sparcv9"@,
            RustArch::Thumbv6m => "thumbv6m"@,
            RustArch::Thumbv7em => "thumbv7em"@,
            RustArch::Thumbv7m => "thumbv7m"@,
            RustArch::Thumbv7neon => "thumbv7neon"@,
            RustArch::Thumbv8mmain => "thumbv8m.main"@,
            RustArch::Wasm32 => "wasm32"@,
            RustArch::X86_64 => "x86_64"@,
        }
    }

    /// The name under which this value is written.
    pub fn name(&self) -> (r: String)
        ensures
            r@ == self.spec_name(),
    {
        match self {
            RustArch::Aarch64 => owned("aarch64"),
            RustArch::Arm => owned("arm"),
            RustArch::Armebv7r => owned("armebv7r"),
            RustArch::Armv5te => owned("armv5te"),
            RustArch::Armv7 => owned("armv7"),
            RustArch::Armv7r => owned("armv7r"),
            RustArch::Armv7s => owned("armv7s"),
            RustArch::Asmjs => owned("asmjs"),
            RustArch::I386 => owned("i386"),
            RustArch::I586 => owned("i586"),
            RustArch::I686 => owned("i686"),
            RustArch::Mips => owned("mips"),
            RustArch::Mips64 => owned("mips64"),
            RustArch::Mips64el => owned("mips64el"),
            RustArch::Mipsel => owned("mipsel"),
            RustArch::Nvptx64 => owned("nvptx64"),
            RustArch::Powerpc => owned("powerpc"),
            RustArch::Powerpc64 => owned("powerpc64"),
            RustArch::Powerpc64le => owned("powerpc64le"),
            RustArch::Riscv32imac => owned("riscv32imac"),
            RustArch::Riscv32imc => owned("riscv32imc"),
            RustArch::Riscv64gc => owned("riscv64gc"),
            RustArch::Riscv64imac => owned("riscv64imac"),
            RustArch::S390x => owned("s390x"),
            RustArch::Sparc64 => owned("sparc64"),
            RustArch::Sparcv9 => owned("sparcv9"),
            RustArch::Thumbv6m => owned("thumbv6m"),
            RustArch::Thumbv7em => owned("thumbv7em"),
            RustArch::Thumbv7m => owned("thumbv7m"),
            RustArch::Thumbv7neon => owned("thumbv7neon"),
            RustArch::Thumbv8mmain => owned("thumbv8m.main"),
            RustArch::Wasm32 => owned("wasm32"),
            RustArch::X86_64 => owned("x86_64"),
        }
    }

    /// Reads the first part of a Rust target triple.
    pub fn parse(s: &str) -> (r: Result<Self, String>)
        ensures
            match r {
                Ok(a) => a.spec_name() == s@ && Self::spec_parse(s@) == Some(a),
                Err(_) => (forall|a: Self| a.spec_name() != s@) && Self::spec_parse(s@) is None,
            },
    {
        if str_eq(s, "aarch64") {
            Ok(RustArch::Aarch64)
        } else if str_eq(s, "arm") {
            Ok(RustArch::Arm)
        } else if str_eq(s, "armebv7r") {
            Ok(RustArch::Armebv7r)
        } else if str_eq(s, "armv5te") {
            Ok(RustArch::Armv5te)
        } else if str_eq(s, "armv7") {
            Ok(RustArch::Armv7)
        } else if str_eq(s, "armv7r") {
            Ok(RustArch::Armv7r)
        } else if str_eq(s, "armv7s") {
            Ok(RustArch::Armv7s)
        } else if str_eq(s, "asmjs") {
            Ok(RustArch::Asmjs)
        } else if str_eq(s, "i386") {
            Ok(RustArch::I386)
        } else if str_eq(s, "i586") {
            Ok(RustArch::I586)
        } else if str_eq(s, "i686") {
            Ok(RustArch::I686)
        } else if str_eq(s, "mips") {
            Ok(RustArch::Mips)
        } else if str_eq(s, "mips64") {
            Ok(RustArch::Mips64)
        } else if str_eq(s, "mips64el") {
            Ok(RustArch::Mips64el)
        } else if str_eq(s, "mipsel") {
            Ok(RustArch::Mipsel)
        } else if str_eq(s, "nvptx64") {
            Ok(RustArch::Nvptx64)
        } else if str_eq(s, "powerpc") {
            Ok(RustArch::Powerpc)
        } else if str_eq(s, "powerpc64") {
            Ok(RustArch::Powerpc64)
        } else if str_eq(s, "powerpc64le") {
            Ok(RustArch::Powerpc64le)
        } else if str_eq(s, "riscv32imac") {
            Ok(RustArch::Riscv32imac)
        } else if str_eq(s, "riscv32imc") {
            Ok(RustArch::Riscv32imc)
        } else if str_eq(s, "riscv64gc") {
            Ok(RustArch::Riscv64gc)
        } else if str_eq(s, "riscv64imac") {
            Ok(RustArch::Riscv64imac)
        } else if str_eq(s, "s390x") {
            Ok(RustArch::S390x)
        } else if str_eq(s, "sparc64") {
            Ok(RustArch::Sparc64)
        } else if str_eq(s, "sparcv9") {
            Ok(RustArch::Sparcv9)
        } else if str_eq(s, "thumbv6m") {
            Ok(RustArch::Thumbv6m)
        } else if str_eq(s, "thumbv7em") {
            Ok(RustArch::Thumbv7em)
        } else if str_eq(s, "thumbv7m") {
            Ok(RustArch::Thumbv7m)
        } else if str_eq(s, "thumbv7neon") {
            Ok(RustArch::Thumbv7neon)
        } else if str_eq(s, "thumbv8m.main") {
            Ok(RustArch::Thumbv8mmain)
        } else if str_eq(s, "wasm32") {
            Ok(RustArch::Wasm32)
        } else if str_eq(s, "x86_64") {
            Ok(RustArch::X86_64)
        } else {
            Err(owned("Unrecognized rust arch"))
        }
    }
}

/// seL4's `sel4_arch`: the kernel's own architecture classification.
#[derive(Copy, Clone, Debug, PartialEq, Eq, Hash, Structural)]
pub enum SeL4Arch {
    Aarch32,
    Aarch64,
    ArmHyp,
    Ia32,
    X86_64,
    Riscv32,
    Riscv64,
}

impl SeL4Arch {
    /// The value written under the name `s`, if any.
    pub open spec fn spec_parse(s: Seq<char>) -> Option<SeL4Arch> {
        if s == "aarch32"@ {
            Some(SeL4Arch::Aarch32)
        } else if s == "aarch64"@ {
            Some(SeL4Arch::Aarch64)
        } else if s == "arm_hyp"@ {
            Some(SeL4Arch::ArmHyp)
        } else if s == "ia32"@ {
            Some(SeL4Arch::Ia32)
        } else if s == "x86_64"@ {
            Some(SeL4Arch::X86_64)
        } else if s == "riscv32"@ {
            Some(SeL4Arch::Riscv32)
        } else if s == "riscv64"@ {
            Some(SeL4Arch::Riscv64)
        } else {
            None
        }
    }

    /// The name under which this value is written.
    pub open spec fn spec_name(self) -> Seq<char> {
        match self {
            SeL4Arch::Aarch32 => "aarch32"@,
            SeL4Arch::Aarch64 => "aarch64"@,
            SeL4Arch::ArmHyp => "arm_hyp"@,
            SeL4Arch::Ia32 => "ia32"@,
            SeL4Arch::X86_64 => "x86_64"@,
            SeL4Arch::Riscv32 => "riscv32"@,
            SeL4Arch::Riscv64 => "riscv64"@,
        }
    }

    /// The name under which this value is written.
    pub fn name(&self) -> (r: String)
        ensures
            r@ == self.spec_name(),
    {
        match self {
            SeL4Arch::Aarch32 => owned("aarch32"),
            SeL4Arch::Aarch64 => owned("aarch64"),
            SeL4Arch::ArmHyp => owned("arm_hyp"),
            SeL4Arch::Ia32 => owned("ia32"),
            SeL4Arch::X86_64 => owned("x86_64"),
            SeL4Arch::Riscv32 => owned("riscv32"),
            SeL4Arch::Riscv64 => owned("riscv64"),
        }
    }

    /// Reads a `sel4_arch` name.
    pub fn parse(s: &str) -> (r: Result<Self, String>)
        ensures
            match r {
                Ok(a) => a.spec_name() == s@ && Self::spec_parse(s@) == Some(a),
                Err(_) => (forall|a: Self| a.spec_name() != s@) && Self::spec_parse(s@) is None,
            },
    {
        if str_eq(s, "aarch32") {
            Ok(SeL4Arch::Aarch32)
        } else if str_eq(s, "aarch64") {
            Ok(SeL4Arch::Aarch64)
        } else if str_eq(s, "arm_hyp") {
            Ok(SeL4Arch::ArmHyp)
        } else if str_eq(s, "ia32") {
            Ok(SeL4Arch::Ia32)
        } else if str_eq(s, "x86_64") {
            Ok(SeL4Arch::X86_64)
        } else if str_eq(s, "riscv32") {
            Ok(SeL4Arch::Riscv32)
        } else if str_eq(s, "riscv64") {
            Ok(SeL4Arch::Riscv64)
        } else {
            Err(owned("Unrecognized sel4_arch"))
        }
    }

    /// The `sel4_arch` that a Rust target architecture builds for, if any.
    pub open spec fn spec_from_rust_arch(rust_arch: RustArch) -> Option<SeL4Arch> {
        match rust_arch {
            RustArch::Aarch64 | RustArch::Thumbv8mmain => Some(SeL4Arch::Aarch64),
            RustArch::Arm | RustArch::Armebv7r | RustArch::Armv7 | RustArch::Armv7r
            | RustArch::Armv7s | RustArch::Thumbv6m | RustArch::Thumbv7em | RustArch::Thumbv7m
            | RustArch::Thumbv7neon => Some(SeL4Arch::Aarch32),
            RustArch::I386 | RustArch::I586 | RustArch::I686 => Some(SeL4Arch::Ia32),
            RustArch::Riscv32imac | RustArch::Riscv32imc => Some(SeL4Arch::Riscv32),
            RustArch::Riscv64gc | RustArch::Riscv64imac => Some(SeL4Arch::Riscv64),
            RustArch::X86_64 => Some(SeL4Arch::X86_64),
            _ => None,
        }
    }

    /// Creates a `SeL4Arch` from the first part of a Rust target triple.
    pub fn from_rust_arch(rust_arch: RustArch) -> (r: Option<SeL4Arch>)
        ensures
            r == Self::spec_from_rust_arch(rust_arch),
    {
        match rust_arch {
            RustArch::Aarch64 | RustArch::Thumbv8mmain => Some(SeL4Arch::Aarch64),
            RustArch::Arm | RustArch::Armebv7r | RustArch::Armv7 | RustArch::Armv7r
            | RustArch::Armv7s | RustArch::Thumbv6m | RustArch::Thumbv7em | RustArch::Thumbv7m
            | RustArch::Thumbv7neon => Some(SeL4Arch::Aarch32),
            RustArch::I386 | RustArch::I586 | RustArch::I686 => Some(SeL4Arch::Ia32),
            RustArch::Riscv32imac | RustArch::Riscv32imc => Some(SeL4Arch::Riscv32),
            RustArch::Riscv64gc | RustArch::Riscv64imac => Some(SeL4Arch::Riscv64),
            RustArch::X86_64 => Some(SeL4Arch::X86_64),
            _ => None,
        }
    }
}

/// seL4's `arch`: the CPU family.
#[derive(Copy, Clone, Debug, PartialEq, Eq, Hash, Structural)]
pub enum Arch {
    Arm,
    X86,
    Riscv,
}

impl Arch {
    /// The value written under the name `s`, if any.
    pub open spec fn spec_parse(s: Seq<char>) -> Option<Arch> {
        if s == "arm"@ {
            Some(Arch::Arm)
        } else if s == "x86"@ {
            Some(Arch::X86)
        } else if s == "riscv"@ {
            Some(Arch::Riscv)
        } else {
            None
        }
    }

    /// The name under which this value is written.
    pub open spec fn spec_name(self) -> Seq<char> {
        match self {
            Arch::Arm => "arm"@,
            Arch::X86 => "x86"@,
            Arch::Riscv => "riscv"@,
        }
    }

    /// The name under which this value is written.
    pub fn name(&self) -> (r: String)
        ensures
            r@ == self.spec_name(),
    {
        match self {
            Arch::Arm => owned("arm"),
            Arch::X86 => owned("x86"),
            Arch::Riscv => owned("riscv"),
        }
    }

    /// Reads an `arch` name.
    pub fn parse(s: &str) -> (r: Result<Self, String>)
        ensures
            match r {
                Ok(a) => a.spec_name() == s@ && Self::spec_parse(s@) == Some(a),
                Err(_) => (forall|a: Self| a.spec_name() != s@) && Self::spec_parse(s@) is None,
            },
    {
        if str_eq(s, "arm") {
            Ok(Arch::Arm)
        } else if str_eq(s, "x86") {
            Ok(Arch::X86)
        } else if str_eq(s, "riscv") {
            Ok(Arch::Riscv)
        } else {
            Err(owned("Unrecognized arch"))
        }
    }

    /// The CPU family of a `sel4_arch`.
    pub open spec fn spec_from_sel4_arch(sel4_arch: SeL4Arch) -> Arch {
        match sel4_arch {
            SeL4Arch::Aarch32 | SeL4Arch::Aarch64 | SeL4Arch::ArmHyp => Arch::Arm,
            SeL4Arch::Ia32 | SeL4Arch::X86_64 => Arch::X86,
            SeL4Arch::Riscv32 | SeL4Arch::Riscv64 => Arch::Riscv,
        }
    }

    /// The CPU family of a `sel4_arch`.
    pub fn from_sel4_arch(sel4_arch: SeL4Arch) -> (r: Arch)
        ensures
            r == Self::spec_from_sel4_arch(sel4_arch),
    {
        match sel4_arch {
            SeL4Arch::Aarch32 | SeL4Arch::Aarch64 | SeL4Arch::ArmHyp => Arch::Arm,
            SeL4Arch::Ia32 | SeL4Arch::X86_64 => Arch::X86,
            SeL4Arch::Riscv32 | SeL4Arch::Riscv64 => Arch::Riscv,
        }
    }

    /// Creates an `Arch` from the first part of a Rust target triple.
    pub fn from_rust_arch(rust_arch: RustArch) -> (r: Option<Arch>)
        ensures
            r == match SeL4Arch::spec_from_rust_arch(rust_arch) {
                Some(s) => Some(Self::spec_from_sel4_arch(s)),
                None => None,
            },
    {
        match SeL4Arch::from_rust_arch(rust_arch) {
            Some(s) => Some(Arch::from_sel4_arch(s)),
            None => None,
        }
    }
}

/// seL4's platform name, as handed to the kernel build.
#[derive(Clone, Debug, PartialEq, Eq, Hash)]
pub struct Platform(pub String);

impl Platform {
    /// The platform's name.
    pub fn name(&self) -> (r: String)
        ensures
            r@ == self.0@,
    {
        self.0.clone()
    }
}

} // verus!
