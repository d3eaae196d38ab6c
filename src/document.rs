//! Reading a configuration document from text, and the compiled-in default.
use vstd::prelude::*;
use vstd::string::*;
use crate::arch::{Arch, Platform, SeL4Arch};
use crate::contextualize::{build_for, flatten_for, Context, Contextualized};
use crate::text::opt_text;
use crate::model::{Full, FullView, ImportError, ImportFault};
use crate::parse::{document_spec, parse_document};
use crate::nesting::{nesting, nesting_within, MAX_NESTING};
use crate::toml_text::{read_toml, toml_reading};

verus! {

/// The document used when no configuration file is supplied.
pub const DEFAULT_CONFIG_CONTENT: &'static str = "[sel4]
kernel = { git = \"https://github.com/seL4/seL4\", rev = \"4d0f02c029560cae0e8d93727eb17d58bcecc2ac\" }
tools = { git = \"https://github.com/seL4/seL4_tools\", branch = \"10.1.x-compatible\" }
util_libs = { git = \"https://github.com/seL4/util_libs\", branch = \"10.1.x-compatible\" }

[build.sabre]
cross_compiler_prefix = \"arm-linux-gnueabihf-\"

[build.sabre.debug]
make_root_task = \"cargo xbuild --target=armv7-sel4-fel4\"
root_task_image = \"target/armv7-sel4-fel4/debug/root-task\"

[build.sabre.release]
make_root_task = \"cargo xbuild --target=armv7-sel4-fel4 --release\"
root_task_image = \"target/armv7-sel4-fel4/release/root-task\"

[build.pc99]
cross_compiler_prefix = \"\"

[build.pc99.debug]
make_root_task = \"cargo xbuild --target=x86_64-sel4-fel4\"
root_task_image = \"target/x86_64-sel4-fel4/debug/root-task\"

[build.pc99.release]
make_root_task = \"cargo xbuild --target=x86_64-sel4-fel4 --release\"
root_task_image = \"target/x86_64-sel4-fel4/release/root-task\"

[sel4.config]
KernelRetypeFanOutLimit = 256
KernelNumDomains = 1
KernelMaxNumNodes = 1
KernelRootCNodeSizeBits = 19
KernelTimeSlice = 5
KernelTimerTickMS = 2
KernelMaxNumWorkUnitsPerPreemption = 100
KernelResetChunkBits = 8
KernelMaxNumBootinfoUntypedCaps = 230
KernelFastpath = true
LibSel4FunctionAttributes = \"public\"

[sel4.config.debug]
KernelDebugBuild = true
KernelPrinting = true
KernelColourPrinting = true
KernelUserStackTraceLength = 16

[sel4.config.release]
KernelDebugBuild = false
KernelPrinting = false

[sel4.config.arm]
KernelArch = \"arm\"
KernelArmSel4Arch = \"aarch32\"

[sel4.config.x86]
KernelArch = \"x86\"
KernelX86Sel4Arch = \"x86_64\"

[sel4.config.aarch32]
KernelSel4Arch = \"aarch32\"

[sel4.config.x86_64]
KernelSel4Arch = \"x86_64\"

[sel4.config.sabre]
KernelARMPlatform = \"sabre\"

[sel4.config.pc99]
KernelX86Platform = \"pc99\"
";

/// What reading `text` as a document gives: a refusal of a text nested
/// deeper than can be read safely, a refusal of the TOML text, or what the
/// document's tree reads as.
pub open spec fn from_text_spec(text: &str) -> Result<FullView, ImportFault> {
    if nesting(text.spec_bytes()) > MAX_NESTING {
        Err(ImportFault::NestingTooDeep(MAX_NESTING))
    } else {
        match toml_reading(text@) {
        None => Err(ImportFault::TomlDeserialize),
            Some(n) => document_spec(n),
        }
    }
}

impl Full {
    /// Reads a document from TOML text.
    pub fn from_str(text: &str) -> (r: Result<Full, ImportError>)
        ensures
            r matches Ok(f) ==> f.wf(),
            match r {
                Ok(f) => from_text_spec(text) == Ok::<FullView, ImportFault>(f@),
                Err(e) => from_text_spec(text) == Err::<FullView, ImportFault>(e@),
            },
    {
        if !nesting_within(text) {
            return Err(ImportError::NestingTooDeep { limit: MAX_NESTING });
        }
        match read_toml(text) {
            Ok(n) => parse_document(&n),
            Err(msg) => Err(ImportError::TomlDeserializeError(msg)),
        }
    }
}

/// Reads the compiled-in default document.
pub fn get_default_config() -> (r: Result<Full, ImportError>)
    ensures
        match r {
            Ok(f) => from_text_spec(DEFAULT_CONFIG_CONTENT) == Ok::<FullView, ImportFault>(f@),
            Err(e) => from_text_spec(DEFAULT_CONFIG_CONTENT) == Err::<FullView, ImportFault>(e@),
        },
{
    Full::from_str(DEFAULT_CONFIG_CONTENT)
}

impl Contextualized {
    /// Reads a document from TOML text and resolves it for the context made
    /// of the given parts.
    pub fn from_str(
        source_toml: &str,
        arch: Arch,
        sel4_arch: SeL4Arch,
        is_debug: bool,
        platform: Platform,
        base_dir: Option<String>,
    ) -> (r: Result<Contextualized, ImportError>)
        ensures
            match from_text_spec(source_toml) {
                Err(fault) => r matches Err(e) && e@ == fault,
                Ok(fv) => match r {
                    Ok(c) => {
                        &&& fv.build.contains_key(platform.0@)
                        &&& c.context == (Context { platform, is_debug, base_dir, arch, sel4_arch })
                        &&& c.sel4_config@ == flatten_for(fv.config, c.context)
                        &&& c.metadata@ == flatten_for(fv.metadata, c.context)
                        &&& c.sel4_sources@ == fv.sources.spec_relative_to(opt_text(c.context.base_dir))
                        &&& c.build_dir == fv.build_dir
                        &&& c.build@ == build_for(fv.build[platform.0@], is_debug, opt_text(c.context.base_dir))
                    },
                    Err(e) => !fv.build.contains_key(platform.0@) && e is NoBuildSupplied,
                },
            },
    {
        let f = match Full::from_str(source_toml) {
            Ok(f) => f,
            Err(e) => return Err(e),
        };
        Contextualized::from_full(&f, arch, sel4_arch, is_debug, platform, base_dir)
    }
}

} // verus!
