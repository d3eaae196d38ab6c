use selfe_config::arch::{Arch, Platform, RustArch, SeL4Arch};
use selfe_config::archive::{align_addr, AddFileError, Archive};
use selfe_config::build_cache::{cache_dir, plan_build, value_text, BuildError, SeL4BuildMode, SeL4BuildOutcome};
use selfe_config::contextualize::{resolve_context, Context, Contextualized};
use selfe_config::model::{
    Full, GitTarget, ImportError, PlatformBuild, PlatformBuildProfile, PropertiesTree, RepoSource, SeL4,
    SeL4Sources, SingleValue,
};
use selfe_config::sources::{checkout_dir_name, git_invocations, plan_source, FetchPlan};
use selfe_config::strmap::StrMap;

fn empty_full() -> Full {
    Full {
        sel4: SeL4::new(
            SeL4Sources {
                kernel: RepoSource::LocalPath(".".to_string()),
                tools: RepoSource::LocalPath(".".to_string()),
                util_libs: RepoSource::LocalPath(".".to_string()),
            },
            None,
            PropertiesTree::new(),
        ),
        build: StrMap::new(),
        metadata: PropertiesTree::new(),
    }
}

fn override_platform_check() {
    let mut f = empty_full();
    let expected = Platform("sabre".to_owned());
    f.build.insert(
        expected.name(),
        PlatformBuild {
            cross_compiler_prefix: None,
            toolchain_dir: None,
            debug_build_profile: None,
            release_build_profile: Some(PlatformBuildProfile {
                make_root_task: Some("cmake".to_string()),
                root_task_image: "over_here".to_string(),
            }),
        },
    );
    let c = Contextualized::from_full(&f, Arch::Arm, SeL4Arch::Aarch32, false, expected.clone(), None).unwrap();
    assert_eq!(expected, c.context.platform);
    assert_eq!(false, c.context.is_debug);
    assert_eq!(Arch::Arm, c.context.arch);
    assert_eq!(SeL4Arch::Aarch32, c.context.sel4_arch);
    assert_eq!("cmake", c.build.root_task.as_ref().unwrap().make_command.as_ref().unwrap());
    assert_eq!("over_here".to_string(), c.build.root_task.unwrap().image_path);
}

#[test]
fn mod_override_default_platform_contextualization() {
    override_platform_check();
}

#[test]
fn model_override_default_platform_contextualization() {
    override_platform_check();
}

fn context(platform: &str, is_debug: bool) -> Context {
    Context {
        platform: Platform(platform.to_string()),
        is_debug,
        base_dir: None,
        arch: Arch::Arm,
        sel4_arch: SeL4Arch::Aarch32,
    }
}

fn single_map(k: &str, v: SingleValue) -> StrMap<SingleValue> {
    let mut m = StrMap::new();
    m.insert(k.to_string(), v);
    m
}

#[test]
fn contextual_overlay_wins_over_profile() {
    let mut t = PropertiesTree::new();
    t.shared.insert("a".to_string(), SingleValue::Integer(1));
    t.debug = single_map("a", SingleValue::Integer(2));
    t.release = single_map("a", SingleValue::Integer(3));
    t.contextual.insert("X".to_string(), single_map("a", SingleValue::Integer(4)));
    let flat = resolve_context(&t, &context("X", true));
    assert_eq!(Some(&SingleValue::Integer(4)), flat.get("a"));
    let flat = resolve_context(&t, &context("Y", true));
    assert_eq!(Some(&SingleValue::Integer(2)), flat.get("a"));
    let flat = resolve_context(&t, &context("Y", false));
    assert_eq!(Some(&SingleValue::Integer(3)), flat.get("a"));
    let flat = resolve_context(&t, &context("X", false));
    assert_eq!(Some(&SingleValue::Integer(4)), flat.get("a"));
}

#[test]
fn missing_build_entry_fails_closed() {
    let mut f = empty_full();
    f.build.insert("pc99".to_string(), PlatformBuild::default());
    match Contextualized::from_full(&f, Arch::Arm, SeL4Arch::Aarch32, true, Platform("sabre".to_string()), None) {
        Err(ImportError::NoBuildSupplied { platform, profile }) => {
            assert_eq!("sabre", platform);
            assert_eq!("debug", profile);
        }
        other => panic!("expected NoBuildSupplied, got {:?}", other.err()),
    }
    let c = Contextualized::from_full(&f, Arch::X86, SeL4Arch::X86_64, false, Platform("pc99".to_string()), None)
        .unwrap();
    assert_eq!(None, c.build.root_task);
}

#[test]
fn end_to_end_contextualization() {
    let doc = "[sel4.kernel]\npath = 'k'\n[sel4.tools]\npath = 't'\n[sel4.util_libs]\npath = 'u'\n\
[sel4.config]\nKernelRetypeFanOutLimit = 256\n[sel4.config.debug]\nKernelPrinting = true\n\
[sel4.config.release]\nKernelPrinting = false\n[sel4.config.aarch32]\nKernelArmFastMode = true\n\
[build.sabre.debug]\nroot_task_image = 'img'\n";
    let c = Contextualized::from_str(doc, Arch::Arm, SeL4Arch::Aarch32, true, Platform("sabre".to_string()), None)
        .unwrap();
    assert_eq!(3, c.sel4_config.len());
    assert_eq!(Some(&SingleValue::Integer(256)), c.sel4_config.get("KernelRetypeFanOutLimit"));
    assert_eq!(Some(&SingleValue::Boolean(true)), c.sel4_config.get("KernelPrinting"));
    assert_eq!(Some(&SingleValue::Boolean(true)), c.sel4_config.get("KernelArmFastMode"));
    assert_eq!(vec!["KernelArmFastMode".to_string(), "KernelPrinting".to_string()], c.boolean_feature_flags());
}

fn sample_config() -> Contextualized {
    let doc = "[sel4.kernel]\npath = 'k'\n[sel4.tools]\npath = 't'\n[sel4.util_libs]\npath = 'u'\n\
[sel4.config]\nKernelSel4Arch = 'x86_64'\nKernelX86Platform = 'pc99'\nKernelRetypeFanOutLimit = 256\n\
[build.pc99]\ncross_compiler_prefix = 'x86_64-linux-gnu-'\n[build.pc99.debug]\nroot_task_image = 'img'\n";
    Contextualized::from_str(doc, Arch::X86, SeL4Arch::X86_64, true, Platform("pc99".to_string()), None).unwrap()
}

#[test]
fn build_dir_is_deterministic() {
    let a = sample_config();
    let b = sample_config();
    let (da, _) = cache_dir("/out", "/k", "/t", "/u", &a, SeL4BuildMode::Lib);
    let (db, _) = cache_dir("/out", "/k", "/t", "/u", &b, SeL4BuildMode::Lib);
    assert_eq!(da, db);
    assert!(da.starts_with("/out/sel4-build/"));
    let hex = &da["/out/sel4-build/".len()..];
    assert!(!hex.is_empty());
    assert!(hex.chars().all(|c| c.is_ascii_hexdigit() && !c.is_ascii_uppercase()));

    let mut c = sample_config();
    c.sel4_config.insert("KernelRetypeFanOutLimit".to_string(), SingleValue::Integer(255));
    let (dc, _) = cache_dir("/out", "/k", "/t", "/u", &c, SeL4BuildMode::Lib);
    assert_ne!(da, dc);
    let mut t1 = sample_config();
    t1.sel4_config.insert("Flag".to_string(), SingleValue::Boolean(true));
    let mut t2 = sample_config();
    t2.sel4_config.insert("Flag".to_string(), SingleValue::String("true".to_string()));
    assert_ne!(
        cache_dir("/out", "/k", "/t", "/u", &t1, SeL4BuildMode::Lib).0,
        cache_dir("/out", "/k", "/t", "/u", &t2, SeL4BuildMode::Lib).0
    );
    let mut moved = sample_config();
    moved.sel4_sources.kernel = RepoSource::LocalPath("elsewhere".to_string());
    assert_ne!(da, cache_dir("/out", "/k", "/t", "/u", &moved, SeL4BuildMode::Lib).0);
    let (dk, _) = cache_dir("/out", "/k", "/t", "/u", &a, SeL4BuildMode::Kernel);
    assert_ne!(da, dk);
}

#[test]
fn build_plan_for_x86_kernel() {
    let c = sample_config();
    let plan = plan_build("/out", "/k", "/t", "/u", &c, SeL4BuildMode::Kernel, false).unwrap();
    let dir = plan.build_dir.clone();
    match &plan.outcome {
        SeL4BuildOutcome::Kernel { build_dir, kernel_path, root_image_path } => {
            assert_eq!(&dir, build_dir);
            assert_eq!(&format!("{}/images/kernel-x86_64-pc99", dir), kernel_path);
            assert_eq!(&Some(format!("{}/images/root_task-image-x86_64-pc99", dir)), root_image_path);
        }
        other => panic!("unexpected outcome {:?}", other),
    }
    let steps = plan.steps.unwrap();
    assert_eq!("all", steps.ninja_target);
    assert!(steps.cmake_args.contains(&"-DKernelRetypeFanOutLimit=256".to_string()));
    assert!(steps.cmake_args.contains(&"-DCROSS_COMPILER_PREFIX=x86_64-linux-gnu-".to_string()));
    assert!(steps.cmake_args.contains(&"-DCMAKE_TOOLCHAIN_FILE=/k/gcc.cmake".to_string()));
    assert!(steps.cmake_args.contains(&"-DKERNEL_PATH=/k".to_string()));
    assert!(!steps.cmake_args.contains(&"-DLibSel4FunctionAttributes=public".to_string()));
    assert_eq!(vec!["-G".to_string(), "Ninja".to_string(), ".".to_string()], steps.cmake_args[steps.cmake_args.len() - 3..].to_vec());
    assert_eq!(("ROOT_TASK_PATH".to_string(), "img".to_string()), steps.cmake_env[1]);
    assert_eq!(("UTIL_LIBS_BIN_PATH".to_string(), format!("{}/util_libs", dir)), steps.cmake_env[3]);

    let cached = plan_build("/out", "/k", "/t", "/u", &c, SeL4BuildMode::Kernel, true).unwrap();
    assert_eq!(dir, cached.build_dir);
    assert!(cached.steps.is_none());

    let lib = plan_build("/out", "/k", "/t", "/u", &c, SeL4BuildMode::Lib, false).unwrap();
    let steps = lib.steps.unwrap();
    assert_eq!("libsel4.a", steps.ninja_target);
    assert!(steps.cmake_args.contains(&"-DLibSel4FunctionAttributes=public".to_string()));
    assert_eq!(SeL4BuildOutcome::StaticLib { build_dir: lib.build_dir.clone() }, lib.outcome);
}

#[test]
fn build_plan_errors() {
    let mut c = sample_config();
    c.build_dir = Some("/prebuilt".to_string());
    let lib = plan_build("/o", "/k", "/t", "/u", &c, SeL4BuildMode::Lib, false).unwrap();
    assert_eq!("/prebuilt", lib.build_dir);
    assert!(lib.steps.is_none());

    let mut c = sample_config();
    c.build.root_task = None;
    assert_eq!(Some(BuildError::MissingRootTask), plan_build("/o", "/k", "/t", "/u", &c, SeL4BuildMode::Kernel, false).err());

    let mut c = sample_config();
    c.sel4_config.insert("KernelPlatform".to_string(), SingleValue::String("pc99".to_string()));
    assert_eq!(Some(BuildError::ExplicitKernelPlatform), plan_build("/o", "/k", "/t", "/u", &c, SeL4BuildMode::Lib, false).err());

    let doc = "[sel4.kernel]\npath = 'k'\n[sel4.tools]\npath = 't'\n[sel4.util_libs]\npath = 'u'\n[build.pc99]\n";
    let c = Contextualized::from_str(doc, Arch::X86, SeL4Arch::X86_64, true, Platform("pc99".to_string()), None).unwrap();
    assert_eq!(Some(BuildError::MissingSel4Arch), plan_build("/o", "/k", "/t", "/u", &c, SeL4BuildMode::Lib, false).err());
}

#[test]
fn value_texts() {
    assert_eq!("-42", value_text(&SingleValue::Integer(-42)));
    assert_eq!("256", value_text(&SingleValue::Integer(256)));
    assert_eq!("true", value_text(&SingleValue::Boolean(true)));
    assert_eq!("false", value_text(&SingleValue::Boolean(false)));
    assert_eq!("x", value_text(&SingleValue::String("x".to_string())));
}

#[test]
fn second_resolution_fetches_nothing() {
    let src = RepoSource::RemoteGit { url: "https://example.org/seL4".to_string(), target: GitTarget::Tag("10.1.1".to_string()) };
    let first = plan_source(&src, "kernel", "/out/sel4_source", true);
    assert_eq!("/out/sel4_source/kernel-tag-10.1.1", first.dir);
    assert_eq!(
        Some(FetchPlan::ShallowClone {
            url: "https://example.org/seL4".to_string(),
            reference: "10.1.1".to_string(),
            dir: first.dir.clone()
        }),
        first.fetch
    );
    let second = plan_source(&src, "kernel", "/out/sel4_source", false);
    assert_eq!(first.dir, second.dir);
    assert_eq!(None, second.fetch);

    let local = plan_source(&RepoSource::LocalPath("./here".to_string()), "kernel", "/out", true);
    assert_eq!("./here", local.dir);
    assert_eq!(None, local.fetch);
}

#[test]
fn revision_fetch_clones_then_resets() {
    let target = GitTarget::Rev("abc".to_string());
    assert_eq!("tools-rev-abc", checkout_dir_name("tools", &target));
    let src = RepoSource::RemoteGit { url: "u".to_string(), target };
    let plan = plan_source(&src, "tools", "/d/", true);
    assert_eq!("/d/tools-rev-abc", plan.dir);
    let calls = git_invocations(&plan.fetch.unwrap());
    assert_eq!(vec![vec!["clone".to_string(), "u".to_string(), "/d/tools-rev-abc".to_string()], vec!["reset".to_string(), "--hard".to_string(), "abc".to_string()]], calls);
}

#[test]
fn arch_names() {
    assert_eq!(Ok(RustArch::Thumbv8mmain), RustArch::parse("thumbv8m.main"));
    assert_eq!(Ok(RustArch::Riscv64imac), RustArch::parse("riscv64imac"));
    assert!(RustArch::parse("z80").is_err());
    assert_eq!(Ok(SeL4Arch::ArmHyp), SeL4Arch::parse("arm_hyp"));
    assert_eq!(Ok(Arch::Riscv), Arch::parse("riscv"));
    assert_eq!(Some(SeL4Arch::Aarch32), SeL4Arch::from_rust_arch(RustArch::Armv7));
    assert_eq!(Some(SeL4Arch::Aarch64), SeL4Arch::from_rust_arch(RustArch::Thumbv8mmain));
    assert_eq!(None, SeL4Arch::from_rust_arch(RustArch::Wasm32));
    assert_eq!(Arch::X86, Arch::from_sel4_arch(SeL4Arch::Ia32));
    assert_eq!(Some(Arch::Riscv), Arch::from_rust_arch(RustArch::Riscv64gc));
    assert_eq!("x86_64", SeL4Arch::X86_64.name());
    assert_eq!("arm", Arch::Arm.name());
    assert_eq!("rev", GitTarget::Rev("x".to_string()).kind());
    assert_eq!("x", GitTarget::Rev("x".to_string()).value());
}

#[test]
fn no_empty_name() {
    let mut ar = Archive::new();
    let res = ar.add_file("", "doesn't_matter");
    assert_eq!(res, Err(AddFileError::EmptyNameNotAllowed));
}

#[test]
fn no_duplicate_name() {
    let mut ar = Archive::new();
    let res = ar.add_file("test", "/tmp/pack_test.txt");
    assert_eq!(res, Ok(()));

    let res = ar.add_file("test", "doesn't_matter");
    assert_eq!(res, Err(AddFileError::NameConflict));
}

#[test]
fn no_overlong_name() {
    let mut ar = Archive::new();
    let name = "dajlsdkfj alskdjflkasdjfkljasdkl fjalfj eliwjf lasdijflaksdjflkasjdlkfaj sdlfkjasldkf jalsdkjf laskjdf laskdjf lakwjflawjelf ijasdlkfjaslfiawejlfajsdkflasdkjflaskdjflaskdjflaskdjflaksjdflkasjdflaksdjflaskdjflaksdjflkasjdflkajsdflkajsdlkfjasldkfjlaksjdflkasjdflkajsdlkfjasldkjfaklsdjf";
    let res = ar.add_file(name, "foo");
    assert_eq!(res, Err(AddFileError::FileNameTooLong(name.to_owned())));
}

#[test]
fn addresses_align_up() {
    assert_eq!(0, align_addr(0));
    assert_eq!(0x1000, align_addr(1));
    assert_eq!(0x1000, align_addr(0x1000));
    assert_eq!(0x2000, align_addr(0x1001));
}
