use selfe_config::arch::{Arch, Platform, SeL4Arch};
use selfe_config::contextualize::Contextualized;
use selfe_config::document::{get_default_config, DEFAULT_CONFIG_CONTENT};
use selfe_config::model::{Full, GitTarget, ImportError, RepoSource, SeL4Sources, SingleValue, ValueMap};

const EXAMPLE: &str = r#"[build.sabre.debug]
make_root_task = 'cmake debug'
root_task_image = 'debug_image'

[build.sabre.release]
make_root_task = 'cmake release'
root_task_image = 'release_image'
[build.some_arbitrary_platform.debug]
make_root_task = 'cmake debug'
root_task_image = 'debug_image'

[build.some_arbitrary_platform.release]
make_root_task = 'cmake release'
root_task_image = 'release_image'
[sel4.config]
KernelRetypeFanOutLimit = 256

[sel4.config.aarch32]
KernelArmFastMode = true

[sel4.config.aarch64]
KernelArmFastMode = false

[sel4.config.debug]
KernelDebugBuild = true
KernelPrinting = true

[sel4.config.release]
KernelDebugBuild = false
KernelPrinting = false

[sel4.config.sabre]
SomeOtherKey = 'hi'

[sel4.config.some_arbitrary_platform]
SomeOtherKey = 'aloha'

[sel4.kernel]
path = './deps/seL4'

[sel4.tools]
path = './deps/seL4_tools'

[sel4.util_libs]
path = './deps/util_libs'
"#;

const WITH_METADATA: &str = r##"
[sel4]
kernel = { git = "https://github.com/seL4/seL4" , tag = "10.1.1" }
tools = { git = "https://github.com/seL4/seL4_tools" , branch = "10.1.x-compatible" }
util_libs  = { git = "https://github.com/seL4/util_libs" , branch = "10.1.x-compatible" }

[build.pc99]

[build.sabre]

[metadata]
arb-user-data = 1

[metadata.debug]
debug-specific = 2

[metadata.release]
release-specific = 3

[metadata.arm]
arm-specific = 4

[metadata.x86]
x86-specific = 5

[metadata.aarch32]
aarch32-specific = 6

[metadata.aarch64]
aarch64-specific = 7

[metadata.pc99]
in-all-platforms = 8
pc99-specific = 9

[metadata.sabre]
in-all-platforms = 10
sabre-specific = 11
"##;

fn local_sources() -> SeL4Sources {
    SeL4Sources {
        kernel: RepoSource::LocalPath("./deps/seL4".to_string()),
        tools: RepoSource::LocalPath("./deps/seL4_tools".to_string()),
        util_libs: RepoSource::LocalPath("./deps/util_libs".to_string()),
    }
}

#[test]
fn integration_reads_from_external_default_file_okay() {
    let f = Full::from_str(DEFAULT_CONFIG_CONTENT).expect("could not read toml");
    assert!(!f.sel4.config.shared.is_empty());
}

#[test]
fn mod_default_content_is_valid() {
    let f = get_default_config().expect("default config content should always be valid");
    assert_eq!(
        RepoSource::RemoteGit {
            url: "https://github.com/seL4/seL4".to_string(),
            target: GitTarget::Rev("4d0f02c029560cae0e8d93727eb17d58bcecc2ac".to_string())
        },
        f.sel4.sources.kernel
    )
}

#[test]
fn integration_full_parse_happy_path() {
    let f = Full::from_str(EXAMPLE).expect("could not read toml to full");
    assert_eq!(local_sources(), f.sel4.sources);
    assert_eq!(1, f.sel4.config.shared.len());
    let shared_retype = f.sel4.config.shared.get("KernelRetypeFanOutLimit").unwrap();
    assert_eq!(&SingleValue::Integer(256), shared_retype);

    let debug_printing = f.sel4.config.debug.get("KernelPrinting").unwrap();
    assert_eq!(&SingleValue::Boolean(true), debug_printing);
    let release_printing = f.sel4.config.release.get("KernelPrinting").unwrap();
    assert_eq!(&SingleValue::Boolean(false), release_printing);

    let arm32 = f.sel4.config.contextual.get("aarch32").unwrap();
    assert_eq!(1, arm32.len());
    let fast_mode_32 = arm32.get("KernelArmFastMode").unwrap();
    assert_eq!(&SingleValue::Boolean(true), fast_mode_32);

    let arm64 = f.sel4.config.contextual.get("aarch64").unwrap();
    assert_eq!(1, arm64.len());
    let fast_mode_64 = arm64.get("KernelArmFastMode").unwrap();
    assert_eq!(&SingleValue::Boolean(false), fast_mode_64);

    let sabre = f.sel4.config.contextual.get("sabre").unwrap();
    assert_eq!(1, sabre.len());
    let arb_key_sabre = sabre.get("SomeOtherKey").unwrap();
    assert_eq!(&SingleValue::String("hi".to_owned()), arb_key_sabre);

    let some_arbitrary_platform = f.sel4.config.contextual.get("some_arbitrary_platform").unwrap();
    assert_eq!(1, some_arbitrary_platform.len());
    let arb_key_some_arbitrary_platform = some_arbitrary_platform.get("SomeOtherKey").unwrap();
    assert_eq!(&SingleValue::String("aloha".to_owned()), arb_key_some_arbitrary_platform);

    let resolved_some_arbitrary_platform_default = Contextualized::from_full(
        &f,
        Arch::Arm,
        SeL4Arch::Aarch32,
        true,
        Platform("some_arbitrary_platform".to_owned()),
        None,
    )
    .unwrap();

    let resolved_sabre =
        Contextualized::from_full(&f, Arch::Arm, SeL4Arch::Aarch32, true, Platform("sabre".to_string()), None)
            .unwrap();
    assert_ne!(resolved_some_arbitrary_platform_default, resolved_sabre);
}

fn assert_round_trip_equivalence(source: &str, require_exact_reserialization: bool) {
    let f_alpha = Full::from_str(source).expect("could not read toml");
    let serialized = f_alpha.to_toml_string().expect("could not serialize to toml");
    let f_beta = Full::from_str(&serialized).expect("could not read serialized toml");
    assert_eq!(f_alpha, f_beta);
    if require_exact_reserialization {
        assert_eq!(source, serialized);
    }
}

#[test]
fn integration_round_trip() {
    assert_round_trip_equivalence(EXAMPLE, true);
}

#[test]
fn metadata_round_trip() {
    assert_round_trip_equivalence(WITH_METADATA, false);
}

#[test]
fn integration_happy_path_straight_to_contextualized() {
    let f = Contextualized::from_str(EXAMPLE, Arch::Arm, SeL4Arch::Aarch32, true, Platform("sabre".to_owned()), None)
        .unwrap();
    assert_eq!(local_sources(), f.sel4_sources);
    assert_eq!(Arch::Arm, f.context.arch);
    assert_eq!(SeL4Arch::Aarch32, f.context.sel4_arch);
    assert_eq!(Platform("sabre".to_owned()), f.context.platform);
    assert_eq!(true, f.context.is_debug);
    println!("{:#?}", f.sel4_config);
    assert_eq!(5, f.sel4_config.len());
    assert_eq!(&SingleValue::Integer(256), f.sel4_config.get("KernelRetypeFanOutLimit").unwrap());
    assert_eq!(&SingleValue::Boolean(true), f.sel4_config.get("KernelDebugBuild").unwrap());
    assert_eq!(&SingleValue::Boolean(true), f.sel4_config.get("KernelPrinting").unwrap());
    assert_eq!(&SingleValue::Boolean(true), f.sel4_config.get("KernelArmFastMode").unwrap());
    assert_eq!(&SingleValue::String("hi".to_owned()), f.sel4_config.get("SomeOtherKey").unwrap());
}

fn assert_contains_int(map: &ValueMap, key: &str, val: i64) {
    assert_eq!(
        &SingleValue::Integer(val),
        map.get(key).unwrap_or_else(|| panic!("Did not contain expected key {}", key))
    );
}

#[test]
fn finds_contextualized_metadata() {
    let f = Full::from_str(WITH_METADATA).expect("could not read toml");

    let arm_aarch32_sabre_debug =
        Contextualized::from_full(&f, Arch::Arm, SeL4Arch::Aarch32, true, Platform("sabre".to_string()), None)
            .expect("Could not contextualize");
    assert_eq!(6, arm_aarch32_sabre_debug.metadata.len());
    assert_contains_int(&arm_aarch32_sabre_debug.metadata, "arb-user-data", 1);
    assert_contains_int(&arm_aarch32_sabre_debug.metadata, "debug-specific", 2);
    assert_contains_int(&arm_aarch32_sabre_debug.metadata, "arm-specific", 4);
    assert_contains_int(&arm_aarch32_sabre_debug.metadata, "aarch32-specific", 6);
    assert_contains_int(&arm_aarch32_sabre_debug.metadata, "in-all-platforms", 10);
    assert_contains_int(&arm_aarch32_sabre_debug.metadata, "sabre-specific", 11);

    let arm_aarch64_sabre_debug =
        Contextualized::from_full(&f, Arch::Arm, SeL4Arch::Aarch64, true, Platform("sabre".to_string()), None)
            .expect("Could not contextualize");
    assert_eq!(6, arm_aarch64_sabre_debug.metadata.len());
    assert_contains_int(&arm_aarch64_sabre_debug.metadata, "arb-user-data", 1);
    assert_contains_int(&arm_aarch64_sabre_debug.metadata, "debug-specific", 2);
    assert_contains_int(&arm_aarch64_sabre_debug.metadata, "arm-specific", 4);
    assert_contains_int(&arm_aarch64_sabre_debug.metadata, "aarch64-specific", 7);
    assert_contains_int(&arm_aarch64_sabre_debug.metadata, "in-all-platforms", 10);
    assert_contains_int(&arm_aarch64_sabre_debug.metadata, "sabre-specific", 11);

    let arm_aarch64_sabre_release =
        Contextualized::from_full(&f, Arch::Arm, SeL4Arch::Aarch64, false, Platform("sabre".to_string()), None)
            .expect("Could not contextualize");
    assert_eq!(6, arm_aarch64_sabre_release.metadata.len());
    assert_contains_int(&arm_aarch64_sabre_release.metadata, "arb-user-data", 1);
    assert_contains_int(&arm_aarch64_sabre_release.metadata, "release-specific", 3);
    assert_contains_int(&arm_aarch64_sabre_release.metadata, "arm-specific", 4);
    assert_contains_int(&arm_aarch64_sabre_release.metadata, "aarch64-specific", 7);
    assert_contains_int(&arm_aarch64_sabre_release.metadata, "in-all-platforms", 10);
    assert_contains_int(&arm_aarch64_sabre_release.metadata, "sabre-specific", 11);

    let x86_x86_64_pc99_release =
        Contextualized::from_full(&f, Arch::X86, SeL4Arch::X86_64, false, Platform("pc99".to_string()), None)
            .expect("Could not contextualize");
    assert_eq!(5, x86_x86_64_pc99_release.metadata.len());
    assert_contains_int(&arm_aarch64_sabre_release.metadata, "arb-user-data", 1);
    assert_contains_int(&x86_x86_64_pc99_release.metadata, "release-specific", 3);
    assert_contains_int(&x86_x86_64_pc99_release.metadata, "x86-specific", 5);
    assert_contains_int(&x86_x86_64_pc99_release.metadata, "in-all-platforms", 8);
    assert_contains_int(&x86_x86_64_pc99_release.metadata, "pc99-specific", 9);
}

#[test]
fn local_path_source_rejects_extra_keys() {
    let doc = "[sel4.kernel]\npath = './deps/seL4'\nbranch = 'master'\n\n[sel4.tools]\npath = 't'\n\n[sel4.util_libs]\npath = 'u'\n";
    match Full::from_str(doc) {
        Err(ImportError::UnsupportedProperties { extra_keys }) => assert_eq!(vec!["branch".to_string()], extra_keys),
        other => panic!("expected UnsupportedProperties, got {:?}", other.err()),
    }
}

#[test]
fn git_source_needs_exactly_one_target() {
    let doc = "[sel4.kernel]\ngit = 'g'\nbranch = 'b'\ntag = 't'\n\n[sel4.tools]\npath = 't'\n\n[sel4.util_libs]\npath = 'u'\n";
    match Full::from_str(doc) {
        Err(ImportError::MissingProperty { name, .. }) => assert_eq!("branch or tag or rev", name),
        other => panic!("expected MissingProperty, got {:?}", other.err()),
    }
}

#[test]
fn missing_sources_are_reported() {
    match Full::from_str("[sel4.kernel]\npath = 'k'\n") {
        Err(ImportError::MissingProperty { name, expected_type }) => {
            assert_eq!("tools", name);
            assert_eq!("table", expected_type);
        }
        other => panic!("expected MissingProperty, got {:?}", other.err()),
    }
    match Full::from_str("[metadata]\na = 1\n") {
        Err(ImportError::MissingProperty { name, .. }) => assert_eq!("sel4", name),
        other => panic!("expected MissingProperty, got {:?}", other.err()),
    }
}

#[test]
fn non_single_values_are_rejected() {
    let doc = "[sel4.kernel]\npath = 'k'\n[sel4.tools]\npath = 't'\n[sel4.util_libs]\npath = 'u'\n[sel4.config]\nA = 1.5\n";
    match Full::from_str(doc) {
        Err(ImportError::NonSingleValue { found }) => assert_eq!("float", found),
        other => panic!("expected NonSingleValue, got {:?}", other.err()),
    }
    let doc = "[sel4.kernel]\npath = 'k'\n[sel4.tools]\npath = 't'\n[sel4.util_libs]\npath = 'u'\n[sel4.config.debug]\nA = [1, 2]\n";
    match Full::from_str(doc) {
        Err(ImportError::NonSingleValue { found }) => assert_eq!("array", found),
        other => panic!("expected NonSingleValue, got {:?}", other.err()),
    }
    let doc = "[sel4.kernel]\npath = 'k'\n[sel4.tools]\npath = 't'\n[sel4.util_libs]\npath = 'u'\n[sel4.config.sabre.inner]\nA = 1\n";
    match Full::from_str(doc) {
        Err(ImportError::NonSingleValue { found }) => assert_eq!("table", found),
        other => panic!("expected NonSingleValue, got {:?}", other.err()),
    }
    let doc = "[sel4.kernel]\npath = 'k'\n[sel4.tools]\npath = 't'\n[sel4.util_libs]\npath = 'u'\n[sel4.config]\ndebug = 3\n";
    match Full::from_str(doc) {
        Err(ImportError::TypeMismatch { name, expected, found }) => {
            assert_eq!("debug", name);
            assert_eq!("table", expected);
            assert_eq!("integer", found);
        }
        other => panic!("expected TypeMismatch, got {:?}", other.err()),
    }
}

#[test]
fn malformed_text_is_a_deserialize_error() {
    match Full::from_str("[sel4\nkernel = ") {
        Err(ImportError::TomlDeserializeError(_)) => {}
        other => panic!("expected TomlDeserializeError, got {:?}", other.err()),
    }
}

#[test]
fn build_entries_must_be_tables() {
    let doc = "[sel4.kernel]\npath = 'k'\n[sel4.tools]\npath = 't'\n[sel4.util_libs]\npath = 'u'\n[build]\nsabre = 'x'\n";
    match Full::from_str(doc) {
        Err(ImportError::TypeMismatch { name, .. }) => assert_eq!("sabre", name),
        other => panic!("expected TypeMismatch, got {:?}", other.err()),
    }
    let doc = "[sel4.kernel]\npath = 'k'\n[sel4.tools]\npath = 't'\n[sel4.util_libs]\npath = 'u'\n[build.sabre.debug]\nmake_root_task = 'm'\n";
    match Full::from_str(doc) {
        Err(ImportError::MissingProperty { name, expected_type }) => {
            assert_eq!("root_task_image", name);
            assert_eq!("string", expected_type);
        }
        other => panic!("expected MissingProperty, got {:?}", other.err()),
    }
}

#[test]
fn relative_paths_follow_the_base_dir() {
    let doc = "[sel4.kernel]\npath = 'k'\n[sel4.tools]\npath = '/abs/t'\n[sel4.util_libs]\ngit = 'g'\nrev = 'r'\n[build.sabre]\ntoolchain_dir = 'tc'\n[build.sabre.debug]\nroot_task_image = 'img'\n";
    let c = Contextualized::from_str(
        doc,
        Arch::Arm,
        SeL4Arch::Aarch32,
        true,
        Platform("sabre".to_string()),
        Some("/base".to_string()),
    )
    .unwrap();
    assert_eq!(RepoSource::LocalPath("/base/k".to_string()), c.sel4_sources.kernel);
    assert_eq!(RepoSource::LocalPath("/abs/t".to_string()), c.sel4_sources.tools);
    assert_eq!(
        RepoSource::RemoteGit { url: "g".to_string(), target: GitTarget::Rev("r".to_string()) },
        c.sel4_sources.util_libs
    );
    assert_eq!(Some("/base/tc".to_string()), c.build.toolchain_dir);
    assert_eq!("/base/img", c.build.root_task.unwrap().image_path);
}

#[test]
fn deep_nesting_is_refused_without_aborting() {
    let mut doc = String::from("a = ");
    for _ in 0..100_000 {
        doc.push('[');
    }
    match Full::from_str(&doc) {
        Err(ImportError::NestingTooDeep { limit }) => assert_eq!(128, limit),
        other => panic!("expected NestingTooDeep, got {:?}", other.err()),
    }
    let mut doc = String::from("a");
    for _ in 0..100_000 {
        doc.push_str(".a");
    }
    doc.push_str(" = 1\n");
    match Full::from_str(&doc) {
        Err(ImportError::NestingTooDeep { .. }) => {}
        other => panic!("expected NestingTooDeep, got {:?}", other.err()),
    }
    let mut doc = String::from("[sel4.kernel]\npath = 'k'\n[sel4.tools]\npath = 't'\n[sel4.util_libs]\npath = 'u'\n[metadata]\na = ");
    for _ in 0..100 {
        doc.push('[');
    }
    for _ in 0..100 {
        doc.push(']');
    }
    doc.push('\n');
    match Full::from_str(&doc) {
        Err(ImportError::NonSingleValue { found }) => assert_eq!("array", found),
        other => panic!("expected NonSingleValue, got {:?}", other.err()),
    }
}

#[test]
fn many_tables_and_bracketed_strings_are_read() {
    let mut doc = String::from("[sel4.kernel]\npath = 'k'\n[sel4.tools]\npath = 't'\n[sel4.util_libs]\npath = 'u'\n");
    for i in 0..600 {
        doc.push_str(&format!("[build.p{}.debug]\nroot_task_image = \"[[[{{{{.x.y.z\" # ]]] [[[\n", i));
    }
    doc.push_str("[metadata]\nnote = \"\"\"\n[[[[[[\n.....\"\"\"\nquoted = '''[[[[.'''\n");
    let f = Full::from_str(&doc).expect("a wide but shallow document reads");
    assert_eq!(600, f.build.len());
    assert_eq!(
        "[[[{{.x.y.z",
        f.build.get("p7").unwrap().debug_build_profile.as_ref().unwrap().root_task_image
    );
    let mut doc = String::from("[sel4.kernel]\npath = 'k'\nbranch = 'b'\n[sel4.tools]\npath = 't'\n[sel4.util_libs]\npath = 'u'\n");
    for i in 0..600 {
        doc.push_str(&format!("[build.q{}]\n", i));
    }
    match Full::from_str(&doc) {
        Err(ImportError::UnsupportedProperties { extra_keys }) => assert_eq!(vec!["branch".to_string()], extra_keys),
        other => panic!("expected UnsupportedProperties, got {:?}", other.err()),
    }
}

#[test]
fn maps_compare_by_content() {
    let a = Full::from_str("[sel4.kernel]\npath = 'k'\n[sel4.tools]\npath = 't'\n[sel4.util_libs]\npath = 'u'\n[metadata]\nb = 2\na = 1\n").unwrap();
    let b = Full::from_str("[sel4.kernel]\npath = 'k'\n[sel4.tools]\npath = 't'\n[sel4.util_libs]\npath = 'u'\n[metadata]\na = 1\nb = 2\n").unwrap();
    assert_eq!(a, b);
}
