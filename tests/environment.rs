use selfe_config::text::{bool_text, hex_text, int_text};
use selfe_config::arch::{Arch, SeL4Arch};
use selfe_config::build_env::{choose_target, BuildProfile, TargetError};
use selfe_config::model::{ImportError, SingleValue};
use selfe_config::order::str_lt;
use selfe_config::toml_text::TomlNode;

#[test]
fn profiles_parse() {
    assert_eq!(Some(BuildProfile::Debug), BuildProfile::parse("debug"));
    assert_eq!(Some(BuildProfile::Release), BuildProfile::parse("release"));
    assert_eq!(None, BuildProfile::parse("bench"));
    assert!(BuildProfile::Debug.is_debug());
    assert!(!BuildProfile::Release.is_debug());
}

#[test]
fn target_from_rust_arch_and_defaults() {
    let t = choose_target("armv7", &None, &None, &None).unwrap();
    assert_eq!(Arch::Arm, t.arch);
    assert_eq!(SeL4Arch::Aarch32, t.sel4_arch);
    assert_eq!("sabre", t.platform.0);

    let t = choose_target("x86_64", &None, &None, &Some("my_pc".to_string())).unwrap();
    assert_eq!(Arch::X86, t.arch);
    assert_eq!(SeL4Arch::X86_64, t.sel4_arch);
    assert_eq!("my_pc", t.platform.0);

    let t = choose_target("x86_64", &None, &None, &None).unwrap();
    assert_eq!("pc99", t.platform.0);

    let t = choose_target("wasm32", &Some("arm".to_string()), &Some("aarch64".to_string()), &None).unwrap();
    assert_eq!(Arch::Arm, t.arch);
    assert_eq!(SeL4Arch::Aarch64, t.sel4_arch);
}

#[test]
fn target_errors() {
    assert_eq!(Err(TargetError::NoSeL4ArchForTarget), choose_target("wasm32", &None, &None, &None));
    assert_eq!(Err(TargetError::NoSeL4ArchForTarget), choose_target("z80", &None, &None, &None));
    assert_eq!(
        Err(TargetError::UnknownSeL4ArchOverride),
        choose_target("x86_64", &None, &Some("ia64".to_string()), &None)
    );
    assert_eq!(
        Err(TargetError::UnknownArchOverride),
        choose_target("x86_64", &Some("mips".to_string()), &None, &None)
    );
    assert_eq!(Err(TargetError::NoDefaultPlatform), choose_target("riscv64gc", &None, &None, &None));
}

#[test]
fn single_values_and_leaves() {
    assert_eq!(SingleValue::Integer(7), SingleValue::from_toml(&TomlNode::Integer(7)).unwrap());
    assert_eq!(
        SingleValue::String("s".to_string()),
        SingleValue::from_toml(&TomlNode::Text("s".to_string())).unwrap()
    );
    match SingleValue::from_toml(&TomlNode::Other("datetime")) {
        Err(ImportError::NonSingleValue { found }) => assert_eq!("datetime", found),
        other => panic!("expected NonSingleValue, got {:?}", other),
    }
    match SingleValue::Boolean(true).to_toml() {
        TomlNode::Boolean(b) => assert!(b),
        other => panic!("unexpected leaf {:?}", other),
    }
}

#[test]
fn names_order_by_characters() {
    assert!(str_lt("KERNEL_PATH", "KernelArch"));
    assert!(str_lt("Kernel", "KernelArch"));
    assert!(!str_lt("KernelArch", "Kernel"));
    assert!(!str_lt("same", "same"));
    assert!(str_lt("", "a"));
}

#[test]
fn number_texts() {
    assert_eq!("-9223372036854775808", int_text(i64::MIN));
    assert_eq!("9223372036854775807", int_text(i64::MAX));
    assert_eq!("0", int_text(0));
    assert_eq!("-7", int_text(-7));
    assert_eq!("deadbeef", hex_text(0xdead_beef));
    assert_eq!("0", hex_text(0));
    assert_eq!("ffffffffffffffff", hex_text(u64::MAX));
    assert_eq!("true", bool_text(true));
    assert_eq!("false", bool_text(false));
}
