use hermit::features::{
    feature_var_name, forwarded_features, has_feature, join_with_spaces, kernel_feature_list,
    translate_profile,
};

fn b(s: &str) -> Vec<u8> {
    s.as_bytes().to_vec()
}

fn names(v: &[&str]) -> Vec<Vec<u8>> {
    v.iter().map(|s| b(s)).collect()
}

#[test]
fn debug_profile_becomes_dev() {
    assert_eq!(translate_profile(b"debug"), b("dev"));
}

#[test]
fn other_profiles_pass_through() {
    assert_eq!(translate_profile(b"release"), b("release"));
    assert_eq!(translate_profile(b"Debug"), b("Debug"));
    assert_eq!(translate_profile(b"debug2"), b("debug2"));
    assert_eq!(translate_profile(b""), b(""));
}

#[test]
fn feature_variable_names() {
    assert_eq!(feature_var_name(b"pci-ids"), b("CARGO_FEATURE_PCI_IDS"));
    assert_eq!(feature_var_name(b"tcp"), b("CARGO_FEATURE_TCP"));
    assert_eq!(feature_var_name(b"rtl8139"), b("CARGO_FEATURE_RTL8139"));
    assert_eq!(feature_var_name(b""), b("CARGO_FEATURE_"));
}

#[test]
fn feature_presence_follows_environment() {
    let env = names(&["PATH", "CARGO_FEATURE_RANDOMIZE_LAYOUT"]);
    assert!(has_feature(&env, b"randomize-layout"));
    assert!(!has_feature(&env, b"instrument"));
}

#[test]
fn known_features_in_order() {
    assert_eq!(
        kernel_feature_list(),
        names(&[
            "acpi", "dhcpv4", "fsgsbase", "pci", "pci-ids", "smp", "tcp", "udp", "trace", "vga",
            "rtl8139", "fs"
        ])
    );
}

#[test]
fn forwarded_features_keep_kernel_order() {
    let env = names(&[
        "CARGO_FEATURE_TCP",
        "HOME",
        "CARGO_FEATURE_MY_OWN",
        "CARGO_FEATURE_SMP",
        "CARGO_FEATURE_ACPI",
    ]);
    assert_eq!(forwarded_features(&env), names(&["acpi", "smp", "tcp"]));
    let shuffled = names(&[
        "CARGO_FEATURE_ACPI",
        "CARGO_FEATURE_SMP",
        "CARGO_FEATURE_TCP",
        "CARGO_FEATURE_TCP",
    ]);
    assert_eq!(forwarded_features(&shuffled), names(&["acpi", "smp", "tcp"]));
}

#[test]
fn forwarded_features_empty_and_all() {
    assert!(forwarded_features(&names(&["CARGO_FEATURE_INSTRUMENT"])).is_empty());
    assert!(forwarded_features(&Vec::new()).is_empty());
    let all: Vec<Vec<u8>> = kernel_feature_list()
        .iter()
        .rev()
        .map(|f| feature_var_name(f))
        .collect();
    assert_eq!(forwarded_features(&all), kernel_feature_list());
}

#[test]
fn names_joined_by_spaces() {
    assert_eq!(join_with_spaces(&names(&["smp", "tcp", "udp"])), b("smp tcp udp"));
    assert_eq!(join_with_spaces(&names(&["fs"])), b("fs"));
    assert_eq!(join_with_spaces(&Vec::new()), b(""));
}
