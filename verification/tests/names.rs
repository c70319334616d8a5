use apple_rs_sys::class::{
    generate_class_name, generate_obfuscated_class_name, generate_unique_class_name,
};
use std::collections::HashSet;

#[test]
fn debug_name_shape() {
    let name = generate_class_name("Delegate");
    assert!(name.starts_with("Delegate_"));
    assert!(name.ends_with("_apple_rs_debug"));
    // "Delegate" + "_" + a 36-character unique id + "_" + "apple_rs_debug"
    assert_eq!(name.len(), 8 + 1 + 36 + 1 + 14);
}

#[test]
fn obfuscated_name_shape() {
    let name = generate_obfuscated_class_name();
    assert!(name.ends_with("_apple_rs"));
    assert!(!name.starts_with("_"), "the unique id comes first");
    assert_eq!(name.len(), 36 + 1 + 8);
}

#[test]
fn unique_class_name_shape() {
    let name = generate_unique_class_name("Base", "Delegate");
    assert!(name.starts_with("Base_Delegate_"));
    assert_eq!(name.len(), 4 + 8 + 38);
}

#[test]
fn uniqueness_of_generated_names() {
    let mut seen: HashSet<String> = HashSet::new();
    for _ in 0..10_000 {
        seen.insert(generate_class_name("Delegate"));
    }
    assert_eq!(seen.len(), 10_000, "every generated name must be distinct");
}

#[test]
fn unique_class_names_do_not_collide() {
    let a = generate_unique_class_name("Base", "Delegate");
    let b = generate_unique_class_name("Base", "Delegate");
    assert_ne!(a, b, "two declarations for one logical pair get distinct runtime names");
}
