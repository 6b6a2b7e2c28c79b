use rustfs_launcher::platform::inferred_binary_name;

#[test]
fn mapped_pairs_use_table_names() {
    assert_eq!(inferred_binary_name("macos", "aarch64"), "rustfs-macos-aarch64");
    assert_eq!(inferred_binary_name("macos", "x86_64"), "rustfs-macos-x86_64");
    assert_eq!(inferred_binary_name("windows", "x86_64"), "rustfs-windows-x86_64.exe");
}

#[test]
fn windows_arm_falls_back_to_x86_64_binary() {
    assert_eq!(inferred_binary_name("windows", "aarch64"), "rustfs-windows-x86_64.exe");
}

#[test]
fn unmapped_pairs_use_generic_name() {
    assert_eq!(inferred_binary_name("linux", "x86_64"), "rustfs");
    assert_eq!(inferred_binary_name("linux", "aarch64"), "rustfs");
    assert_eq!(inferred_binary_name("freebsd", "riscv64"), "rustfs");
    assert_eq!(inferred_binary_name("macos", "riscv64"), "rustfs");
    assert_eq!(inferred_binary_name("", ""), "rustfs");
}
