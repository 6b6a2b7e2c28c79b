use vstd::prelude::*;

use crate::strutil::str_eq;

verus! {

/// The binary name the locator expects for an operating-system/architecture
/// pair. The fixed table maps the published builds; any other pair falls back
/// to the generic name. Arm builds for "windows" are not published, so that
/// pair maps to the x86_64 binary.
pub open spec fn spec_binary_name(os: Seq<char>, arch: Seq<char>) -> Seq<char> {
    if os == "macos"@ && arch == "aarch64"@ {
        "rustfs-macos-aarch64"@
    } else if os == "macos"@ && arch == "x86_64"@ {
        "rustfs-macos-x86_64"@
    } else if os == "windows"@ && (arch == "x86_64"@ || arch == "aarch64"@) {
        "rustfs-windows-x86_64.exe"@
    } else {
        "rustfs"@
    }
}

/// Derives the expected binary file name from the running platform's
/// operating-system/architecture pair: exactly the table in
/// [`spec_binary_name`], with the generic fallback for unmapped pairs.
pub fn inferred_binary_name(os: &str, arch: &str) -> (r: String)
    ensures
        r@ == spec_binary_name(os@, arch@),
{
    if str_eq(os, "macos") {
        if str_eq(arch, "aarch64") {
            return "rustfs-macos-aarch64".to_owned();
        }
        if str_eq(arch, "x86_64") {
            return "rustfs-macos-x86_64".to_owned();
        }
    }
    if str_eq(os, "windows") {
        if str_eq(arch, "x86_64") || str_eq(arch, "aarch64") {
            return "rustfs-windows-x86_64.exe".to_owned();
        }
    }
    "rustfs".to_owned()
}

} // verus!
