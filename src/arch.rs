//! Mapping of host CPU identifiers to registry architecture tokens.
use vstd::prelude::*;
use crate::text::str_eq;

verus! {

/// The registry token for a host CPU identifier; `"unknown"` when the
/// identifier has no registry counterpart.
pub open spec fn arch_token(arch: Seq<char>) -> Seq<char> {
    if arch == "x86_64"@ {
        "amd64"@
    } else if arch == "aarch64"@ {
        "arm64v8"@
    } else if arch == "armv7l"@ {
        "arm32v7"@
    } else if arch == "armv6l"@ {
        "arm32v6"@
    } else if arch == "armv5l"@ {
        "arm32v5"@
    } else if arch == "ppc64le"@ {
        "ppc64le"@
    } else if arch == "s390x"@ {
        "s390x"@
    } else if arch == "mips64"@ {
        "mips64le"@
    } else if arch == "riscv64"@ {
        "riscv64"@
    } else if arch == "i686"@ {
        "i386"@
    } else {
        "unknown"@
    }
}

/// Maps a host CPU identifier (as `std::env::consts::ARCH` names it) to the
/// architecture token used by the registry's manifest lists.
pub fn map_architecture(arch: &str) -> (r: &'static str)
    ensures
        r@ == arch_token(arch@),
{
    if str_eq(arch, "x86_64") {
        "amd64"
    } else if str_eq(arch, "aarch64") {
        "arm64v8"
    } else if str_eq(arch, "armv7l") {
        "arm32v7"
    } else if str_eq(arch, "armv6l") {
        "arm32v6"
    } else if str_eq(arch, "armv5l") {
        "arm32v5"
    } else if str_eq(arch, "ppc64le") {
        "ppc64le"
    } else if str_eq(arch, "s390x") {
        "s390x"
    } else if str_eq(arch, "mips64") {
        "mips64le"
    } else if str_eq(arch, "riscv64") {
        "riscv64"
    } else if str_eq(arch, "i686") {
        "i386"
    } else {
        "unknown"
    }
}

} // verus!
