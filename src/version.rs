use vstd::prelude::*;

verus! {

/// Packs a version number the way the platform's `VK_MAKE_VERSION` does:
/// major in bits 22 and up, minor in bits 12..22, patch in bits 0..12.
pub fn vk_make_version(major: u32, minor: u32, patch: u32) -> (r: u32)
    ensures
        r == (major << 22u32) | (minor << 12u32) | patch,
        major < 1024 && minor < 1024 && patch < 4096 ==> {
            &&& r == major * 0x40_0000 + minor * 0x1000 + patch
            &&& r >> 22u32 == major
            &&& (r >> 12u32) & 0x3ff == minor
            &&& r & 0xfff == patch
        },
{
    let r = (major << 22u32) | (minor << 12u32) | patch;
    assert(major < 1024 && minor < 1024 && patch < 4096 ==> {
        &&& r == major * 0x40_0000 + minor * 0x1000 + patch
        &&& r >> 22u32 == major
        &&& (r >> 12u32) & 0x3ff == minor
        &&& r & 0xfff == patch
    }) by (bit_vector)
        requires
            r == (major << 22u32) | (minor << 12u32) | patch,
    ;
    r
}

/// Packs a version number the way the platform's `VK_MAKE_API_VERSION` does:
/// variant in bits 29..32, major in bits 22..29, minor in bits 12..22, patch
/// in bits 0..12.
pub fn vk_make_api_version(variant: u32, major: u32, minor: u32, patch: u32) -> (r: u32)
    ensures
        r == (variant << 29u32) | (major << 22u32) | (minor << 12u32) | patch,
        variant < 8 && major < 128 && minor < 1024 && patch < 4096 ==> {
            &&& r == variant * 0x2000_0000 + major * 0x40_0000 + minor * 0x1000 + patch
            &&& r >> 29u32 == variant
            &&& (r >> 22u32) & 0x7f == major
            &&& (r >> 12u32) & 0x3ff == minor
            &&& r & 0xfff == patch
        },
{
    let r = (variant << 29u32) | (major << 22u32) | (minor << 12u32) | patch;
    assert(variant < 8 && major < 128 && minor < 1024 && patch < 4096 ==> {
        &&& r == variant * 0x2000_0000 + major * 0x40_0000 + minor * 0x1000 + patch
        &&& r >> 29u32 == variant
        &&& (r >> 22u32) & 0x7f == major
        &&& (r >> 12u32) & 0x3ff == minor
        &&& r & 0xfff == patch
    }) by (bit_vector)
        requires
            r == (variant << 29u32) | (major << 22u32) | (minor << 12u32) | patch,
    ;
    r
}

} // verus!
