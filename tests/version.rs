use vk_bootstrap::{vk_make_api_version, vk_make_version, API_VERSION, APPLICATION_VERSION};

#[test]
fn make_version_packs_fields() {
    assert_eq!(vk_make_version(1, 0, 0), 0x40_0000);
    assert_eq!(vk_make_version(1, 2, 3), (1 << 22) + (2 << 12) + 3);
    assert_eq!(vk_make_version(0, 0, 0), 0);
    assert_eq!(vk_make_version(1023, 1023, 4095), u32::MAX);
}

#[test]
fn make_api_version_packs_fields() {
    assert_eq!(vk_make_api_version(0, 1, 0, 0), 0x40_0000);
    assert_eq!(vk_make_api_version(0, 1, 3, 0), 0x40_3000);
    assert_eq!(vk_make_api_version(1, 0, 0, 0), 0x2000_0000);
    assert_eq!(vk_make_api_version(7, 127, 1023, 4095), u32::MAX);
}

#[test]
fn announced_versions_are_one_zero() {
    assert_eq!(APPLICATION_VERSION, vk_make_version(1, 0, 0));
    assert_eq!(API_VERSION, vk_make_api_version(0, 1, 0, 0));
}
