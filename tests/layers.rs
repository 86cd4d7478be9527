use vk_bootstrap::{
    layer_name_bytes, vk_check_validation_layer_support, LayerProperties, VulkanError,
    LAYER_NAME_SIZE,
};

fn layer(name: &str) -> LayerProperties {
    let mut layer_name = [0u8; LAYER_NAME_SIZE];
    layer_name[..name.len()].copy_from_slice(name.as_bytes());
    LayerProperties { layer_name }
}

fn names(list: &[&str]) -> Vec<String> {
    list.iter().map(|s| s.to_string()).collect()
}

#[test]
fn missing_layer_is_unavailable() {
    let available = vec![layer("LAYER_Y")];
    assert_eq!(
        vk_check_validation_layer_support(&names(&["LAYER_X"]), &available),
        Err(VulkanError::ValidationLayersUnavailable)
    );
}

#[test]
fn installed_layers_are_accepted() {
    let available = vec![layer("VK_LAYER_KHRONOS_validation"), layer("LAYER_Y")];
    assert_eq!(
        vk_check_validation_layer_support(
            &names(&["LAYER_Y", "VK_LAYER_KHRONOS_validation"]),
            &available
        ),
        Ok(())
    );
}

#[test]
fn one_missing_layer_among_several_fails() {
    let available = vec![layer("LAYER_A"), layer("LAYER_B")];
    assert_eq!(
        vk_check_validation_layer_support(&names(&["LAYER_A", "LAYER_C", "LAYER_B"]), &available),
        Err(VulkanError::ValidationLayersUnavailable)
    );
}

#[test]
fn empty_request_needs_no_layer() {
    assert_eq!(vk_check_validation_layer_support(&Vec::new(), &Vec::new()), Ok(()));
}

#[test]
fn request_with_no_layer_installed_fails() {
    assert_eq!(
        vk_check_validation_layer_support(&names(&["LAYER_X"]), &Vec::new()),
        Err(VulkanError::ValidationLayersUnavailable)
    );
}

#[test]
fn prefix_of_installed_name_does_not_match() {
    let available = vec![layer("LAYER_XY")];
    assert_eq!(
        vk_check_validation_layer_support(&names(&["LAYER_X"]), &available),
        Err(VulkanError::ValidationLayersUnavailable)
    );
    let available = vec![layer("LAYER_X")];
    assert_eq!(
        vk_check_validation_layer_support(&names(&["LAYER_XY"]), &available),
        Err(VulkanError::ValidationLayersUnavailable)
    );
}

#[test]
fn name_is_read_up_to_first_zero() {
    let mut buf = [0u8; LAYER_NAME_SIZE];
    buf[..5].copy_from_slice(b"ABCDE");
    buf[6] = b'Z';
    assert_eq!(layer_name_bytes(&buf), Some(b"ABCDE".to_vec()));
    assert_eq!(layer_name_bytes(&[0u8; LAYER_NAME_SIZE]), Some(Vec::new()));
}

#[test]
fn buffer_without_terminator_holds_no_name() {
    assert_eq!(layer_name_bytes(&[b'A'; LAYER_NAME_SIZE]), None);
}

#[test]
fn longest_name_that_fits_matches() {
    let long = "L".repeat(LAYER_NAME_SIZE - 1);
    let available = vec![layer(&long)];
    assert_eq!(vk_check_validation_layer_support(&vec![long], &available), Ok(()));
}

#[test]
fn truncated_name_is_not_found() {
    let full = "L".repeat(LAYER_NAME_SIZE);
    let available = vec![LayerProperties { layer_name: [b'L'; LAYER_NAME_SIZE] }];
    assert_eq!(
        vk_check_validation_layer_support(&vec![full], &available),
        Err(VulkanError::ValidationLayersUnavailable)
    );
}
