use vstd::prelude::*;

use crate::error::VulkanError;
use crate::layers::{
    available_layer_set, requested_layer_set, vk_check_validation_layer_support,
    LayerProperties,
};
use crate::version::{vk_make_api_version, vk_make_version};

verus! {

/// The engine name announced to the platform.
pub const ENGINE_NAME: &'static str = "No Engine";

/// Version 1.0.0 of the application and of the engine.
pub const APPLICATION_VERSION: u32 = 0x40_0000;

/// The platform API version requested: variant 0, version 1.0.0.
pub const API_VERSION: u32 = 0x40_0000;

/// What the application announces of itself when creating an instance.
#[derive(Debug)]
pub struct ApplicationInfo {
    pub application_name: String,
    pub application_version: u32,
    pub engine_name: String,
    pub engine_version: u32,
    pub api_version: u32,
}

/// Everything the platform's instance creation call is handed.
#[derive(Debug)]
pub struct InstanceCreateInfo {
    pub application_info: ApplicationInfo,
    pub enabled_layer_names: Vec<String>,
    pub enabled_extension_names: Vec<String>,
}

/// `info` asks for an instance for `app_name` with exactly these layers and
/// extensions, announcing version 1.0.0 and API version 1.0.
pub open spec fn is_instance_request(
    info: InstanceCreateInfo,
    app_name: Seq<char>,
    extensions: Seq<String>,
    layers: Seq<String>,
) -> bool {
    &&& info.application_info.application_name@ == app_name
    &&& info.application_info.application_version == APPLICATION_VERSION
    &&& info.application_info.engine_name@ == ENGINE_NAME@
    &&& info.application_info.engine_version == APPLICATION_VERSION
    &&& info.application_info.api_version == API_VERSION
    &&& info.enabled_layer_names@ == layers
    &&& info.enabled_extension_names@ == extensions
}

/// A copy of a list of names.
pub(crate) fn copy_names(names: &Vec<String>) -> (r: Vec<String>)
    ensures
        r@ == names@,
{
    let mut r: Vec<String> = Vec::new();
    let mut i: usize = 0;
    while i < names.len()
        invariant
            i <= names@.len(),
            r@ == names@.take(i as int),
        decreases names@.len() - i,
    {
        r.push(names[i].clone());
        proof {
            assert(names@.take(i + 1) =~= names@.take(i as int).push(names@[i as int]));
        }
        i += 1;
    }
    proof {
        assert(names@.take(i as int) =~= names@);
    }
    r
}

/// Builds the instance request for already validated layers.
pub fn instance_create_info(
    app_name: &str,
    extensions: Vec<String>,
    validation_layers: &Vec<String>,
) -> (r: InstanceCreateInfo)
    ensures
        is_instance_request(r, app_name@, extensions@, validation_layers@),
{
    let application_version = vk_make_version(1, 0, 0);
    let api_version = vk_make_api_version(0, 1, 0, 0);
    assert(application_version == APPLICATION_VERSION && api_version == API_VERSION) by (
    bit_vector)
        requires
            application_version == (1u32 << 22u32) | (0u32 << 12u32) | 0u32,
            api_version == (0u32 << 29u32) | (1u32 << 22u32) | (0u32 << 12u32) | 0u32,
    ;
    InstanceCreateInfo {
        application_info: ApplicationInfo {
            application_name: String::from_str(app_name),
            application_version,
            engine_name: String::from_str(ENGINE_NAME),
            engine_version: application_version,
            api_version,
        },
        enabled_layer_names: copy_names(validation_layers),
        enabled_extension_names: extensions,
    }
}

/// Validates the requested layers against those installed, then builds the
/// instance request. Nothing is built when a layer is missing.
pub fn vk_create_instance(
    app_name: &str,
    extensions: Vec<String>,
    validation_layers: &Vec<String>,
    available: &Vec<LayerProperties>,
) -> (r: Result<InstanceCreateInfo, VulkanError>)
    ensures
        r is Ok <==> requested_layer_set(validation_layers@).subset_of(
            available_layer_set(available@),
        ),
        r is Err ==> r == Err::<InstanceCreateInfo, VulkanError>(
            VulkanError::ValidationLayersUnavailable,
        ),
        r matches Ok(info) ==> is_instance_request(
            info,
            app_name@,
            extensions@,
            validation_layers@,
        ),
{
    match vk_check_validation_layer_support(validation_layers, available) {
        Ok(()) => Ok(instance_create_info(app_name, extensions, validation_layers)),
        Err(e) => Err(e),
    }
}

} // verus!
