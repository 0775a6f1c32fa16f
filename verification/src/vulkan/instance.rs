//! What a Vulkan instance is created with: layers, extensions and versions.

use crate::vk_engine::VkEngineError;
use crate::vulkan::ash_bindings::{
    api_version_1_3, c_string_bytes, debug_utils_extension_name,
    debug_utils_extension_name_chars, layer_name_bytes, make_api_version, spec_make_api_version,
};
use vstd::prelude::*;

verus! {

/// The bytes of `VK_LAYER_KHRONOS_validation`, the Khronos validation layer.
pub open spec fn validation_layer_name_spec() -> Seq<u8> {
    seq![
        86u8, 75, 95, 76, 65, 89, 69, 82, 95, 75, 72, 82, 79, 78, 79, 83, 95, 118, 97, 108, 105,
        100, 97, 116, 105, 111, 110,
    ]
}

/// The name of the Khronos validation layer, without its terminating nul.
pub fn validation_layer_name() -> (r: Vec<u8>)
    ensures
        r@ == validation_layer_name_spec(),
{
    let r: Vec<u8> = vec![
        86u8, 75, 95, 76, 65, 89, 69, 82, 95, 75, 72, 82, 79, 78, 79, 83, 95, 118, 97, 108, 105,
        100, 97, 116, 105, 111, 110,
    ];
    assert(r@ =~= validation_layer_name_spec());
    r
}

/// One of the reported layers is the validation layer.
pub open spec fn layers_have_validation(layers: Seq<[i8; 256]>) -> bool {
    exists|i: int|
        0 <= i < layers.len() && c_string_bytes(#[trigger] layers[i]@) == Some(
            validation_layer_name_spec(),
        )
}

fn bytes_equal(a: &Vec<u8>, b: &Vec<u8>) -> (r: bool)
    ensures
        r == (a@ == b@),
{
    if a.len() != b.len() {
        return false;
    }
    let n = a.len();
    let mut i: usize = 0;
    while i < n
        invariant
            n == a.len(),
            n == b.len(),
            i <= n,
            forall|j: int| 0 <= j < i ==> a@[j] == b@[j],
        decreases n - i,
    {
        if a[i] != b[i] {
            return false;
        }
        i = i + 1;
    }
    assert(a@ =~= b@);
    true
}

/// Whether the instance layers that the driver reports include the validation
/// layer. A layer whose name buffer holds no nul matches nothing. A failed query is
/// reported with its code.
pub fn check_validation_layer_support(available_layers: Result<Vec<[i8; 256]>, i32>) -> (r: Result<
    bool,
    VkEngineError,
>)
    ensures
        match available_layers {
            Err(code) => r == Err::<bool, VkEngineError>(VkEngineError::VulkanInstance(code)),
            Ok(layers) => r == Ok::<bool, VkEngineError>(layers_have_validation(layers@)),
        },
{
    let layers = match available_layers {
        Err(code) => {
            return Err(VkEngineError::VulkanInstance(code));
        },
        Ok(layers) => layers,
    };
    let wanted = validation_layer_name();
    let n = layers.len();
    let mut i: usize = 0;
    while i < n
        invariant
            n == layers.len(),
            available_layers == Ok::<Vec<[i8; 256]>, i32>(layers),
            wanted@ == validation_layer_name_spec(),
            i <= n,
            forall|j: int|
                0 <= j < i ==> c_string_bytes(#[trigger] layers@[j]@) != Some(
                    validation_layer_name_spec(),
                ),
        decreases n - i,
    {
        let found = match layer_name_bytes(&layers[i]) {
            Some(name) => bytes_equal(&name, &wanted),
            None => false,
        };
        if found {
            assert(c_string_bytes(layers@[i as int]@) == Some(validation_layer_name_spec()));
            return Ok(true);
        }
        i = i + 1;
    }
    Ok(false)
}

/// The instance extensions that the window system needs, followed by the debug-utils
/// extension when validation is on. A failed query of the window system is reported
/// with its message.
pub fn get_required_extensions(
    window_extensions: Result<Vec<String>, String>,
    enable_validation: bool,
) -> (r: Result<Vec<String>, VkEngineError>)
    ensures
        match window_extensions {
            Err(message) => r == Err::<Vec<String>, VkEngineError>(
                VkEngineError::VulkanExtension(message),
            ),
            Ok(names) => r matches Ok(required) && extensions_for(required@, names@, enable_validation),
        },
{
    let mut extension_names = match window_extensions {
        Err(message) => {
            return Err(VkEngineError::VulkanExtension(message));
        },
        Ok(names) => names,
    };
    let ghost names = extension_names@;
    if enable_validation {
        let debug_utils = match debug_utils_extension_name() {
            Ok(name) => name,
            Err(message) => {
                return Err(VkEngineError::VulkanExtension(message));
            },
        };
        extension_names.push(debug_utils);
        assert(extension_names@.take(names.len() as int) =~= names);
    }
    Ok(extension_names)
}

/// `required` is `names`, with the debug-utils extension appended when validation is on.
pub open spec fn extensions_for(required: Seq<String>, names: Seq<String>, enable_validation: bool) -> bool {
    if enable_validation {
        &&& required.len() == names.len() + 1
        &&& required.take(names.len() as int) == names
        &&& required.last()@ == debug_utils_extension_name_chars()
    } else {
        required == names
    }
}

/// Everything an instance is created with that is decided here.
pub struct InstancePlan {
    /// The layers to enable, by name.
    pub layer_names: Vec<Vec<u8>>,
    /// The instance extensions to enable.
    pub extension_names: Vec<String>,
    /// Whether a debug-messenger create info is chained to the instance create info,
    /// so that instance creation itself is reported.
    pub chain_debug_messenger: bool,
    pub application_version: u32,
    pub engine_version: u32,
    pub api_version: u32,
}

impl InstancePlan {
    /// The plan is laid out as the instance asks: the validation layer when, and only
    /// when, validation is on, the required extensions, and the versions.
    pub open spec fn is_plan_for(
        self,
        enable_validation: bool,
        window_extension_names: Seq<String>,
    ) -> bool {
        &&& self.layer_names@.len() == if enable_validation {
            1int
        } else {
            0int
        }
        &&& enable_validation ==> self.layer_names@[0]@ == validation_layer_name_spec()
        &&& extensions_for(self.extension_names@, window_extension_names, enable_validation)
        &&& self.chain_debug_messenger == enable_validation
        &&& self.application_version == spec_make_api_version(0, 1, 0, 0)
        &&& self.engine_version == spec_make_api_version(0, 1, 0, 0)
        &&& self.api_version == spec_make_api_version(0, 1, 3, 0)
    }

    /// Decides what the instance is created with. With validation on, the validation
    /// layer must be among the reported layers: a failed layer query is reported with
    /// its code, and a missing layer with `ValidationLayerNotFound`. Then the window
    /// system's extensions are needed; a failed query is reported with its message.
    /// With validation off, the layer report is not consulted.
    pub fn new(
        enable_validation: bool,
        available_layers: Result<Vec<[i8; 256]>, i32>,
        window_extensions: Result<Vec<String>, String>,
    ) -> (r: Result<InstancePlan, VkEngineError>)
        ensures
            if enable_validation && available_layers is Err {
                r == Err::<InstancePlan, VkEngineError>(
                    VkEngineError::VulkanInstance(available_layers->Err_0),
                )
            } else if enable_validation && !layers_have_validation(available_layers->Ok_0@) {
                r == Err::<InstancePlan, VkEngineError>(VkEngineError::ValidationLayerNotFound())
            } else if window_extensions is Err {
                r == Err::<InstancePlan, VkEngineError>(
                    VkEngineError::VulkanExtension(window_extensions->Err_0),
                )
            } else {
                r matches Ok(plan) && plan.is_plan_for(
                    enable_validation,
                    window_extensions->Ok_0@,
                )
            },
    {
        let application_version = make_api_version(0, 1, 0, 0);
        let engine_version = make_api_version(0, 1, 0, 0);
        let api_version = api_version_1_3();

        let mut layer_names: Vec<Vec<u8>> = Vec::new();
        if enable_validation {
            let supported = check_validation_layer_support(available_layers)?;
            if !supported {
                return Err(VkEngineError::ValidationLayerNotFound());
            }
            layer_names.push(validation_layer_name());
        }
        let extension_names = get_required_extensions(window_extensions, enable_validation)?;
        Ok(InstancePlan {
            layer_names,
            extension_names,
            chain_debug_messenger: enable_validation,
            application_version,
            engine_version,
            api_version,
        })
    }
}

} // verus!
