use crate::gestalt::GestaltConfig;
use vstd::prelude::*;
use vstd::string::*;

verus! {

/// The name the application and its engine report to the native API.
pub const APPLICATION_NAME: &'static str = "Mandala";

/// The validation layer enabled when validation is asked for.
pub const VALIDATION_LAYER: &'static str = "VK_LAYER_KHRONOS_validation";

/// The instance extensions that the context adds to those the platform needs.
#[derive(Debug, Clone, Copy, PartialEq, Eq, Structural)]
pub enum Extension {
    DebugUtils,
    PortabilityEnumeration,
    GetPhysicalDeviceProperties2,
}

/// Everything the native instance is created from.
#[derive(Debug, Clone)]
pub struct InstancePlan {
    pub application_name: String,
    pub application_version: u32,
    pub engine_name: String,
    pub engine_version: u32,
    pub api_version: u32,
    pub extensions: Vec<String>,
    pub layers: Vec<String>,
}

/// The name of an extension, as the native API knows it.
pub open spec fn extension_text(e: Extension) -> Seq<char> {
    match e {
        Extension::DebugUtils => "VK_EXT_debug_utils"@,
        Extension::PortabilityEnumeration => "VK_KHR_portability_enumeration"@,
        Extension::GetPhysicalDeviceProperties2 => "VK_KHR_get_physical_device_properties2"@,
    }
}

/// The texts of a sequence of strings.
pub open spec fn texts(v: Seq<String>) -> Seq<Seq<char>> {
    v.map_values(|s: String| s@)
}

/// The extensions added to the platform's: the diagnostics extension, then
/// the portability extensions where they are asked for.
pub open spec fn added_extensions(portability: bool) -> Seq<Seq<char>> {
    if portability {
        seq![
            extension_text(Extension::DebugUtils),
            extension_text(Extension::PortabilityEnumeration),
            extension_text(Extension::GetPhysicalDeviceProperties2),
        ]
    } else {
        seq![extension_text(Extension::DebugUtils)]
    }
}

/// The layers enabled: the validation layer alone, or none.
pub open spec fn enabled_layers(enable_validation: bool) -> Seq<Seq<char>> {
    if enable_validation {
        seq!["VK_LAYER_KHRONOS_validation"@]
    } else {
        Seq::empty()
    }
}

/// The packed form of an API version.
pub open spec fn packed_version(variant: u32, major: u32, minor: u32, patch: u32) -> u32 {
    (variant << 29u32) | (major << 22u32) | (minor << 12u32) | patch
}

/// Relies on the `NAME` constants of ash's `ext::debug_utils`,
/// `khr::portability_enumeration` and `khr::get_physical_device_properties2`.
#[verifier::external_body]
fn extension_name(e: Extension) -> (r: String)
    ensures
        r@ == extension_text(e),
{
    match e {
        Extension::DebugUtils => ash::ext::debug_utils::NAME,
        Extension::PortabilityEnumeration => ash::khr::portability_enumeration::NAME,
        Extension::GetPhysicalDeviceProperties2 => ash::khr::get_physical_device_properties2::NAME,
    }.to_string_lossy().into_owned()
}

/// Relies on ash's `vk::make_api_version`: the fields packed into one word.
#[verifier::external_body]
fn make_api_version(variant: u32, major: u32, minor: u32, patch: u32) -> (r: u32)
    ensures
        r == packed_version(variant, major, minor, patch),
{
    ash::vk::make_api_version(variant, major, minor, patch)
}

/// The lowest API version the context asks for: 1.3.0.
pub fn api_version() -> (r: u32)
    ensures
        r == packed_version(0, 1, 3, 0),
        r == 0x403000,
{
    let v = make_api_version(0, 1, 3, 0);
    assert(packed_version(0, 1, 3, 0) == 0x403000u32) by (bit_vector);
    v
}

proof fn lemma_texts_push(v: Seq<String>, s: String)
    ensures
        texts(v.push(s)) == texts(v).push(s@),
{
    assert(texts(v.push(s)) =~= texts(v).push(s@));
}

/// What the instance is created from: the platform's required extensions
/// followed by those the context adds, the validation layer where it is
/// asked for, and the application's identity.
pub fn instance_plan(config: &GestaltConfig, required: Vec<String>) -> (r: InstancePlan)
    ensures
        texts(r.extensions@) == texts(required@) + added_extensions(config.portability),
        texts(r.layers@) == enabled_layers(config.enable_validation),
        r.application_name@ == "Mandala"@,
        r.engine_name@ == "Mandala"@,
        r.application_version == 0,
        r.engine_version == 0,
        r.api_version == packed_version(0, 1, 3, 0),
{
    let mut extensions = required;
    let debug = extension_name(Extension::DebugUtils);
    proof {
        lemma_texts_push(extensions@, debug);
    }
    extensions.push(debug);
    if config.portability {
        let p = extension_name(Extension::PortabilityEnumeration);
        proof {
            lemma_texts_push(extensions@, p);
        }
        extensions.push(p);
        let q = extension_name(Extension::GetPhysicalDeviceProperties2);
        proof {
            lemma_texts_push(extensions@, q);
        }
        extensions.push(q);
    }
    let mut layers: Vec<String> = Vec::new();
    if config.enable_validation {
        let l = String::from_str(VALIDATION_LAYER);
        proof {
            lemma_texts_push(layers@, l);
        }
        layers.push(l);
    }
    assert(texts(extensions@) =~= texts(required@) + added_extensions(config.portability));
    assert(texts(layers@) =~= enabled_layers(config.enable_validation));
    InstancePlan {
        application_name: String::from_str(APPLICATION_NAME),
        application_version: 0,
        engine_name: String::from_str(APPLICATION_NAME),
        engine_version: 0,
        api_version: api_version(),
        extensions,
        layers,
    }
}

} // verus!
