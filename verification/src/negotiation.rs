//! Negotiation of what the instance is created with: the validation layer,
//! the instance extensions, and the flags that a portability platform needs.

use crate::error::InitError;
use crate::version::ApiVersion;
use crate::vk::{
    debug_utils_extension, debug_utils_name, empty_instance_flags, enumerate_portability_flags,
    physical_device_properties_extension, physical_device_properties_name, portability_bit,
    portability_enumeration_extension, portability_enumeration_name,
};
use vstd::prelude::*;

verus! {

/// The texts of a list of names, in order.
pub open spec fn texts(names: Seq<String>) -> Seq<Seq<char>> {
    names.map_values(|name: String| name@)
}

/// The name of the validation layer.
pub open spec fn validation_layer_name() -> Seq<char> {
    "VK_LAYER_KHRONOS_validation"@
}

/// The first version of the loader that wants the portability extensions on
/// a portability platform.
pub open spec fn portability_threshold() -> ApiVersion {
    ApiVersion { major: 1, minor: 3, patch: 126 }
}

/// Whether the layers that diagnostics need are among the available ones.
pub open spec fn layers_supported(diagnostics: bool, available: Seq<Seq<char>>) -> bool {
    diagnostics ==> available.contains(validation_layer_name())
}

/// The layers to enable: the validation layer when diagnostics are on, none
/// otherwise.
pub open spec fn layers_for(diagnostics: bool) -> Seq<Seq<char>> {
    if diagnostics {
        seq![validation_layer_name()]
    } else {
        Seq::empty()
    }
}

/// The extensions to enable: those the window needs, then the debug-utils
/// extension when diagnostics are on, then the two portability extensions
/// where portability is required. Nothing is removed and nothing is merged.
pub open spec fn extensions_for(window: Seq<Seq<char>>, diagnostics: bool, portability: bool) -> Seq<
    Seq<char>,
> {
    let diagnostic = if diagnostics {
        seq![debug_utils_name()]
    } else {
        Seq::empty()
    };
    let portable = if portability {
        seq![physical_device_properties_name(), portability_enumeration_name()]
    } else {
        Seq::empty()
    };
    window + diagnostic + portable
}

/// The instance creation flags: the portability-enumeration bit where
/// portability is required, none otherwise.
pub open spec fn flags_for(portability: bool) -> u32 {
    if portability {
        portability_bit()
    } else {
        0
    }
}

/// The extensions and the creation flags that were settled on.
#[derive(Debug, PartialEq, Eq)]
pub struct ExtensionPlan {
    pub extensions: Vec<String>,
    pub flags: u32,
}

/// The name of the validation layer.
pub fn validation_layer() -> (name: String)
    ensures
        name@ == validation_layer_name(),
{
    "VK_LAYER_KHRONOS_validation".to_owned()
}

/// The first version of the loader that wants the portability extensions.
pub fn portability_version() -> (version: ApiVersion)
    ensures
        version == portability_threshold(),
{
    ApiVersion::new(1, 3, 126)
}

/// Whether a loader of the given version wants the portability extensions.
/// To be asked only on a platform where the rule applies.
pub fn portability_required(loaded: &ApiVersion) -> (required: bool)
    ensures
        required == loaded.at_least(portability_threshold()),
{
    let threshold = portability_version();
    loaded.is_at_least(&threshold)
}

/// Whether `name` is among `names`.
pub fn contains_name(names: &Vec<String>, name: &String) -> (found: bool)
    ensures
        found == texts(names@).contains(name@),
{
    let mut i: usize = 0;
    while i < names.len()
        invariant
            i <= names.len(),
            forall|j: int| 0 <= j < i ==> texts(names@)[j] != name@,
        decreases names.len() - i,
    {
        if names[i] == *name {
            assert(texts(names@)[i as int] == name@);
            return true;
        }
        i += 1;
    }
    false
}

/// Settles the layers. Without diagnostics there are none, whatever is
/// available. With diagnostics the validation layer must be available, and is
/// the one layer enabled; where it is missing, nothing may be created.
pub fn negotiate_layers(diagnostics: bool, available: &Vec<String>) -> (layers: Result<
    Vec<String>,
    InitError,
>)
    ensures
        layers is Ok <==> layers_supported(diagnostics, texts(available@)),
        layers matches Ok(enabled) ==> texts(enabled@) == layers_for(diagnostics),
        layers matches Err(error) ==> error == InitError::UnsupportedLayerError,
{
    let mut enabled: Vec<String> = Vec::new();
    if diagnostics {
        let wanted = validation_layer();
        if !contains_name(available, &wanted) {
            return Err(InitError::UnsupportedLayerError);
        }
        enabled.push(wanted);
    }
    assert(texts(enabled@) =~= layers_for(diagnostics));
    Ok(enabled)
}

/// Settles the extensions and the creation flags, starting from what the
/// window needs.
pub fn negotiate_extensions(window: Vec<String>, diagnostics: bool, portability: bool) -> (plan:
    ExtensionPlan)
    ensures
        texts(plan.extensions@) == extensions_for(texts(window@), diagnostics, portability),
        plan.flags == flags_for(portability),
{
    let ghost wanted = texts(window@);
    let mut extensions = window;
    if diagnostics {
        let name = debug_utils_extension();
        extensions.push(name);
    }
    assert(texts(extensions@) =~= extensions_for(wanted, diagnostics, false));
    let flags = if portability {
        let first = physical_device_properties_extension();
        let second = portability_enumeration_extension();
        extensions.push(first);
        extensions.push(second);
        enumerate_portability_flags()
    } else {
        empty_instance_flags()
    };
    assert(texts(extensions@) =~= extensions_for(wanted, diagnostics, portability));
    ExtensionPlan { extensions, flags }
}

} // verus!
