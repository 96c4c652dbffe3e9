//! The descriptors that instance creation and messenger attachment consume.

use crate::negotiation::{extensions_for, flags_for, layers_for, texts, ExtensionPlan};
use crate::version::ApiVersion;
use crate::vk::{all_message_types, all_severities, every_message_type, every_severity};
use vstd::prelude::*;

verus! {

/// Who asks for the instance, and for which version of the API.
#[derive(Debug, PartialEq, Eq)]
pub struct ApplicationDescriptor {
    pub application_name: String,
    pub application_version: ApiVersion,
    pub engine_name: String,
    pub engine_version: ApiVersion,
    pub api_version: ApiVersion,
}

/// An application descriptor as a mathematical value.
pub struct ApplicationDescriptorView {
    pub application_name: Seq<char>,
    pub application_version: ApiVersion,
    pub engine_name: Seq<char>,
    pub engine_version: ApiVersion,
    pub api_version: ApiVersion,
}

/// All that one instance creation call is given.
#[derive(Debug, PartialEq, Eq)]
pub struct InstanceCreateInfo {
    pub application: ApplicationDescriptor,
    pub extensions: Vec<String>,
    pub layers: Vec<String>,
    pub flags: u32,
}

/// An instance creation descriptor as a mathematical value.
pub struct InstanceCreateInfoView {
    pub application: ApplicationDescriptorView,
    pub extensions: Seq<Seq<char>>,
    pub layers: Seq<Seq<char>>,
    pub flags: u32,
}

/// Which messages the diagnostics messenger is to receive. The callback that
/// receives them is the caller's to register.
#[derive(Clone, Copy, Debug, PartialEq, Eq, Structural)]
pub struct MessengerCreateInfo {
    pub severities: u32,
    pub message_types: u32,
}

impl View for ApplicationDescriptor {
    type V = ApplicationDescriptorView;

    open spec fn view(&self) -> ApplicationDescriptorView {
        ApplicationDescriptorView {
            application_name: self.application_name@,
            application_version: self.application_version,
            engine_name: self.engine_name@,
            engine_version: self.engine_version,
            api_version: self.api_version,
        }
    }
}

impl View for InstanceCreateInfo {
    type V = InstanceCreateInfoView;

    open spec fn view(&self) -> InstanceCreateInfoView {
        InstanceCreateInfoView {
            application: self.application@,
            extensions: texts(self.extensions@),
            layers: texts(self.layers@),
            flags: self.flags,
        }
    }
}

/// The identity under which every instance is created.
pub open spec fn fixed_application() -> ApplicationDescriptorView {
    ApplicationDescriptorView {
        application_name: "Vulkan Tutorial"@,
        application_version: ApiVersion { major: 1, minor: 0, patch: 0 },
        engine_name: "No Engine"@,
        engine_version: ApiVersion { major: 1, minor: 0, patch: 0 },
        api_version: ApiVersion { major: 1, minor: 0, patch: 0 },
    }
}

/// The creation descriptor for a window that needs the extensions `window`.
pub open spec fn instance_info_for(window: Seq<Seq<char>>, diagnostics: bool, portability: bool) -> InstanceCreateInfoView {
    InstanceCreateInfoView {
        application: fixed_application(),
        extensions: extensions_for(window, diagnostics, portability),
        layers: layers_for(diagnostics),
        flags: flags_for(portability),
    }
}

/// A messenger that receives messages of every severity and every type.
pub open spec fn every_message() -> MessengerCreateInfo {
    MessengerCreateInfo { severities: every_severity(), message_types: every_message_type() }
}

/// The identity under which every instance is created.
pub fn application_descriptor() -> (descriptor: ApplicationDescriptor)
    ensures
        descriptor@ == fixed_application(),
{
    ApplicationDescriptor {
        application_name: "Vulkan Tutorial".to_owned(),
        application_version: ApiVersion::new(1, 0, 0),
        engine_name: "No Engine".to_owned(),
        engine_version: ApiVersion::new(1, 0, 0),
        api_version: ApiVersion::new(1, 0, 0),
    }
}

/// Puts the fixed application descriptor together with what was negotiated.
pub fn instance_create_info(layers: Vec<String>, plan: ExtensionPlan) -> (info: InstanceCreateInfo)
    ensures
        info@ == (InstanceCreateInfoView {
            application: fixed_application(),
            extensions: texts(plan.extensions@),
            layers: texts(layers@),
            flags: plan.flags,
        }),
{
    InstanceCreateInfo {
        application: application_descriptor(),
        extensions: plan.extensions,
        layers,
        flags: plan.flags,
    }
}

/// The descriptor of a messenger that receives messages of every severity
/// and every type.
pub fn messenger_create_info() -> (info: MessengerCreateInfo)
    ensures
        info == every_message(),
{
    MessengerCreateInfo { severities: all_severities(), message_types: all_message_types() }
}

} // verus!
