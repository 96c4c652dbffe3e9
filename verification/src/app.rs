//! The rendering context and the steps by which it comes to be.
//!
//! Loading the Vulkan library, asking the window and the loader, creating the
//! instance and attaching the messenger are the caller's to perform. Each
//! [`Stage`] names the one operation that is due; its result comes back as a
//! [`Reply`], and [`create_instance`] decides from both what is due next.

use crate::descriptor::{
    every_message, fixed_application, instance_create_info, instance_info_for,
    messenger_create_info, InstanceCreateInfo, InstanceCreateInfoView, MessengerCreateInfo,
};
use crate::error::InitError;
use crate::negotiation::{
    layers_for, layers_supported, negotiate_extensions, negotiate_layers, portability_required,
    portability_threshold, texts,
};
use crate::version::ApiVersion;
use crate::vk::portability_bit;
use vstd::prelude::*;

verus! {

/// What the caller settles before anything is created.
#[derive(Clone, Copy, Debug, PartialEq, Eq, Structural)]
pub struct Options {
    /// Whether the validation layer and the diagnostics messenger are wanted.
    pub diagnostics: bool,
    /// Whether this is a platform on which a recent loader needs the
    /// portability extensions.
    pub portability_platform: bool,
}

/// What a context holds besides its instance.
#[derive(Clone, Copy, Debug, PartialEq, Eq)]
pub struct AppData {
    /// The handle of the diagnostics messenger, where one is attached.
    pub messenger: Option<u64>,
}

/// A rendering context, from the moment the Vulkan library is loaded until
/// the context is torn down. It owns one instance and at most one messenger.
#[derive(Debug)]
pub struct App {
    options: Options,
    stage: Stage,
    data: AppData,
}

/// Where the making of a context stands: the operation that is due, or the
/// end it has come to.
#[derive(Debug, PartialEq, Eq)]
pub enum Stage {
    /// Due: ask the window which instance extensions it needs.
    RequiredExtensions,
    /// Due: enumerate the instance layers that are available.
    EnumerateLayers { window_extensions: Vec<String> },
    /// Due: query the version of the loaded API.
    QueryVersion { window_extensions: Vec<String>, layers: Vec<String> },
    /// Due: create the instance from `info`.
    CreateInstance { info: InstanceCreateInfo },
    /// Due: attach a diagnostics messenger to `instance`.
    AttachMessenger { instance: u64, descriptor: MessengerCreateInfo },
    /// The context is complete.
    Ready { instance: u64 },
    /// The context was torn down.
    Destroyed,
}

/// The result of the operation that was due.
#[derive(Debug, PartialEq, Eq)]
pub enum Reply {
    /// The instance extensions that the window needs.
    Extensions(Vec<String>),
    /// The available instance layers, or the result code of the failure.
    Layers(Result<Vec<String>, i32>),
    /// The version of the loaded API, or the result code of the failure.
    Version(Result<ApiVersion, i32>),
    /// The handle of the new instance, or the result code of the rejection.
    Instance(Result<u64, i32>),
    /// The handle of the new messenger, or the result code of the failure.
    Messenger(Result<u64, i32>),
}

/// One operation of a teardown.
#[derive(Clone, Copy, Debug, PartialEq, Eq, Structural)]
pub enum Teardown {
    DestroyMessenger(u64),
    DestroyInstance(u64),
}

/// A stage as a mathematical value.
pub enum StageView {
    RequiredExtensions,
    EnumerateLayers { window_extensions: Seq<Seq<char>> },
    QueryVersion { window_extensions: Seq<Seq<char>>, layers: Seq<Seq<char>> },
    CreateInstance { info: InstanceCreateInfoView },
    AttachMessenger { instance: u64, descriptor: MessengerCreateInfo },
    Ready { instance: u64 },
    Destroyed,
}

/// A reply as a mathematical value.
pub enum ReplyView {
    Extensions(Seq<Seq<char>>),
    Layers(Result<Seq<Seq<char>>, i32>),
    Version(Result<ApiVersion, i32>),
    Instance(Result<u64, i32>),
    Messenger(Result<u64, i32>),
}

/// A context in the making as a mathematical value.
pub struct AppView {
    pub options: Options,
    pub stage: StageView,
    pub messenger: Option<u64>,
}

impl View for Stage {
    type V = StageView;

    open spec fn view(&self) -> StageView {
        match *self {
            Stage::RequiredExtensions => StageView::RequiredExtensions,
            Stage::EnumerateLayers { window_extensions } => StageView::EnumerateLayers {
                window_extensions: texts(window_extensions@),
            },
            Stage::QueryVersion { window_extensions, layers } => StageView::QueryVersion {
                window_extensions: texts(window_extensions@),
                layers: texts(layers@),
            },
            Stage::CreateInstance { info } => StageView::CreateInstance { info: info@ },
            Stage::AttachMessenger { instance, descriptor } => StageView::AttachMessenger {
                instance,
                descriptor,
            },
            Stage::Ready { instance } => StageView::Ready { instance },
            Stage::Destroyed => StageView::Destroyed,
        }
    }
}

impl View for Reply {
    type V = ReplyView;

    open spec fn view(&self) -> ReplyView {
        match *self {
            Reply::Extensions(names) => ReplyView::Extensions(texts(names@)),
            Reply::Layers(Ok(names)) => ReplyView::Layers(Ok(texts(names@))),
            Reply::Layers(Err(code)) => ReplyView::Layers(Err(code)),
            Reply::Version(version) => ReplyView::Version(version),
            Reply::Instance(instance) => ReplyView::Instance(instance),
            Reply::Messenger(messenger) => ReplyView::Messenger(messenger),
        }
    }
}

/// What follows when `reply` arrives at `stage`: the next stage and the
/// messenger handle then held, or the failure that ends everything.
///
/// A reply that does not answer the operation that is due changes nothing.
pub open spec fn step(
    options: Options,
    stage: StageView,
    messenger: Option<u64>,
    reply: ReplyView,
) -> Result<(StageView, Option<u64>), InitError> {
    match (stage, reply) {
        (StageView::RequiredExtensions, ReplyView::Extensions(window_extensions)) => Ok(
            (StageView::EnumerateLayers { window_extensions }, messenger),
        ),
        (StageView::EnumerateLayers { window_extensions }, ReplyView::Layers(Err(code))) => Err(
            InitError::LayerQueryError(code),
        ),
        (StageView::EnumerateLayers { window_extensions }, ReplyView::Layers(Ok(available))) => {
            if !layers_supported(options.diagnostics, available) {
                Err(InitError::UnsupportedLayerError)
            } else if options.portability_platform {
                Ok(
                    (
                        StageView::QueryVersion {
                            window_extensions,
                            layers: layers_for(options.diagnostics),
                        },
                        messenger,
                    ),
                )
            } else {
                Ok(
                    (
                        StageView::CreateInstance {
                            info: instance_info_for(window_extensions, options.diagnostics, false),
                        },
                        messenger,
                    ),
                )
            }
        },
        (StageView::QueryVersion { window_extensions, layers }, ReplyView::Version(Err(code))) => Err(
            InitError::VersionQueryError(code),
        ),
        (
            StageView::QueryVersion { window_extensions, layers },
            ReplyView::Version(Ok(loaded)),
        ) => Ok(
            (
                StageView::CreateInstance {
                    info: InstanceCreateInfoView {
                        layers,
                        ..instance_info_for(
                            window_extensions,
                            options.diagnostics,
                            loaded.at_least(portability_threshold()),
                        )
                    },
                },
                messenger,
            ),
        ),
        (StageView::CreateInstance { info }, ReplyView::Instance(Err(code))) => Err(
            InitError::InstanceCreationError(code),
        ),
        (StageView::CreateInstance { info }, ReplyView::Instance(Ok(instance))) => {
            if options.diagnostics {
                Ok((StageView::AttachMessenger { instance, descriptor: every_message() }, messenger))
            } else {
                Ok((StageView::Ready { instance }, messenger))
            }
        },
        (StageView::AttachMessenger { instance, descriptor }, ReplyView::Messenger(Err(code))) => Err(
            InitError::DiagnosticsInstallError(code),
        ),
        (StageView::AttachMessenger { instance, descriptor }, ReplyView::Messenger(Ok(handle))) => Ok(
            (StageView::Ready { instance }, Some(handle)),
        ),
        _ => Ok((stage, messenger)),
    }
}

/// The operations that tear a complete context down, in the order in which
/// they must be performed: the messenger goes before the instance it is
/// attached to.
pub open spec fn teardown_order(instance: u64, messenger: Option<u64>) -> Seq<Teardown> {
    match messenger {
        Some(handle) => seq![Teardown::DestroyMessenger(handle), Teardown::DestroyInstance(instance)],
        None => seq![Teardown::DestroyInstance(instance)],
    }
}

impl Default for AppData {
    /// Data without a messenger.
    fn default() -> (data: AppData)
        ensures
            data.messenger is None,
    {
        AppData { messenger: None }
    }
}

/// Takes the making of an instance one step further: `reply` is the result of
/// the operation that was due at `stage`, and the stage returned names the
/// operation that is due next.
///
/// The layers are settled before anything else, so that a missing validation
/// layer fails before an instance is asked for. The version is asked for only
/// on a portability platform. The messenger is attached, and its handle kept
/// in `data`, only when diagnostics are on.
pub fn create_instance(options: &Options, stage: Stage, reply: Reply, data: &mut AppData) -> (next:
    Result<Stage, InitError>)
    ensures
        match step(*options, stage@, old(data).messenger, reply@) {
            Ok((expected, messenger)) => {
                &&& next matches Ok(reached)
                &&& reached@ == expected
                &&& final(data).messenger == messenger
            },
            Err(failure) => {
                &&& next matches Err(error)
                &&& error == failure
                &&& final(data).messenger == old(data).messenger
            },
        },
{
    match stage {
        Stage::RequiredExtensions => match reply {
            Reply::Extensions(window_extensions) => Ok(Stage::EnumerateLayers { window_extensions }),
            _ => Ok(Stage::RequiredExtensions),
        },
        Stage::EnumerateLayers { window_extensions } => match reply {
            Reply::Layers(Err(code)) => Err(InitError::LayerQueryError(code)),
            Reply::Layers(Ok(available)) => {
                match negotiate_layers(options.diagnostics, &available) {
                    Err(error) => Err(error),
                    Ok(layers) => {
                        if options.portability_platform {
                            Ok(Stage::QueryVersion { window_extensions, layers })
                        } else {
                            let plan = negotiate_extensions(
                                window_extensions,
                                options.diagnostics,
                                false,
                            );
                            Ok(Stage::CreateInstance { info: instance_create_info(layers, plan) })
                        }
                    },
                }
            },
            _ => Ok(Stage::EnumerateLayers { window_extensions }),
        },
        Stage::QueryVersion { window_extensions, layers } => match reply {
            Reply::Version(Err(code)) => Err(InitError::VersionQueryError(code)),
            Reply::Version(Ok(loaded)) => {
                let portability = portability_required(&loaded);
                let plan = negotiate_extensions(window_extensions, options.diagnostics, portability);
                Ok(Stage::CreateInstance { info: instance_create_info(layers, plan) })
            },
            _ => Ok(Stage::QueryVersion { window_extensions, layers }),
        },
        Stage::CreateInstance { info } => match reply {
            Reply::Instance(Err(code)) => Err(InitError::InstanceCreationError(code)),
            Reply::Instance(Ok(instance)) => {
                if options.diagnostics {
                    Ok(Stage::AttachMessenger { instance, descriptor: messenger_create_info() })
                } else {
                    Ok(Stage::Ready { instance })
                }
            },
            _ => Ok(Stage::CreateInstance { info }),
        },
        Stage::AttachMessenger { instance, descriptor } => match reply {
            Reply::Messenger(Err(code)) => Err(InitError::DiagnosticsInstallError(code)),
            Reply::Messenger(Ok(handle)) => {
                data.messenger = Some(handle);
                Ok(Stage::Ready { instance })
            },
            _ => Ok(Stage::AttachMessenger { instance, descriptor }),
        },
        Stage::Ready { instance } => Ok(Stage::Ready { instance }),
        Stage::Destroyed => Ok(Stage::Destroyed),
    }
}

/// What holds of every context, whatever replies it was given: a messenger is
/// asked for only with diagnostics on, none is held before the context is
/// complete, and a complete context holds one exactly when diagnostics are
/// on. The layers of a creation descriptor are those that the options call
/// for, and its flags are set only on a portability platform.
pub open spec fn coherent(app: AppView) -> bool {
    match app.stage {
        StageView::RequiredExtensions => app.messenger is None,
        StageView::EnumerateLayers { window_extensions } => app.messenger is None,
        StageView::QueryVersion { window_extensions, layers } => {
            &&& app.messenger is None
            &&& app.options.portability_platform
            &&& layers == layers_for(app.options.diagnostics)
        },
        StageView::CreateInstance { info } => {
            &&& app.messenger is None
            &&& info.application == fixed_application()
            &&& info.layers == layers_for(app.options.diagnostics)
            &&& info.flags == 0 || (app.options.portability_platform && info.flags
                == portability_bit())
        },
        StageView::AttachMessenger { instance, descriptor } => {
            &&& app.messenger is None
            &&& app.options.diagnostics
            &&& descriptor == every_message()
        },
        StageView::Ready { instance } => app.messenger is Some <==> app.options.diagnostics,
        StageView::Destroyed => true,
    }
}

/// A context that has just been begun: nothing was asked yet, nothing is held.
pub open spec fn initial(options: Options) -> AppView {
    AppView { options, stage: StageView::RequiredExtensions, messenger: None }
}

/// Every step leads from a coherent context to a coherent context.
pub proof fn lemma_step_keeps_coherence(app: AppView, reply: ReplyView)
    requires
        coherent(app),
    ensures
        step(app.options, app.stage, app.messenger, reply) matches Ok((stage, messenger))
            ==> coherent(AppView { options: app.options, stage, messenger }),
{
}

impl View for App {
    type V = AppView;

    closed spec fn view(&self) -> AppView {
        AppView { options: self.options, stage: self.stage@, messenger: self.data.messenger }
    }
}

impl App {
    #[verifier::type_invariant]
    spec fn well_formed(self) -> bool {
        coherent(self@)
    }

    /// Whether the context is complete and not yet torn down.
    pub open spec fn ready(&self) -> bool {
        self@.stage is Ready
    }

    /// Begins a context, given how loading the Vulkan library went: `Ok`, or
    /// the loader's account of why the library or one of its symbols could
    /// not be had. Nothing else is attempted after a failure to load.
    pub fn create(options: Options, loader: Result<(), String>) -> (app: Result<App, InitError>)
        ensures
            match loader {
                Ok(_) => app matches Ok(begun) && begun@ == initial(options),
                Err(reason) => app matches Err(InitError::LoaderError(account)) && account
                    == reason,
            },
    {
        match loader {
            Ok(_) => Ok(
                App { options, stage: Stage::RequiredExtensions, data: AppData::default() },
            ),
            Err(reason) => Err(InitError::LoaderError(reason)),
        }
    }

    /// Hands over the result of the operation that was due and moves to the
    /// next stage. The first failure ends the making of the context; what was
    /// acquired until then is not released.
    pub fn advance(self, reply: Reply) -> (next: Result<App, InitError>)
        ensures
            coherent(self@),
            match step(self@.options, self@.stage, self@.messenger, reply@) {
                Ok((stage, messenger)) => {
                    &&& next matches Ok(app)
                    &&& app@ == (AppView { options: self@.options, stage, messenger })
                    &&& coherent(app@)
                },
                Err(failure) => next matches Err(error) && error == failure,
            },
    {
        proof {
            use_type_invariant(&self);
            lemma_step_keeps_coherence(self@, reply@);
        }
        let App { options, stage, data } = self;
        let mut data = data;
        match create_instance(&options, stage, reply, &mut data) {
            Ok(stage) => Ok(App { options, stage, data }),
            Err(error) => Err(error),
        }
    }

    /// The options that the context was begun with.
    pub fn options(&self) -> (options: Options)
        ensures
            options == self@.options,
    {
        self.options
    }

    /// The stage that the context is at, and with it the operation that is
    /// due.
    pub fn stage(&self) -> (stage: &Stage)
        ensures
            stage@ == self@.stage,
            coherent(self@),
    {
        proof {
            use_type_invariant(self);
        }
        &self.stage
    }

    /// What the context holds besides its instance.
    pub fn data(&self) -> (data: &AppData)
        ensures
            data.messenger == self@.messenger,
            coherent(self@),
    {
        proof {
            use_type_invariant(self);
        }
        &self.data
    }

    /// The handle of the instance, once the context is complete.
    pub fn instance(&self) -> (instance: Option<u64>)
        ensures
            instance == match self@.stage {
                StageView::Ready { instance } => Some(instance),
                _ => None,
            },
    {
        match &self.stage {
            Stage::Ready { instance } => Some(*instance),
            _ => None,
        }
    }

    /// Whether the context is complete and not yet torn down.
    pub fn is_ready(&self) -> (ready: bool)
        ensures
            ready == self.ready(),
    {
        match &self.stage {
            Stage::Ready { .. } => true,
            _ => false,
        }
    }

    /// Renders one frame. There is nothing to draw yet: the context is left as
    /// it is. To render with a context that is not complete, or was torn down,
    /// is the caller's error.
    pub fn render(&mut self) -> (outcome: Result<(), InitError>)
        requires
            old(self).ready(),
        ensures
            outcome is Ok,
            final(self)@ == old(self)@,
    {
        Ok(())
    }

    /// Tears the context down and returns the operations to perform, in
    /// order: the messenger, where there is one, is destroyed before the
    /// instance. A context is torn down once; to tear down one that is not
    /// complete, or a second time, is the caller's error.
    pub fn destroy(&mut self) -> (steps: Vec<Teardown>)
        requires
            old(self).ready(),
        ensures
            old(self)@.stage matches StageView::Ready { instance } && steps@ == teardown_order(
                instance,
                old(self)@.messenger,
            ),
            old(self)@.messenger is Some <==> old(self)@.options.diagnostics,
            final(self)@ == (AppView { stage: StageView::Destroyed, ..old(self)@ }),
    {
        proof {
            use_type_invariant(&*self);
        }
        let mut steps: Vec<Teardown> = Vec::new();
        match self.stage {
            Stage::Ready { instance } => {
                match self.data.messenger {
                    Some(handle) => {
                        steps.push(Teardown::DestroyMessenger(handle));
                    },
                    None => {},
                }
                steps.push(Teardown::DestroyInstance(instance));
                assert(steps@ =~= teardown_order(instance, self.data.messenger));
            },
            _ => {},
        }
        self.stage = Stage::Destroyed;
        steps
    }
}

} // verus!
