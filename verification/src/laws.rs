//! What holds of the making of a context as a whole: of every sequence of
//! replies, not of one step alone.

use crate::app::{
    coherent, initial, lemma_step_keeps_coherence, step, teardown_order, AppView, Options,
    ReplyView, StageView, Teardown,
};
use crate::descriptor::instance_info_for;
use crate::diagnostics::{Severity, Sink};
use crate::error::InitError;
use crate::negotiation::{
    extensions_for, flags_for, layers_for, layers_supported, portability_threshold,
    validation_layer_name,
};
use crate::version::ApiVersion;
use crate::vk::{
    debug_utils_name, error_threshold, physical_device_properties_name, portability_bit,
    portability_enumeration_name,
};
use vstd::prelude::*;

verus! {

/// The context after one reply, or the failure that ended its making.
pub open spec fn after(app: AppView, reply: ReplyView) -> Result<AppView, InitError> {
    match step(app.options, app.stage, app.messenger, reply) {
        Ok((stage, messenger)) => Ok(AppView { options: app.options, stage, messenger }),
        Err(failure) => Err(failure),
    }
}

/// The context after a whole script of replies, taken in order, or the first
/// failure met on the way.
pub open spec fn run(app: AppView, script: Seq<ReplyView>) -> Result<AppView, InitError>
    decreases script.len(),
{
    if script.len() == 0 {
        Ok(app)
    } else {
        match run(app, script.drop_last()) {
            Ok(reached) => after(reached, script.last()),
            Err(failure) => Err(failure),
        }
    }
}

/// A script with one more reply runs as the script does, and then takes the
/// one step more.
pub proof fn lemma_run_one_more(app: AppView, script: Seq<ReplyView>, reply: ReplyView)
    ensures
        run(app, script.push(reply)) == match run(app, script) {
            Ok(reached) => after(reached, reply),
            Err(failure) => Err(failure),
        },
{
    assert(script.push(reply).drop_last() =~= script);
}

/// `name` stands at exactly one place in `names`.
pub open spec fn occurs_once(names: Seq<Seq<char>>, name: Seq<char>) -> bool {
    exists|i: int|
        {
            &&& 0 <= i < names.len()
            &&& #[trigger] names[i] == name
            &&& forall|j: int| 0 <= j < names.len() && #[trigger] names[j] == name ==> j == i
        }
}

/// Whether a reply reports layers among which the validation layer is.
pub open spec fn offers_validation(reply: ReplyView) -> bool {
    reply matches ReplyView::Layers(Ok(available)) && available.contains(validation_layer_name())
}

/// The extension names that the library adds are three different names.
pub proof fn lemma_added_names_differ()
    ensures
        debug_utils_name() != physical_device_properties_name(),
        debug_utils_name() != portability_enumeration_name(),
        physical_device_properties_name() != portability_enumeration_name(),
{
    reveal_strlit("VK_EXT_debug_utils");
    reveal_strlit("VK_KHR_get_physical_device_properties2");
    reveal_strlit("VK_KHR_portability_enumeration");
    assert(debug_utils_name().len() == 18);
    assert(physical_device_properties_name().len() == 38);
    assert(portability_enumeration_name().len() == 30);
}

/// Whatever replies arrive, a context stays coherent, and is never torn down
/// by a reply.
pub proof fn law_every_run_is_coherent(options: Options, script: Seq<ReplyView>)
    ensures
        run(initial(options), script) matches Ok(reached) ==> {
            &&& coherent(reached)
            &&& reached.options == options
            &&& !(reached.stage is Destroyed)
        },
    decreases script.len(),
{
    if script.len() > 0 {
        law_every_run_is_coherent(options, script.drop_last());
        if let Ok(before) = run(initial(options), script.drop_last()) {
            lemma_step_keeps_coherence(before, script.last());
        }
    }
}

/// Without diagnostics no layer is enabled, whatever is available, and the
/// debug-utils extension is not asked for unless the window itself names it.
pub proof fn law_no_diagnostics_no_layer(
    window: Seq<Seq<char>>,
    available: Seq<Seq<char>>,
    portability: bool,
)
    requires
        !window.contains(debug_utils_name()),
    ensures
        layers_supported(false, available),
        layers_for(false) == Seq::<Seq<char>>::empty(),
        instance_info_for(window, false, portability).layers.len() == 0,
        !instance_info_for(window, false, portability).extensions.contains(debug_utils_name()),
{
    lemma_added_names_differ();
    lemma_extensions_layout(window, false, portability);
    let extensions = extensions_for(window, false, portability);
    assert forall|j: int| 0 <= j < extensions.len() implies extensions[j]
        != debug_utils_name() by {
        if j < window.len() {
            assert(extensions[j] == window[j]);
            assert(window.contains(window[j]));
        }
    }
}

/// Without diagnostics no messenger is ever asked for, and none is held:
/// neither on the way nor in the complete context.
pub proof fn law_no_diagnostics_no_messenger(options: Options, script: Seq<ReplyView>)
    requires
        !options.diagnostics,
    ensures
        run(initial(options), script) matches Ok(reached) ==> {
            &&& !(reached.stage is AttachMessenger)
            &&& reached.messenger is None
        },
{
    law_every_run_is_coherent(options, script);
}

/// With diagnostics on and the validation layer available, a context whose
/// every operation succeeds becomes complete and holds the messenger that was
/// attached. The version is asked for on a portability platform only.
pub proof fn law_diagnostics_yield_messenger(
    options: Options,
    window: Seq<Seq<char>>,
    available: Seq<Seq<char>>,
    loaded: ApiVersion,
    instance: u64,
    handle: u64,
)
    requires
        options.diagnostics,
        available.contains(validation_layer_name()),
    ensures
        run(
            initial(options),
            if options.portability_platform {
                seq![
                    ReplyView::Extensions(window),
                    ReplyView::Layers(Ok(available)),
                    ReplyView::Version(Ok(loaded)),
                    ReplyView::Instance(Ok(instance)),
                    ReplyView::Messenger(Ok(handle)),
                ]
            } else {
                seq![
                    ReplyView::Extensions(window),
                    ReplyView::Layers(Ok(available)),
                    ReplyView::Instance(Ok(instance)),
                    ReplyView::Messenger(Ok(handle)),
                ]
            },
        ) == Ok::<AppView, InitError>(
            AppView { options, stage: StageView::Ready { instance }, messenger: Some(handle) },
        ),
{
    let first = ReplyView::Extensions(window);
    let second = ReplyView::Layers(Ok(available));
    let third = ReplyView::Version(Ok(loaded));
    let fourth = ReplyView::Instance(Ok(instance));
    let fifth = ReplyView::Messenger(Ok(handle));
    let start = initial(options);
    let none = Seq::<ReplyView>::empty();
    lemma_run_one_more(start, none, first);
    lemma_run_one_more(start, seq![first], second);
    assert(none.push(first) =~= seq![first]);
    assert(seq![first].push(second) =~= seq![first, second]);
    if options.portability_platform {
        lemma_run_one_more(start, seq![first, second], third);
        lemma_run_one_more(start, seq![first, second, third], fourth);
        lemma_run_one_more(start, seq![first, second, third, fourth], fifth);
        assert(seq![first, second].push(third) =~= seq![first, second, third]);
        assert(seq![first, second, third].push(fourth) =~= seq![first, second, third, fourth]);
        assert(seq![first, second, third, fourth].push(fifth) =~= seq![
            first,
            second,
            third,
            fourth,
            fifth,
        ]);
    } else {
        lemma_run_one_more(start, seq![first, second], fourth);
        lemma_run_one_more(start, seq![first, second, fourth], fifth);
        assert(seq![first, second].push(fourth) =~= seq![first, second, fourth]);
        assert(seq![first, second, fourth].push(fifth) =~= seq![first, second, fourth, fifth]);
    }
}

/// With diagnostics on and the validation layer missing from what is
/// available, the reply that reports the layers ends the making of the
/// context.
pub proof fn law_missing_layer_fails(
    options: Options,
    window: Seq<Seq<char>>,
    messenger: Option<u64>,
    available: Seq<Seq<char>>,
)
    requires
        options.diagnostics,
        !available.contains(validation_layer_name()),
    ensures
        step(
            options,
            StageView::EnumerateLayers { window_extensions: window },
            messenger,
            ReplyView::Layers(Ok(available)),
        ) == Err::<(StageView, Option<u64>), InitError>(InitError::UnsupportedLayerError),
{
}

/// With diagnostics on, no instance is ever asked for, let alone held, unless
/// some reply reported the validation layer as available.
pub proof fn law_no_instance_without_validation_layer(options: Options, script: Seq<ReplyView>)
    requires
        options.diagnostics,
        forall|i: int| 0 <= i < script.len() ==> !offers_validation(#[trigger] script[i]),
    ensures
        run(initial(options), script) matches Ok(reached) ==> {
            ||| reached.stage is RequiredExtensions
            ||| reached.stage is EnumerateLayers
        },
    decreases script.len(),
{
    if script.len() > 0 {
        law_no_instance_without_validation_layer(options, script.drop_last());
        law_every_run_is_coherent(options, script.drop_last());
        assert(!offers_validation(script[script.len() - 1]));
    }
}

/// Where each name of a negotiated extension list stands: the window's names
/// first, as they came; then the debug-utils name, with diagnostics; then the
/// portability pair, where portability is required.
pub proof fn lemma_extensions_layout(window: Seq<Seq<char>>, diagnostics: bool, portability: bool)
    ensures
        extensions_for(window, diagnostics, portability).len() == window.len() + (if diagnostics {
            1int
        } else {
            0
        }) + (if portability {
            2int
        } else {
            0
        }),
        forall|j: int|
            0 <= j < window.len() ==> #[trigger] extensions_for(
                window,
                diagnostics,
                portability,
            )[j] == window[j],
        diagnostics ==> extensions_for(window, diagnostics, portability)[window.len() as int]
            == debug_utils_name(),
        portability ==> {
            let first = window.len() + (if diagnostics {
                1int
            } else {
                0
            });
            &&& extensions_for(window, diagnostics, portability)[first]
                == physical_device_properties_name()
            &&& extensions_for(window, diagnostics, portability)[first + 1]
                == portability_enumeration_name()
        },
{
    let diagnostic = if diagnostics {
        seq![debug_utils_name()]
    } else {
        Seq::<Seq<char>>::empty()
    };
    let portable = if portability {
        seq![physical_device_properties_name(), portability_enumeration_name()]
    } else {
        Seq::<Seq<char>>::empty()
    };
    let front = window + diagnostic;
    assert(extensions_for(window, diagnostics, portability) == front + portable);
    assert(front.len() == window.len() + diagnostic.len());
    assert forall|j: int| 0 <= j < window.len() implies (front + portable)[j] == window[j] by {
        assert(front[j] == window[j]);
    }
    if diagnostics {
        assert(front[window.len() as int] == diagnostic[0]);
    }
    if portability {
        assert((front + portable)[front.len() as int] == portable[0]);
        assert((front + portable)[front.len() as int + 1] == portable[1]);
    }
}

/// Where portability is required, each of the two portability extensions is
/// asked for exactly once and the portability bit is set; where it is not,
/// neither is asked for and no flag is set. This holds of a window that names
/// neither extension itself.
pub proof fn law_portability_pair(window: Seq<Seq<char>>, diagnostics: bool, portability: bool)
    requires
        !window.contains(physical_device_properties_name()),
        !window.contains(portability_enumeration_name()),
    ensures
        portability ==> {
            &&& occurs_once(
                extensions_for(window, diagnostics, true),
                physical_device_properties_name(),
            )
            &&& occurs_once(
                extensions_for(window, diagnostics, true),
                portability_enumeration_name(),
            )
            &&& flags_for(true) == portability_bit()
        },
        !portability ==> {
            &&& !extensions_for(window, diagnostics, false).contains(
                physical_device_properties_name(),
            )
            &&& !extensions_for(window, diagnostics, false).contains(
                portability_enumeration_name(),
            )
            &&& flags_for(false) == 0
        },
{
    lemma_added_names_differ();
    lemma_extensions_layout(window, diagnostics, portability);
    let names = extensions_for(window, diagnostics, portability);
    let first = window.len() + (if diagnostics {
        1int
    } else {
        0
    });
    let pair_first = physical_device_properties_name();
    let pair_second = portability_enumeration_name();
    assert forall|j: int| 0 <= j < first implies names[j] != pair_first && names[j]
        != pair_second by {
        if j < window.len() {
            assert(names[j] == window[j]);
            assert(window.contains(window[j]));
        }
    }
    if portability {
        assert(names[first] == pair_first);
        assert(names[first + 1] == pair_second);
        assert(occurs_once(names, pair_first)) by {
            assert forall|j: int| 0 <= j < names.len() && names[j] == pair_first implies j
                == first by {}
        }
        assert(occurs_once(names, pair_second)) by {
            assert forall|j: int| 0 <= j < names.len() && names[j] == pair_second implies j
                == first + 1 by {}
        }
    } else {
        assert(names.len() == first);
    }
}

/// On a portability platform the loaded version decides: from the threshold
/// on the creation descriptor carries the portability pair and bit, below it
/// neither. Elsewhere the version is not asked for and neither is carried.
pub proof fn law_version_decides_portability(
    options: Options,
    window: Seq<Seq<char>>,
    available: Seq<Seq<char>>,
    loaded: ApiVersion,
)
    requires
        layers_supported(options.diagnostics, available),
    ensures
        options.portability_platform ==> run(
            initial(options),
            seq![
                ReplyView::Extensions(window),
                ReplyView::Layers(Ok(available)),
                ReplyView::Version(Ok(loaded)),
            ],
        ) == Ok::<AppView, InitError>(
            AppView {
                options,
                stage: StageView::CreateInstance {
                    info: instance_info_for(
                        window,
                        options.diagnostics,
                        loaded.at_least(portability_threshold()),
                    ),
                },
                messenger: None,
            },
        ),
        !options.portability_platform ==> run(
            initial(options),
            seq![ReplyView::Extensions(window), ReplyView::Layers(Ok(available))],
        ) == Ok::<AppView, InitError>(
            AppView {
                options,
                stage: StageView::CreateInstance {
                    info: instance_info_for(window, options.diagnostics, false),
                },
                messenger: None,
            },
        ),
{
    let first = ReplyView::Extensions(window);
    let second = ReplyView::Layers(Ok(available));
    let third = ReplyView::Version(Ok(loaded));
    let start = initial(options);
    let none = Seq::<ReplyView>::empty();
    lemma_run_one_more(start, none, first);
    lemma_run_one_more(start, seq![first], second);
    lemma_run_one_more(start, seq![first, second], third);
    assert(none.push(first) =~= seq![first]);
    assert(seq![first].push(second) =~= seq![first, second]);
    assert(seq![first, second].push(third) =~= seq![first, second, third]);
}

/// In a teardown the instance goes last, and a messenger, where there is one,
/// goes right before it: never after.
pub proof fn law_messenger_before_instance(instance: u64, messenger: Option<u64>)
    ensures
        teardown_order(instance, messenger).last() == Teardown::DestroyInstance(instance),
        messenger matches Some(handle) ==> {
            &&& teardown_order(instance, messenger).len() == 2
            &&& teardown_order(instance, messenger)[0] == Teardown::DestroyMessenger(handle)
        },
        messenger is None ==> teardown_order(instance, messenger).len() == 1,
        forall|i: int, j: int|
            0 <= i < teardown_order(instance, messenger).len() && 0 <= j < teardown_order(
                instance,
                messenger,
            ).len() && teardown_order(instance, messenger)[i] is DestroyMessenger
                && teardown_order(instance, messenger)[j] is DestroyInstance ==> i < j,
{
}

/// A graver message never goes to a milder sink: the severities follow the
/// order of the masks, and a message is fatal exactly from the error
/// threshold on.
pub proof fn law_routing_follows_severity(milder: u32, graver: u32)
    requires
        milder <= graver,
    ensures
        Severity::of(milder).rank() <= Severity::of(graver).rank(),
        Severity::of(milder).sink() == Sink::Abort ==> Severity::of(graver).sink() == Sink::Abort,
        Severity::of(graver).sink() == Sink::Abort <==> graver >= error_threshold(),
{
}

} // verus!
