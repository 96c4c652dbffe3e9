use vk_bootstrap::diagnostics::{debug_callback, DiagnosticEvent, Dispatch, Severity, Sink};
use vulkanalia::vk::{DebugUtilsMessageSeverityFlagsEXT, DebugUtilsMessageTypeFlagsEXT};

fn event(severity: u32) -> DiagnosticEvent {
    DiagnosticEvent {
        severity,
        message_type: DebugUtilsMessageTypeFlagsEXT::VALIDATION.bits(),
        message: String::from("vkCreateInstance: layer not found"),
    }
}

fn routed(severity: u32) -> Dispatch {
    debug_callback(event(severity))
}

#[test]
fn verbose_goes_to_the_trace_sink() {
    let dispatch = routed(DebugUtilsMessageSeverityFlagsEXT::VERBOSE.bits());
    assert_eq!(dispatch.sink, Sink::Trace);
    assert_eq!(dispatch.signal, Some(vulkanalia::vk::FALSE));
}

#[test]
fn info_goes_to_the_debug_sink() {
    let dispatch = routed(DebugUtilsMessageSeverityFlagsEXT::INFO.bits());
    assert_eq!(dispatch.sink, Sink::Debug);
    assert_eq!(dispatch.signal, Some(vulkanalia::vk::FALSE));
}

#[test]
fn warning_goes_to_the_warning_sink() {
    let dispatch = routed(DebugUtilsMessageSeverityFlagsEXT::WARNING.bits());
    assert_eq!(dispatch.sink, Sink::Warning);
    assert_eq!(dispatch.signal, Some(vulkanalia::vk::FALSE));
}

#[test]
fn error_aborts() {
    let dispatch = routed(DebugUtilsMessageSeverityFlagsEXT::ERROR.bits());
    assert_eq!(dispatch.sink, Sink::Abort);
    assert_eq!(dispatch.signal, None);
}

#[test]
fn abort_carries_type_and_message_untouched() {
    let message = "a long message, with \u{fffd} and \"quotes\"\n and a second line ".repeat(40);
    let dispatch = debug_callback(DiagnosticEvent {
        severity: 0x1000,
        message_type: 0xffff_fff5,
        message: message.clone(),
    });
    assert_eq!(dispatch.sink, Sink::Abort);
    assert_eq!(dispatch.event.message_type, 0xffff_fff5);
    assert_eq!(dispatch.event.severity, 0x1000);
    assert_eq!(dispatch.event.message, message);
    assert_eq!(dispatch.event.message.len(), message.len());
}

#[test]
fn every_sink_gets_the_event_as_it_came() {
    for severity in [0u32, 1, 0x10, 0x100, 0x1000] {
        let dispatch = routed(severity);
        assert_eq!(dispatch.event, event(severity));
    }
}

#[test]
fn the_signal_is_zero_wherever_the_callback_returns() {
    for severity in [0u32, 1, 0xf, 0x10, 0xff, 0x100, 0xfff] {
        assert_eq!(routed(severity).signal, Some(0));
    }
    for severity in [0x1000u32, 0x1001, 0x1111, u32::MAX] {
        assert_eq!(routed(severity).signal, None);
    }
}

#[test]
fn thresholds_are_those_of_vulkanalia() {
    assert_eq!(DebugUtilsMessageSeverityFlagsEXT::INFO.bits(), 0x10);
    assert_eq!(DebugUtilsMessageSeverityFlagsEXT::WARNING.bits(), 0x100);
    assert_eq!(DebugUtilsMessageSeverityFlagsEXT::ERROR.bits(), 0x1000);
    assert_eq!(Severity::from_mask(0x10), Severity::Info);
    assert_eq!(Severity::from_mask(0x100), Severity::Warning);
    assert_eq!(Severity::from_mask(0x1000), Severity::Error);
}

#[test]
fn a_mask_just_below_a_threshold_stays_below() {
    assert_eq!(Severity::from_mask(0), Severity::Verbose);
    assert_eq!(Severity::from_mask(0xf), Severity::Verbose);
    assert_eq!(Severity::from_mask(0xff), Severity::Info);
    assert_eq!(Severity::from_mask(0xfff), Severity::Warning);
    assert_eq!(Severity::from_mask(u32::MAX), Severity::Error);
}

#[test]
fn a_mask_of_several_severities_counts_as_the_gravest() {
    let warning_and_info = (DebugUtilsMessageSeverityFlagsEXT::WARNING
        | DebugUtilsMessageSeverityFlagsEXT::INFO)
        .bits();
    assert_eq!(Severity::from_mask(warning_and_info), Severity::Warning);
    let all = DebugUtilsMessageSeverityFlagsEXT::all().bits();
    assert_eq!(Severity::from_mask(all), Severity::Error);
}

#[test]
fn from_mask_agrees_with_the_order_of_the_flags() {
    let error = DebugUtilsMessageSeverityFlagsEXT::ERROR;
    let warning = DebugUtilsMessageSeverityFlagsEXT::WARNING;
    let info = DebugUtilsMessageSeverityFlagsEXT::INFO;
    for bits in [0u32, 1, 0x10, 0x11, 0x100, 0x101, 0x110, 0x1000, 0x1100, 0x1111] {
        let flags = DebugUtilsMessageSeverityFlagsEXT::from_bits(bits).unwrap();
        let expected = if flags >= error {
            Severity::Error
        } else if flags >= warning {
            Severity::Warning
        } else if flags >= info {
            Severity::Info
        } else {
            Severity::Verbose
        };
        assert_eq!(Severity::from_mask(bits), expected);
    }
}

#[test]
fn each_severity_has_its_sink() {
    assert_eq!(Severity::Verbose.route(), Sink::Trace);
    assert_eq!(Severity::Info.route(), Sink::Debug);
    assert_eq!(Severity::Warning.route(), Sink::Warning);
    assert_eq!(Severity::Error.route(), Sink::Abort);
}
