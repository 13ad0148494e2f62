use gameboy::trace::{
    boot_end_event, game_trace_event, ly_read_shown, ly_trace_event, BootEndEvent, GameTraceEvent,
};

#[test]
fn ly_watch_events() {
    assert_eq!(ly_trace_event(0, 255, 0xf0, 0x44), (true, true));
    assert_eq!(ly_trace_event(3, 3, 0xf0, 0x45), (false, false));
    assert_eq!(ly_trace_event(3, 3, 0xe0, 0x44), (false, false));
    assert!(ly_read_shown(30, 0));
    assert!(!ly_read_shown(31, 143));
    assert!(ly_read_shown(5000, 144));
}

#[test]
fn boot_end_events() {
    let quiet = BootEndEvent { in_end_phase: false, mode_changed: false, stuck: false };
    assert_eq!(boot_end_event(0x0010, 0x000f, true, true), (quiet, false));
    assert_eq!(
        boot_end_event(0x00e0, 0x00e0, true, true),
        (BootEndEvent { in_end_phase: true, mode_changed: false, stuck: true }, false)
    );
    // the boot rom mapped out: stop, and no stuck check
    assert_eq!(
        boot_end_event(0x0100, 0x0100, false, true),
        (BootEndEvent { in_end_phase: false, mode_changed: true, stuck: false }, true)
    );
    // a repeat at or past $0100 is not reported
    assert_eq!(boot_end_event(0x0150, 0x0150, true, true), (quiet, false));
}

#[test]
fn game_trace_events() {
    assert_eq!(game_trace_event(0x0038, 0), (GameTraceEvent::Rst38Loop, true));
    assert_eq!(game_trace_event(0x0050, 5), (GameTraceEvent::Plain, false));
    assert_eq!(game_trace_event(0x0050, 6), (GameTraceEvent::BackInBoot, false));
    assert_eq!(game_trace_event(0x0150, 100), (GameTraceEvent::Plain, false));
}
