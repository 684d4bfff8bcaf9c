use grapeos_core::events::{Event, EventDispatcher, EventType};
use grapeos_core::harness::kernel_main;

const BLANK: u16 = 0x0720;

fn g(c: char) -> u16 {
    0x0700 | (c as u16)
}

fn row_text(cells: &[u16], row: usize, text: &str) -> bool {
    let mut expected: Vec<u16> = text.chars().map(g).collect();
    expected.resize(80, BLANK);
    cells[row * 80..(row + 1) * 80] == expected[..]
}

#[test]
fn create_event_uses_placeholder_timestamp() {
    let dispatcher = EventDispatcher::new();
    let event = dispatcher.create_event(EventType::KeyPress, 8);
    assert_eq!(
        event,
        Event { event_type: EventType::KeyPress, priority: 8, timestamp: 0 }
    );
}

#[test]
fn init_raises_and_shutdown_drops_running_flag() {
    let mut dispatcher = EventDispatcher::new();
    assert!(!dispatcher.running);

    let init = dispatcher.create_event(EventType::SystemInit, 10);
    dispatcher.dispatch_event(init);
    assert!(dispatcher.running);

    let timer = dispatcher.create_event(EventType::Timer, 5);
    dispatcher.dispatch_event(timer);
    assert!(dispatcher.running, "a timer event keeps the flag");

    let key = dispatcher.create_event(EventType::KeyPress, 8);
    dispatcher.dispatch_event(key);
    assert!(dispatcher.running, "a key press keeps the flag");

    let shutdown = dispatcher.create_event(EventType::SystemShutdown, 10);
    dispatcher.dispatch_event(shutdown);
    assert!(!dispatcher.running);
}

#[test]
fn init_clears_and_writes_banner() {
    let mut dispatcher = EventDispatcher::new();
    let init = dispatcher.create_event(EventType::SystemInit, 10);
    dispatcher.dispatch_event(init);
    let cells = &dispatcher.console.cells;
    assert!(row_text(cells, 0, "GrapeOS Kernel Initialized"));
    assert!(row_text(cells, 1, "---------------------------"));
    assert!(row_text(cells, 2, "Welcome to the Reactive Operating System!"));
    assert!(row_text(cells, 3, ""));
    assert_eq!(dispatcher.console.row, 3);
    assert_eq!(dispatcher.console.col, 0);
}

#[test]
fn timer_writes_single_marker_without_newline() {
    let mut dispatcher = EventDispatcher::new();
    dispatcher.console.clear();
    let timer = dispatcher.create_event(EventType::Timer, 5);
    dispatcher.dispatch_event(timer);
    assert_eq!(dispatcher.console.cells[0], g('.'));
    assert_eq!(dispatcher.console.row, 0);
    assert_eq!(dispatcher.console.col, 1);
}

#[test]
fn scripted_run_produces_deterministic_final_console() {
    let dispatcher = kernel_main();

    // The shutdown handler ran last: the flag is down again.
    assert!(!dispatcher.running);

    let cells = &dispatcher.console.cells;
    assert!(row_text(cells, 0, "GrapeOS Kernel Initialized"));
    assert!(row_text(cells, 1, "---------------------------"));
    assert!(row_text(cells, 2, "Welcome to the Reactive Operating System!"));
    // Ten timer markers, then the key-press notice on the same row.
    assert!(row_text(cells, 3, "..........Key press detected"));
    assert!(row_text(cells, 4, ""));
    assert!(row_text(cells, 5, "Shutting down..."));
    assert_eq!(dispatcher.console.row, 6);
    assert_eq!(dispatcher.console.col, 0);

    // Deterministic: a second full run gives cell-for-cell the same buffer.
    let again = kernel_main();
    assert_eq!(again.console.cells, dispatcher.console.cells);
    assert_eq!(again.console.row, dispatcher.console.row);
    assert_eq!(again.console.col, dispatcher.console.col);
    assert_eq!(again.running, dispatcher.running);
}
