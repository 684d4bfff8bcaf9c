//! Lifecycle events and the dispatcher that maps each event kind to its
//! handler, driving the console and the process-wide running flag.

use crate::console::{spec_clear, spec_write_str, ConsoleModel, VgaConsole, CELL_COUNT};
use vstd::prelude::*;

verus! {

/// The closed set of lifecycle event kinds.
#[derive(Clone, Copy, Debug, PartialEq, Eq, Structural)]
pub enum EventType {
    SystemInit,
    KeyPress,
    Timer,
    SystemShutdown,
}

/// One lifecycle event. The priority is carried but advisory (dispatch never
/// consults it), and the timestamp is a placeholder: no clock is wired in.
#[derive(Clone, Copy, Debug, PartialEq, Eq, Structural)]
pub struct Event {
    pub event_type: EventType,
    pub priority: u8,
    pub timestamp: u64,
}

/// Mathematical state of the dispatcher: the console state plus the
/// running flag.
#[verifier::ext_equal]
pub struct DispatcherModel {
    pub console: ConsoleModel,
    pub running: bool,
}

/// State after handling `SystemInit`: the console is cleared, the banner
/// written, and the running flag set.
pub open spec fn spec_init(d: DispatcherModel) -> DispatcherModel {
    DispatcherModel {
        console: spec_write_str(
            spec_write_str(
                spec_write_str(spec_clear(d.console), "GrapeOS Kernel Initialized\n\r"@),
                "---------------------------\n\r"@,
            ),
            "Welcome to the Reactive Operating System!\n\r"@,
        ),
        running: true,
    }
}

/// State after handling `KeyPress`: a fixed notice line; the flag is kept.
pub open spec fn spec_key_press(d: DispatcherModel) -> DispatcherModel {
    DispatcherModel {
        console: spec_write_str(d.console, "Key press detected\n\r"@),
        running: d.running,
    }
}

/// State after handling `Timer`: one progress-marker character, no
/// trailing newline; the flag is kept.
pub open spec fn spec_timer(d: DispatcherModel) -> DispatcherModel {
    DispatcherModel { console: spec_write_str(d.console, "."@), running: d.running }
}

/// State after handling `SystemShutdown`: the shutdown banner, and the
/// running flag dropped.
pub open spec fn spec_shutdown(d: DispatcherModel) -> DispatcherModel {
    DispatcherModel {
        console: spec_write_str(d.console, "\n\rShutting down...\n\r"@),
        running: false,
    }
}

/// Dispatch is a pure kind-to-handler lookup: exactly one handler runs,
/// selected by the event kind alone.
pub open spec fn spec_dispatch(d: DispatcherModel, kind: EventType) -> DispatcherModel {
    match kind {
        EventType::SystemInit => spec_init(d),
        EventType::KeyPress => spec_key_press(d),
        EventType::Timer => spec_timer(d),
        EventType::SystemShutdown => spec_shutdown(d),
    }
}

/// Synchronous event dispatcher. It exclusively owns the console, and it is
/// the only writer of the running flag (set by `SystemInit` handling,
/// dropped by `SystemShutdown` handling).
pub struct EventDispatcher {
    pub console: VgaConsole,
    pub running: bool,
}

impl View for EventDispatcher {
    type V = DispatcherModel;

    open spec fn view(&self) -> DispatcherModel {
        DispatcherModel { console: self.console@, running: self.running }
    }
}

impl EventDispatcher {
    /// Dispatcher invariant: its console is well-formed.
    pub open spec fn wf(&self) -> bool {
        self.console.wf()
    }

    /// Builds the dispatcher over a fresh console; the running flag starts
    /// out false, its one-time boot initialization.
    pub fn new() -> (d: Self)
        ensures
            d.wf(),
            !d@.running,
            d@.console.cells == Seq::new(CELL_COUNT as nat, |i: int| 0u16),
            d@.console.row == 0,
            d@.console.col == 0,
    {
        let console = VgaConsole::new();
        Self { console, running: false }
    }

    /// Builds an event of the given kind and priority with the placeholder
    /// timestamp (no real clock is in scope).
    pub fn create_event(&self, event_type: EventType, priority: u8) -> (e: Event)
        ensures
            e.event_type == event_type,
            e.priority == priority,
            e.timestamp == 0,
    {
        Event { event_type, priority, timestamp: 0 }
    }

    /// Invokes exactly one handler, selected by the event kind. The running
    /// flag rises on `SystemInit`, falls on `SystemShutdown`, and is kept by
    /// the other kinds.
    pub fn dispatch_event(&mut self, event: Event)
        requires
            old(self).wf(),
        ensures
            final (self).wf(),
            final (self)@ == spec_dispatch(old(self)@, event.event_type),
            event.event_type is SystemInit ==> final (self)@.running,
            event.event_type is SystemShutdown ==> !final (self)@.running,
            (event.event_type is KeyPress || event.event_type is Timer) ==> final (self)@.running
                == old(self)@.running,
    {
        match event.event_type {
            EventType::SystemInit => self.handle_system_init(event),
            EventType::KeyPress => self.handle_key_press(event),
            EventType::Timer => self.handle_timer(event),
            EventType::SystemShutdown => self.handle_system_shutdown(event),
        }
    }

    /// `SystemInit` handler: clear the console, write the boot banner, set
    /// the running flag.
    pub fn handle_system_init(&mut self, _event: Event)
        requires
            old(self).wf(),
        ensures
            final (self).wf(),
            final (self)@ == spec_init(old(self)@),
    {
        self.console.clear();
        self.console.write_str("GrapeOS Kernel Initialized\n\r");
        self.console.write_str("---------------------------\n\r");
        self.console.write_str("Welcome to the Reactive Operating System!\n\r");
        self.running = true;
        proof {
            assert(self@ =~= spec_init(old(self)@));
        }
    }

    /// `KeyPress` handler: write the fixed notice line (no real keyboard
    /// input is read in this scope).
    pub fn handle_key_press(&mut self, _event: Event)
        requires
            old(self).wf(),
        ensures
            final (self).wf(),
            final (self)@ == spec_key_press(old(self)@),
    {
        self.console.write_str("Key press detected\n\r");
        proof {
            assert(self@ =~= spec_key_press(old(self)@));
        }
    }

    /// `Timer` handler: write the single progress marker.
    pub fn handle_timer(&mut self, _event: Event)
        requires
            old(self).wf(),
        ensures
            final (self).wf(),
            final (self)@ == spec_timer(old(self)@),
    {
        self.console.write_str(".");
        proof {
            assert(self@ =~= spec_timer(old(self)@));
        }
    }

    /// `SystemShutdown` handler: write the shutdown banner and drop the
    /// running flag.
    pub fn handle_system_shutdown(&mut self, _event: Event)
        requires
            old(self).wf(),
        ensures
            final (self).wf(),
            final (self)@ == spec_shutdown(old(self)@),
    {
        self.console.write_str("\n\rShutting down...\n\r");
        self.running = false;
        proof {
            assert(self@ =~= spec_shutdown(old(self)@));
        }
    }
}

} // verus!
