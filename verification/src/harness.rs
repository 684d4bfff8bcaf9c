//! The scripted console/event boot sequence. The unverified harness around
//! the library calls `kernel_main` and then enters the terminal halt loop;
//! everything the session displays and decides is fixed here.

use crate::console::{ConsoleModel, CELL_COUNT};
use crate::events::{
    spec_init, spec_key_press, spec_shutdown, spec_timer, DispatcherModel, EventDispatcher,
    EventType,
};
use vstd::prelude::*;

verus! {

/// Timer events dispatched by the scripted run.
pub const TIMER_EVENT_COUNT: usize = 10;

/// Iterations of the busy-wait between timer events: an explicitly
/// CPU-speed-dependent placeholder for a real timer, not accurate timing.
pub const DELAY_ITERATIONS: u64 = 5000000;

/// The dispatcher state as `EventDispatcher::new` builds it: a fresh
/// all-zero cell region, the cursor at the origin, the flag down.
pub open spec fn spec_fresh_dispatcher() -> DispatcherModel {
    DispatcherModel {
        console: ConsoleModel {
            cells: Seq::new(CELL_COUNT as nat, |i: int| 0u16),
            row: 0,
            col: 0,
        },
        running: false,
    }
}

/// Dispatcher state after `n` timer events.
pub open spec fn spec_timers(d: DispatcherModel, n: nat) -> DispatcherModel
    decreases n,
{
    if n == 0 {
        d
    } else {
        spec_timer(spec_timers(d, (n - 1) as nat))
    }
}

/// Final dispatcher state of the scripted run: one init, the timers, one
/// key press, one shutdown, in that order.
pub open spec fn spec_boot_script(d: DispatcherModel) -> DispatcherModel {
    spec_shutdown(spec_key_press(spec_timers(spec_init(d), TIMER_EVENT_COUNT as nat)))
}

/// Busy-waits the sole execution context for the given iteration count; the
/// delay placeholder between timer events.
fn busy_wait(iterations: u64) {
    let mut i: u64 = 0;
    while i < iterations
        invariant
            i <= iterations,
        decreases iterations - i,
    {
        i = i + 1;
    }
}

/// Runs the scripted boot sequence from a fresh dispatcher and returns the
/// dispatcher in its final state, ready for the caller's halt loop. The
/// final state is the one `spec_boot_script` fixes: in particular the
/// running flag is down again and the console holds the scripted output.
pub fn kernel_main() -> (d: EventDispatcher)
    ensures
        d.wf(),
        d@ == spec_boot_script(spec_fresh_dispatcher()),
        !d@.running,
{
    let mut dispatcher = EventDispatcher::new();
    proof {
        assert(dispatcher@ =~= spec_fresh_dispatcher());
    }

    let init_event = dispatcher.create_event(EventType::SystemInit, 10);
    dispatcher.dispatch_event(init_event);
    let ghost after_init = dispatcher@;

    let mut i: usize = 0;
    while i < TIMER_EVENT_COUNT
        invariant
            i <= TIMER_EVENT_COUNT,
            dispatcher.wf(),
            after_init == spec_init(spec_fresh_dispatcher()),
            dispatcher@ == spec_timers(after_init, i as nat),
        decreases TIMER_EVENT_COUNT - i,
    {
        let timer_event = dispatcher.create_event(EventType::Timer, 5);
        dispatcher.dispatch_event(timer_event);
        busy_wait(DELAY_ITERATIONS);
        i += 1;
    }

    let key_event = dispatcher.create_event(EventType::KeyPress, 8);
    dispatcher.dispatch_event(key_event);

    let shutdown_event = dispatcher.create_event(EventType::SystemShutdown, 10);
    dispatcher.dispatch_event(shutdown_event);

    dispatcher
}

/// A timer event never touches the running flag, however many fire.
pub proof fn lemma_timers_preserve_running(d: DispatcherModel, n: nat)
    ensures
        spec_timers(d, n).running == d.running,
    decreases n,
{
    if n > 0 {
        lemma_timers_preserve_running(d, (n - 1) as nat);
    }
}

/// In the scripted run the flag rises at the init event and stays up
/// through every timer and the key press; only the final shutdown drops it.
/// The init effect is thus observable strictly before the shutdown effect.
pub proof fn lemma_script_running_phases(d: DispatcherModel)
    ensures
        spec_init(d).running,
        spec_timers(spec_init(d), TIMER_EVENT_COUNT as nat).running,
        spec_key_press(spec_timers(spec_init(d), TIMER_EVENT_COUNT as nat)).running,
        !spec_boot_script(d).running,
{
    lemma_timers_preserve_running(spec_init(d), TIMER_EVENT_COUNT as nat);
}

/// The scripted run is deterministic: whatever state the session starts
/// from, the final console buffer and flag are the same, because the init
/// event clears the console before anything is written.
pub proof fn lemma_script_deterministic(d1: DispatcherModel, d2: DispatcherModel)
    ensures
        spec_boot_script(d1) == spec_boot_script(d2),
{
    assert(spec_init(d1) =~= spec_init(d2));
}

} // verus!
