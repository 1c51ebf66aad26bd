//! What the window's event loop is told and what it does about it.

use vstd::prelude::*;
use crate::error::Error;
use crate::owner::{Access, AccessView};

verus! {

/// A message from a compute task to the event loop.
#[derive(Debug)]
pub enum UiMessage {
    /// The task is over, with its result.
    ComputeComplete(Result<(), Error>),
    /// The task has something new to show.
    ProgressUpdate,
}

impl Clone for UiMessage {
    fn clone(&self) -> (copy: Self)
        ensures
            copy == *self,
    {
        match self {
            UiMessage::ComputeComplete(Ok(done)) => UiMessage::ComputeComplete(Ok(*done)),
            UiMessage::ComputeComplete(Err(error)) => UiMessage::ComputeComplete(
                Err(error.clone()),
            ),
            UiMessage::ProgressUpdate => UiMessage::ProgressUpdate,
        }
    }
}

/// An event that the platform hands to the event loop.
#[derive(Debug)]
pub enum UiEvent {
    /// The user asked to close the window.
    CloseRequested,
    /// Something else happened to the window.
    WindowChanged,
    /// All events that were waiting have been handed over.
    MainEventsCleared,
    /// The window has to be painted.
    RedrawRequested,
    /// A compute task sent a message.
    User(UiMessage),
    /// Anything else.
    Other,
}

/// What the event loop does once an event is dealt with.
#[derive(Debug, Clone, Copy, PartialEq, Eq, Structural)]
pub enum Flow {
    /// Sleep until the next event.
    Wait,
    /// Leave the loop.
    Exit,
}

/// What an event calls for.
#[derive(Debug, Clone, Copy, PartialEq, Eq, Structural)]
pub struct Reaction {
    pub flow: Flow,
    /// Ask the platform for a `RedrawRequested`.
    pub request_redraw: bool,
    /// Draw a frame, if the owner of the device is alive. If it is not,
    /// the frame is skipped.
    pub draw: bool,
}

/// The reaction to an event.
///
/// The loop sleeps between events. It leaves when the window is to be
/// closed or a compute task has failed. It asks for a redraw when the
/// waiting events are through, when a task made progress and when a task
/// completed. It draws when the platform asks it to.
pub open spec fn reaction(event: UiEvent) -> Reaction {
    match event {
        UiEvent::CloseRequested => Reaction { flow: Flow::Exit, request_redraw: false, draw: false },
        UiEvent::MainEventsCleared => Reaction {
            flow: Flow::Wait,
            request_redraw: true,
            draw: false,
        },
        UiEvent::RedrawRequested => Reaction { flow: Flow::Wait, request_redraw: false, draw: true },
        UiEvent::User(UiMessage::ProgressUpdate) => Reaction {
            flow: Flow::Wait,
            request_redraw: true,
            draw: false,
        },
        UiEvent::User(UiMessage::ComputeComplete(Ok(_))) => Reaction {
            flow: Flow::Wait,
            request_redraw: true,
            draw: false,
        },
        UiEvent::User(UiMessage::ComputeComplete(Err(_))) => Reaction {
            flow: Flow::Exit,
            request_redraw: false,
            draw: false,
        },
        _ => Reaction { flow: Flow::Wait, request_redraw: false, draw: false },
    }
}

/// `trace` holds the reactions of a loop that is handed `events`: one for
/// each event up to the first that makes the loop leave, that one
/// included, and none for the events after it.
pub open spec fn is_trace(events: Seq<UiEvent>, trace: Seq<Reaction>) -> bool {
    &&& trace.len() <= events.len()
    &&& forall|i: int| 0 <= i < trace.len() ==> #[trigger] trace[i] == reaction(events[i])
    &&& forall|i: int| 0 <= i < trace.len() - 1 ==> (#[trigger] trace[i]).flow == Flow::Wait
    &&& (trace.len() < events.len() ==> trace.len() > 0 && trace.last().flow == Flow::Exit)
}

/// The events have exactly one trace.
pub proof fn lemma_trace_is_unique(events: Seq<UiEvent>, one: Seq<Reaction>, other: Seq<Reaction>)
    requires
        is_trace(events, one),
        is_trace(events, other),
    ensures
        one == other,
{
    if one.len() < other.len() {
        assert(one.last() == one[one.len() - 1]);
        assert(other[one.len() - 1].flow == Flow::Wait);
        assert(one[one.len() - 1] == reaction(events[one.len() - 1]));
        assert(other[one.len() - 1] == reaction(events[one.len() - 1]));
    } else if other.len() < one.len() {
        assert(other.last() == other[other.len() - 1]);
        assert(one[other.len() - 1].flow == Flow::Wait);
        assert(one[other.len() - 1] == reaction(events[other.len() - 1]));
        assert(other[other.len() - 1] == reaction(events[other.len() - 1]));
    }
    assert(one =~= other);
}

/// A request to redraw never makes the loop leave, whether or not a frame
/// can be drawn: the event after it is dealt with.
pub proof fn lemma_redraw_keeps_the_loop(events: Seq<UiEvent>, trace: Seq<Reaction>, i: int)
    requires
        is_trace(events, trace),
        0 <= i < trace.len(),
        events[i] is RedrawRequested,
    ensures
        trace[i].flow == Flow::Wait,
        trace[i].draw,
        i + 1 < events.len() ==> i + 1 < trace.len(),
{
    assert(trace[i] == reaction(events[i]));
    if i + 1 < events.len() && i + 1 >= trace.len() {
        assert(trace.last() == trace[i]);
    }
}

/// The loop leaves only when the window is to be closed or a compute task
/// has failed.
pub proof fn lemma_exit_has_a_cause(event: UiEvent)
    ensures
        reaction(event).flow == Flow::Exit <==> (event is CloseRequested || event matches UiEvent::User(
            UiMessage::ComputeComplete(Err(_)),
        )),
{
}

/// The window to create.
#[derive(Debug, Clone, Copy, PartialEq, Eq)]
pub struct WindowSpec {
    pub title: &'static str,
    /// Width of the inside of the window, in logical pixels.
    pub width: u32,
    /// Height of the inside of the window, in logical pixels.
    pub height: u32,
}

/// The window and what its event loop decides.
#[derive(Debug)]
pub struct Ui {
    window: WindowSpec,
}

impl Ui {
    /// The window.
    pub closed spec fn spec_window(&self) -> WindowSpec {
        self.window
    }

    /// The user interface of the program: a window named `wave test`, 800
    /// by 600.
    pub fn new() -> (ui: Ui)
        ensures
            ui.spec_window().title@ == "wave test"@,
            ui.spec_window().width == 800,
            ui.spec_window().height == 600,
    {
        Ui { window: WindowSpec { title: "wave test", width: 800, height: 600 } }
    }

    /// The window.
    pub fn get_window(&self) -> (window: &WindowSpec)
        ensures
            *window == self.spec_window(),
    {
        &self.window
    }

    /// Starts to get the owner of the window's device, which is built if
    /// there is none.
    pub fn get_gpu(&self) -> (access: Access)
        ensures
            access@ == AccessView::Start,
    {
        Access::begin()
    }

    /// Decides what an event calls for.
    pub fn handle(&self, event: &UiEvent) -> (calls_for: Reaction)
        ensures
            calls_for == reaction(*event),
    {
        match event {
            UiEvent::CloseRequested => Reaction {
                flow: Flow::Exit,
                request_redraw: false,
                draw: false,
            },
            UiEvent::MainEventsCleared => Reaction {
                flow: Flow::Wait,
                request_redraw: true,
                draw: false,
            },
            UiEvent::RedrawRequested => Reaction {
                flow: Flow::Wait,
                request_redraw: false,
                draw: true,
            },
            UiEvent::User(UiMessage::ProgressUpdate) => Reaction {
                flow: Flow::Wait,
                request_redraw: true,
                draw: false,
            },
            UiEvent::User(UiMessage::ComputeComplete(Ok(_))) => Reaction {
                flow: Flow::Wait,
                request_redraw: true,
                draw: false,
            },
            UiEvent::User(UiMessage::ComputeComplete(Err(_))) => Reaction {
                flow: Flow::Exit,
                request_redraw: false,
                draw: false,
            },
            _ => Reaction { flow: Flow::Wait, request_redraw: false, draw: false },
        }
    }

    /// Runs the loop over events in the order in which they come, until
    /// one makes it leave or none is left, and gives the reactions.
    pub fn run(&self, events: &[UiEvent]) -> (trace: Vec<Reaction>)
        ensures
            is_trace(events@, trace@),
    {
        let mut trace: Vec<Reaction> = Vec::new();
        let mut i: usize = 0;
        while i < events.len()
            invariant
                i <= events@.len(),
                trace@.len() == i,
                forall|k: int| 0 <= k < i ==> #[trigger] trace@[k] == reaction(events@[k]),
                forall|k: int| 0 <= k < i ==> (#[trigger] trace@[k]).flow == Flow::Wait,
            decreases events@.len() - i,
        {
            let calls_for = self.handle(&events[i]);
            trace.push(calls_for);
            if calls_for.flow == Flow::Exit {
                return trace;
            }
            i += 1;
        }
        trace
    }
}

} // verus!
