//! The event-loop policy. The OS delivers events; this module decides
//! what each one means for the renderer: exit, resize-and-reconfigure,
//! render a frame, or ask for the next redraw. The embedding application
//! carries each returned action out against the window and the GPU.

use vstd::prelude::*;
use crate::counting::count_where;
use crate::counting::lemma_count_where_push;
use crate::frame::AcquireOutcome;
use crate::frame::FrameDecision;
use crate::state::State;

verus! {

/// Whether a key is going down or coming up.
#[derive(Clone, Copy, Debug, PartialEq, Eq)]
pub enum KeyState {
    Pressed,
    Released,
}

/// The keys the harness distinguishes: Escape ends the loop, everything
/// else is ignored.
#[derive(Clone, Copy, Debug, PartialEq, Eq)]
pub enum Key {
    Escape,
    Other,
}

/// A window event, as the harness reads it. A keyboard event may carry
/// no recognised key at all.
#[derive(Clone, Copy, Debug, PartialEq, Eq)]
pub enum WindowEvent {
    CloseRequested,
    KeyboardInput { state: KeyState, key: Option<Key> },
    Resized { width: u32, height: u32 },
    /// A display-scale change also delivers the window's new pixel size,
    /// and is handled exactly like a resize.
    ScaleFactorChanged { width: u32, height: u32 },
    Other,
}

/// One delivery from the OS event loop.
#[derive(Clone, Copy, Debug, PartialEq, Eq)]
pub enum Event {
    Window(WindowEvent),
    /// The display is ready for one frame.
    RedrawRequested,
    /// The batch of pending events is exhausted.
    MainEventsCleared,
    Other,
}

/// What the embedding application must do with an event.
#[derive(Clone, Copy, Debug, PartialEq, Eq)]
pub enum Action {
    /// Terminate the event loop.
    Exit,
    /// Acquire an image and hand the outcome to `FrameLoop::redraw`.
    RenderFrame,
    /// Reconfigure the surface with the state's current configuration.
    Reconfigure,
    /// Ask the window for one more redraw.
    RequestRedraw,
    /// Nothing to carry out.
    Nothing,
}

/// The events that terminate the loop: a close request, or the Escape
/// key going down.
pub open spec fn is_exit_event(e: Event) -> bool {
    ||| e == Event::Window(WindowEvent::CloseRequested)
    ||| e matches Event::Window(
        WindowEvent::KeyboardInput { state: KeyState::Pressed, key: Some(Key::Escape) },
    )
}

/// The renderer's state after one event: only a resize (or scale change)
/// touches it, under the rules of `State::resize_spec`.
pub open spec fn event_step(s: State, e: Event) -> State {
    match e {
        Event::Window(WindowEvent::Resized { width, height }) => s.resize_spec(width, height),
        Event::Window(
            WindowEvent::ScaleFactorChanged { width, height },
        ) => s.resize_spec(width, height),
        _ => s,
    }
}

/// The action one event calls for.
pub open spec fn event_action(s: State, e: Event) -> Action {
    if is_exit_event(e) {
        Action::Exit
    } else {
        match e {
            Event::Window(WindowEvent::Resized { width, height }) => if State::resize_reconfigures(
                width,
                height,
            ) {
                Action::Reconfigure
            } else {
                Action::Nothing
            },
            Event::Window(WindowEvent::ScaleFactorChanged { width, height }) => if State::resize_reconfigures(
                width,
                height,
            ) {
                Action::Reconfigure
            } else {
                Action::Nothing
            },
            Event::Window(_) => Action::Nothing,
            Event::RedrawRequested => Action::RenderFrame,
            Event::MainEventsCleared => Action::RequestRedraw,
            Event::Other => Action::Nothing,
        }
    }
}

/// The renderer's state after a whole batch: the events folded through
/// `event_step`, stopping at the first exit event (an exit event itself
/// touches no state, and the rest of the batch is dropped).
pub open spec fn batch_step(s: State, events: Seq<Event>) -> State
    decreases events.len(),
{
    if events.len() == 0 {
        s
    } else if is_exit_event(events[0]) {
        s
    } else {
        batch_step(event_step(s, events[0]), events.skip(1))
    }
}

/// The actions a whole batch calls for: each event's `event_action` up
/// to and including the first exit event, and the unconditional closing
/// redraw request.
pub open spec fn batch_actions(s: State, events: Seq<Event>) -> Seq<Action>
    decreases events.len(),
{
    if events.len() == 0 {
        seq![Action::RequestRedraw]
    } else if is_exit_event(events[0]) {
        seq![event_action(s, events[0]), Action::RequestRedraw]
    } else {
        seq![event_action(s, events[0])] + batch_actions(event_step(s, events[0]), events.skip(1))
    }
}

/// The loop around the renderer: its state, and whether the loop is
/// still to run. Once `running` is false no further event or frame is
/// processed.
pub struct FrameLoop {
    pub state: State,
    pub running: bool,
}

impl FrameLoop {
    pub open spec fn wf(self) -> bool {
        self.state.wf()
    }

    /// Enter the loop with a freshly built renderer.
    pub fn start(state: State) -> (fl: FrameLoop)
        requires
            state.wf(),
        ensures
            fl.wf(),
            fl.running,
            fl.state == state,
    {
        FrameLoop { state, running: true }
    }

    /// Dispatch one event. The input-classification hook runs first and
    /// may consume the event; the close/Escape exits, the resize rules,
    /// the per-frame update and the end-of-batch redraw request follow
    /// for whatever it leaves unconsumed.
    pub fn handle_event(&mut self, event: &Event) -> (a: Action)
        requires
            old(self).wf(),
            old(self).running,
        ensures
            final(self).wf(),
            final(self).state == event_step(old(self).state, *event),
            a == event_action(old(self).state, *event),
            final(self).running == !is_exit_event(*event),
            (a == Action::Exit) <==> is_exit_event(*event),
            (a == Action::RequestRedraw) <==> *event == Event::MainEventsCleared,
            (a == Action::RenderFrame) <==> *event == Event::RedrawRequested,
    {
        match event {
            Event::Window(we) => {
                let consumed = self.state.input(we);
                if consumed {
                    Action::Nothing
                } else {
                    match we {
                        WindowEvent::CloseRequested => {
                            self.running = false;
                            Action::Exit
                        },
                        WindowEvent::KeyboardInput {
                            state: KeyState::Pressed,
                            key: Some(Key::Escape),
                        } => {
                            self.running = false;
                            Action::Exit
                        },
                        WindowEvent::KeyboardInput { .. } => Action::Nothing,
                        WindowEvent::Resized { width, height } => {
                            if self.state.resize(*width, *height) {
                                Action::Reconfigure
                            } else {
                                Action::Nothing
                            }
                        },
                        WindowEvent::ScaleFactorChanged { width, height } => {
                            if self.state.resize(*width, *height) {
                                Action::Reconfigure
                            } else {
                                Action::Nothing
                            }
                        },
                        WindowEvent::Other => Action::Nothing,
                    }
                }
            },
            Event::RedrawRequested => {
                self.state.update();
                Action::RenderFrame
            },
            Event::MainEventsCleared => Action::RequestRedraw,
            Event::Other => Action::Nothing,
        }
    }

    /// One redraw tick, given the acquisition's outcome. The decision
    /// follows `State::render_decision`; memory exhaustion is fatal and
    /// stops the loop, and nothing stored changes, so a lost surface is
    /// reconfigured at its pre-failure size.
    pub fn redraw(&mut self, outcome: AcquireOutcome) -> (d: FrameDecision)
        requires
            old(self).wf(),
            old(self).running,
        ensures
            final(self).wf(),
            final(self).state == old(self).state,
            d == State::render_decision(outcome),
            final(self).running == (outcome != AcquireOutcome::OutOfMemory),
            (d == FrameDecision::Draw) <==> outcome == AcquireOutcome::Acquired,
            (d == FrameDecision::Reconfigure) <==> outcome == AcquireOutcome::Lost,
            (d == FrameDecision::Exit) <==> outcome == AcquireOutcome::OutOfMemory,
    {
        let d = self.state.render(outcome);
        match d {
            FrameDecision::Exit => {
                self.running = false;
            },
            _ => {},
        }
        d
    }

    /// Process one batch of OS events in order, then the end-of-batch
    /// step, which asks for the next redraw unconditionally: the cadence
    /// is continuous, not demand-driven, so every batch ends in exactly
    /// one redraw request, whatever the batch held. Once an event exits
    /// the loop, the rest of the batch is dropped. The state is folded
    /// through `event_step`, and the returned actions are exactly those
    /// of `batch_actions`.
    pub fn process_batch(&mut self, events: &Vec<Event>) -> (actions: Vec<Action>)
        requires
            old(self).wf(),
            old(self).running,
            forall|i: int| 0 <= i < events@.len() ==> events@[i] != Event::MainEventsCleared,
        ensures
            final(self).wf(),
            final(self).state == batch_step(old(self).state, events@),
            actions@ == batch_actions(old(self).state, events@),
            count_where(actions@, |a: Action| a == Action::RequestRedraw) == 1,
            actions@.len() > 0,
            actions@.last() == Action::RequestRedraw,
            final(self).running <==> (forall|i: int|
                0 <= i < events@.len() ==> !is_exit_event(events@[i])),
    {
        let ghost start: FrameLoop = *self;
        let mut actions: Vec<Action> = Vec::new();
        let mut idx: usize = 0;
        proof {
            assert(events@.skip(0) =~= events@);
            assert(actions@ + batch_actions(self.state, events@) =~= batch_actions(
                self.state,
                events@,
            ));
        }
        while idx < events.len()
            invariant
                self.wf(),
                idx <= events@.len(),
                forall|i: int| 0 <= i < events@.len() ==> events@[i] != Event::MainEventsCleared,
                count_where(actions@, |a: Action| a == Action::RequestRedraw) == 0,
                self.running <==> (forall|i: int| 0 <= i < idx ==> !is_exit_event(events@[i])),
                self.running ==> batch_step(start.state, events@) == batch_step(
                    self.state,
                    events@.skip(idx as int),
                ),
                self.running ==> batch_actions(start.state, events@) == actions@ + batch_actions(
                    self.state,
                    events@.skip(idx as int),
                ),
                !self.running ==> batch_step(start.state, events@) == self.state,
                !self.running ==> batch_actions(start.state, events@) == actions@ + seq![
                    Action::RequestRedraw,
                ],
            decreases events@.len() - idx,
        {
            if self.running {
                let ghost pre: FrameLoop = *self;
                let ghost acts_pre = actions@;
                let ghost rest = events@.skip(idx as int);
                let e = events[idx];
                let a = self.handle_event(&e);
                proof {
                    lemma_count_where_push(acts_pre, |a: Action| a == Action::RequestRedraw, a);
                    assert(rest[0] == events@[idx as int]);
                    assert(rest.skip(1) =~= events@.skip(idx as int + 1));
                    if is_exit_event(events@[idx as int]) {
                        assert(batch_step(pre.state, rest) == pre.state);
                        assert(batch_actions(start.state, events@) =~= (acts_pre + seq![a]) + seq![
                            Action::RequestRedraw,
                        ]);
                    } else {
                        assert(batch_step(pre.state, rest) == batch_step(
                            event_step(pre.state, rest[0]),
                            rest.skip(1),
                        ));
                        assert(batch_actions(start.state, events@) =~= (acts_pre + seq![a])
                            + batch_actions(self.state, events@.skip(idx as int + 1)));
                    }
                    assert(acts_pre.push(a) =~= acts_pre + seq![a]);
                }
                actions.push(a);
            }
            idx += 1;
        }
        proof {
            assert(events@.skip(events@.len() as int) =~= Seq::<Event>::empty());
            lemma_count_where_push(
                actions@,
                |a: Action| a == Action::RequestRedraw,
                Action::RequestRedraw,
            );
            assert(actions@.push(Action::RequestRedraw) =~= actions@ + seq![Action::RequestRedraw]);
        }
        actions.push(Action::RequestRedraw);
        actions
    }
}

/// Escape-to-exit: the Escape key going down terminates the loop; the
/// same key coming up does not.
pub proof fn lemma_escape_to_exit(s: State)
    ensures
        event_action(
            s,
            Event::Window(
                WindowEvent::KeyboardInput { state: KeyState::Pressed, key: Some(Key::Escape) },
            ),
        ) == Action::Exit,
        event_action(
            s,
            Event::Window(
                WindowEvent::KeyboardInput { state: KeyState::Released, key: Some(Key::Escape) },
            ),
        ) != Action::Exit,
{
}

} // verus!


