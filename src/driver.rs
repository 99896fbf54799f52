use vstd::prelude::*;

verus! {

/// The lifecycle of the application driver.
#[derive(Clone, Copy, Debug, PartialEq, Eq, Structural)]
pub enum Phase {
    /// No window and no surface state yet.
    Uninitialized,
    /// The window and surface state exist; events are dispatched to them.
    Running,
    /// The loop has been asked to exit; nothing more happens.
    Stopped,
}

/// The window events that the driver tells apart.
#[derive(Clone, Copy, Debug, PartialEq, Eq, Structural)]
pub enum WindowEvent {
    CloseRequested,
    RedrawRequested,
    Resized { width: u32, height: u32 },
    /// Any other event, input included.
    Other,
}

/// A signal from the platform: the application was resumed, or a window
/// event arrived.
#[derive(Clone, Copy, Debug, PartialEq, Eq, Structural)]
pub enum Signal {
    Resumed,
    Window(WindowEvent),
}

/// What the driver asks of the platform and of the surface state.
#[derive(Clone, Copy, Debug, PartialEq, Eq, Structural)]
pub enum Action {
    /// Create the window, build the surface state (blocking until the GPU
    /// is ready), then request a first redraw.
    Initialize,
    /// Exit the event loop.
    Exit,
    /// Render a frame, then request another redraw.
    RenderAndRedraw,
    /// Resize the surface state to this size; do not render.
    Resize { width: u32, height: u32 },
    /// Hand the event to the renderer.
    Forward,
    /// Do nothing.
    Ignore,
}

/// One step of the driver: the phase after a signal and the action it asks for.
pub open spec fn next(phase: Phase, signal: Signal) -> (Phase, Action) {
    match phase {
        Phase::Uninitialized => match signal {
            Signal::Resumed => (Phase::Running, Action::Initialize),
            Signal::Window(_) => (Phase::Uninitialized, Action::Ignore),
        },
        Phase::Running => match signal {
            Signal::Resumed => (Phase::Running, Action::Ignore),
            Signal::Window(WindowEvent::CloseRequested) => (Phase::Stopped, Action::Exit),
            Signal::Window(WindowEvent::RedrawRequested) => (Phase::Running, Action::RenderAndRedraw),
            Signal::Window(WindowEvent::Resized { width, height }) => (
                Phase::Running,
                Action::Resize { width, height },
            ),
            Signal::Window(WindowEvent::Other) => (Phase::Running, Action::Forward),
        },
        Phase::Stopped => (Phase::Stopped, Action::Ignore),
    }
}

/// The phase after the signals of `signals`, in order.
pub open spec fn phase_after(phase: Phase, signals: Seq<Signal>) -> Phase
    decreases signals.len(),
{
    if signals.len() == 0 {
        phase
    } else {
        phase_after(next(phase, signals[0]).0, signals.drop_first())
    }
}

/// The actions asked for by the signals of `signals`, one each, in order.
pub open spec fn actions(phase: Phase, signals: Seq<Signal>) -> Seq<Action>
    decreases signals.len(),
{
    if signals.len() == 0 {
        Seq::empty()
    } else {
        seq![next(phase, signals[0]).1] + actions(next(phase, signals[0]).0, signals.drop_first())
    }
}

/// The application driver: it owns the lifecycle phase and turns each
/// platform signal into one action.
pub struct App {
    pub phase: Phase,
}

impl App {
    /// A driver that has not been resumed yet.
    pub fn new() -> (r: App)
        ensures
            r.phase == Phase::Uninitialized,
    {
        App { phase: Phase::Uninitialized }
    }

    fn step(&mut self, signal: Signal) -> (r: Action)
        ensures
            (final(self).phase, r) == next(old(self).phase, signal),
    {
        let (phase, action) = match self.phase {
            Phase::Uninitialized => match signal {
                Signal::Resumed => (Phase::Running, Action::Initialize),
                Signal::Window(_) => (Phase::Uninitialized, Action::Ignore),
            },
            Phase::Running => match signal {
                Signal::Resumed => (Phase::Running, Action::Ignore),
                Signal::Window(WindowEvent::CloseRequested) => (Phase::Stopped, Action::Exit),
                Signal::Window(WindowEvent::RedrawRequested) => (
                    Phase::Running,
                    Action::RenderAndRedraw,
                ),
                Signal::Window(WindowEvent::Resized { width, height }) => (
                    Phase::Running,
                    Action::Resize { width, height },
                ),
                Signal::Window(WindowEvent::Other) => (Phase::Running, Action::Forward),
            },
            Phase::Stopped => (Phase::Stopped, Action::Ignore),
        };
        self.phase = phase;
        action
    }

    /// The platform resumed the application: the first time, the window and
    /// the surface state are to be made; after that, nothing.
    pub fn resumed(&mut self) -> (r: Action)
        ensures
            (final(self).phase, r) == next(old(self).phase, Signal::Resumed),
    {
        self.step(Signal::Resumed)
    }

    /// A window event arrived: close stops the loop, a redraw request
    /// renders and asks for the next one, a resize resizes, and any other
    /// event goes to the renderer; only while running.
    pub fn window_event(&mut self, event: WindowEvent) -> (r: Action)
        ensures
            (final(self).phase, r) == next(old(self).phase, Signal::Window(event)),
    {
        self.step(Signal::Window(event))
    }
}

/// Once stopped, the driver stays stopped and asks for nothing, whatever
/// signals follow.
pub proof fn lemma_stopped_is_final(signals: Seq<Signal>)
    ensures
        phase_after(Phase::Stopped, signals) == Phase::Stopped,
        forall|i: int|
            0 <= i < signals.len() ==> #[trigger] actions(Phase::Stopped, signals)[i]
                == Action::Ignore,
        actions(Phase::Stopped, signals).len() == signals.len(),
    decreases signals.len(),
{
    if signals.len() > 0 {
        lemma_stopped_is_final(signals.drop_first());
        let rest = actions(Phase::Stopped, signals.drop_first());
        assert forall|i: int| 0 <= i < signals.len() implies #[trigger] actions(
            Phase::Stopped,
            signals,
        )[i] == Action::Ignore by {
            if i > 0 {
                assert(actions(Phase::Stopped, signals)[i] == rest[i - 1]);
            }
        }
    }
}

/// A close request while running stops the driver: it asks to exit, and
/// no signal after that leads to a render.
pub proof fn lemma_close_stops_rendering(rest: Seq<Signal>)
    ensures
        phase_after(Phase::Running, seq![Signal::Window(WindowEvent::CloseRequested)] + rest)
            == Phase::Stopped,
        actions(Phase::Running, seq![Signal::Window(WindowEvent::CloseRequested)] + rest)[0]
            == Action::Exit,
        forall|i: int|
            0 <= i < 1 + rest.len() ==> #[trigger] actions(
                Phase::Running,
                seq![Signal::Window(WindowEvent::CloseRequested)] + rest,
            )[i] != Action::RenderAndRedraw,
{
    let s = seq![Signal::Window(WindowEvent::CloseRequested)] + rest;
    assert(s[0] == Signal::Window(WindowEvent::CloseRequested));
    assert(s.drop_first() =~= rest);
    lemma_stopped_is_final(rest);
    assert forall|i: int| 0 <= i < 1 + rest.len() implies #[trigger] actions(Phase::Running, s)[i]
        != Action::RenderAndRedraw by {
        if i > 0 {
            assert(actions(Phase::Running, s)[i] == actions(Phase::Stopped, rest)[i - 1]);
        }
    }
}

/// Only a running driver renders: before the first resume nothing is
/// drawn, and a render is asked for exactly on a redraw request.
pub proof fn lemma_render_only_on_redraw(phase: Phase, signal: Signal)
    ensures
        next(phase, signal).1 == Action::RenderAndRedraw <==> (phase == Phase::Running && signal
            == Signal::Window(WindowEvent::RedrawRequested)),
{
}

} // verus!
