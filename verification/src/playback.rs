//! Timing an animation: how long each frame stays, and what a player does next.
//!
//! The player itself neither prints nor sleeps. It is asked, step by step,
//! what to do; whoever drives it performs the action and asks again.

use vstd::prelude::*;

verus! {

/// The shortest time, in milliseconds, that a frame is left on screen.
pub const MIN_FRAME_DELAY_MS: u64 = 20;

/// A delay given as a fraction of milliseconds, in whole milliseconds.
pub open spec fn delay_millis(numer: int, denom: int) -> int
    recommends
        denom > 0,
{
    numer / denom
}

/// Computes a frame's declared delay in whole milliseconds.
pub fn frame_delay_ms(numer: u32, denom: u32) -> (millis: u64)
    requires
        denom > 0,
    ensures
        millis == delay_millis(numer as int, denom as int),
{
    numer as u64 / denom as u64
}

/// The delay that is applied: the declared one, but not less than the floor.
pub open spec fn effective_delay(declared: int, floor: int) -> int {
    if declared < floor {
        floor
    } else {
        declared
    }
}

/// Computes the delay that is applied for a declared delay.
pub fn effective_delay_ms(declared: u64, floor: u64) -> (millis: u64)
    ensures
        millis == effective_delay(declared as int, floor as int),
        millis >= floor,
        millis >= declared,
{
    if declared < floor {
        floor
    } else {
        declared
    }
}

/// What the driver of a player is to do next.
#[derive(Clone, Copy, Debug, PartialEq, Eq)]
pub enum Action {
    /// Clear the screen and move the cursor to the top left.
    Clear,
    /// Move the cursor to the top left, print frame `frame`, flush, and
    /// wait `millis` milliseconds.
    Show { frame: usize, millis: u64 },
    /// A pass has ended and the next one begins.
    Rewind,
    /// Playback is over.
    Finish,
}

/// Where a player stands.
#[derive(Clone, Copy, Debug, PartialEq, Eq)]
pub enum Phase {
    /// Nothing has been done yet.
    Start,
    /// Frame `frame` is the next to be shown.
    At { frame: usize },
    /// The last frame of a pass has been shown and another pass follows.
    PassEnd,
    /// Playback is over.
    Done,
}

/// The state of a player as plain values.
pub struct PlayerState {
    pub delays: Seq<u64>,
    pub looping: bool,
    pub floor_ms: u64,
    pub phase: Phase,
}

impl PlayerState {
    /// There is at least one frame, and a frame to be shown is one of them.
    pub open spec fn wf(self) -> bool {
        &&& self.delays.len() > 0
        &&& self.delays.len() <= usize::MAX
        &&& (self.phase matches Phase::At { frame } ==> frame < self.delays.len())
    }

    /// The action that is due in this state.
    pub open spec fn action(self) -> Action {
        match self.phase {
            Phase::Start => Action::Clear,
            Phase::At { frame } => Action::Show {
                frame,
                millis: effective_delay(self.delays[frame as int] as int, self.floor_ms as int) as u64,
            },
            Phase::PassEnd => Action::Rewind,
            Phase::Done => Action::Finish,
        }
    }

    /// The phase that follows once the due action has been taken.
    pub open spec fn next_phase(self) -> Phase {
        match self.phase {
            Phase::Start => Phase::At { frame: 0 },
            Phase::At { frame } => if frame + 1 < self.delays.len() {
                Phase::At { frame: (frame + 1) as usize }
            } else if self.looping {
                Phase::PassEnd
            } else {
                Phase::Done
            },
            Phase::PassEnd => Phase::At { frame: 0 },
            Phase::Done => Phase::Done,
        }
    }

    /// The state that follows once the due action has been taken.
    pub open spec fn advance(self) -> PlayerState {
        PlayerState { phase: self.next_phase(), ..self }
    }

    /// The state after `steps` actions.
    pub open spec fn after(self, steps: nat) -> PlayerState
        decreases steps,
    {
        if steps == 0 {
            self
        } else {
            self.after((steps - 1) as nat).advance()
        }
    }
}

/// Taking steps changes nothing but the phase, and keeps the state well formed.
pub proof fn lemma_steps_keep_schedule(state: PlayerState, steps: nat)
    requires
        state.wf(),
    ensures
        state.after(steps).wf(),
        state.after(steps).delays == state.delays,
        state.after(steps).looping == state.looping,
        state.after(steps).floor_ms == state.floor_ms,
    decreases steps,
{
    if steps > 0 {
        lemma_steps_keep_schedule(state, (steps - 1) as nat);
    }
}

/// From the start, the first action clears the screen, and the actions after
/// it show the frames in order, one each, each for its declared delay or for
/// the floor where the declared delay is shorter.
pub proof fn lemma_first_pass(state: PlayerState, frame: nat)
    requires
        state.wf(),
        state.phase == Phase::Start,
        frame < state.delays.len(),
    ensures
        state.action() == Action::Clear,
        state.after(frame + 1).phase == (Phase::At { frame: frame as usize }),
        state.after(frame + 1).action() == (Action::Show {
            frame: frame as usize,
            millis: effective_delay(state.delays[frame as int] as int, state.floor_ms as int) as u64,
        }),
    decreases frame,
{
    lemma_steps_keep_schedule(state, frame + 1);
    if frame == 0 {
        assert(state.after(1) == state.after(0).advance());
    } else {
        lemma_first_pass(state, (frame - 1) as nat);
        lemma_steps_keep_schedule(state, frame);
        assert(state.after(frame + 1) == state.after(frame).advance());
    }
}

/// Without looping, playback is over once every frame has been shown once,
/// and it stays over.
pub proof fn lemma_single_pass_ends(state: PlayerState, steps: nat)
    requires
        state.wf(),
        state.phase == Phase::Start,
        !state.looping,
        steps > state.delays.len(),
    ensures
        state.after(steps).phase == Phase::Done,
        state.after(steps).action() == Action::Finish,
    decreases steps,
{
    let count = state.delays.len();
    lemma_steps_keep_schedule(state, (steps - 1) as nat);
    if steps == count + 1 {
        lemma_first_pass(state, (count - 1) as nat);
    } else {
        lemma_single_pass_ends(state, (steps - 1) as nat);
    }
    assert(state.after(steps) == state.after((steps - 1) as nat).advance());
}

/// With looping, playback is never over.
pub proof fn lemma_looping_never_ends(state: PlayerState, steps: nat)
    requires
        state.wf(),
        state.phase != Phase::Done,
        state.looping,
    ensures
        state.after(steps).phase != Phase::Done,
        state.after(steps).action() != Action::Finish,
    decreases steps,
{
    if steps > 0 {
        lemma_looping_never_ends(state, (steps - 1) as nat);
        lemma_steps_keep_schedule(state, (steps - 1) as nat);
    }
}

/// Whatever the declared delay, the delay of a frame that is shown is the
/// longer of the declared delay and the floor.
pub proof fn lemma_shown_delay_floored(state: PlayerState)
    requires
        state.wf(),
        state.phase is At,
    ensures
        state.action() matches Action::Show { frame, millis } && millis >= state.floor_ms && millis
            >= state.delays[frame as int] && (millis == state.floor_ms || millis
            == state.delays[frame as int]),
{
}

/// The text of one frame together with the delay that it declares, in
/// milliseconds.
#[derive(Debug)]
pub struct RenderedFrame {
    pub text: String,
    pub delay_ms: u64,
}

/// The declared delays of a sequence of frames, in order.
pub open spec fn delays_of(frames: Seq<RenderedFrame>) -> Seq<u64> {
    Seq::new(frames.len(), |i: int| frames[i].delay_ms)
}

/// A player for the frames of one animation.
#[derive(Debug)]
pub struct Playback {
    pub frames: Vec<RenderedFrame>,
    pub looping: bool,
    pub floor_ms: u64,
    pub phase: Phase,
}

impl View for Playback {
    type V = PlayerState;

    open spec fn view(&self) -> PlayerState {
        PlayerState {
            delays: delays_of(self.frames@),
            looping: self.looping,
            floor_ms: self.floor_ms,
            phase: self.phase,
        }
    }
}

impl Playback {
    /// A player at its start for the given frames, or `None` when there
    /// are no frames.
    pub fn new(frames: Vec<RenderedFrame>, looping: bool, floor_ms: u64) -> (made: Option<Playback>)
        ensures
            frames@.len() == 0 ==> made is None,
            frames@.len() > 0 ==> made == Some(
                Playback { frames, looping, floor_ms, phase: Phase::Start },
            ),
            made matches Some(player) ==> player@.wf() && player@.phase == Phase::Start,
    {
        if frames.len() == 0 {
            None
        } else {
            Some(Playback { frames, looping, floor_ms, phase: Phase::Start })
        }
    }

    /// Says what is to be done next, and moves on. The frames stay as they are.
    pub fn step(&mut self) -> (action: Action)
        requires
            old(self)@.wf(),
        ensures
            action == old(self)@.action(),
            final(self)@ == old(self)@.advance(),
            final(self)@.wf(),
            final(self).frames == old(self).frames,
    {
        match self.phase {
            Phase::Start => {
                self.phase = Phase::At { frame: 0 };
                Action::Clear
            },
            Phase::At { frame } => {
                let millis = effective_delay_ms(self.frames[frame].delay_ms, self.floor_ms);
                if frame + 1 < self.frames.len() {
                    self.phase = Phase::At { frame: frame + 1 };
                } else if self.looping {
                    self.phase = Phase::PassEnd;
                } else {
                    self.phase = Phase::Done;
                }
                Action::Show { frame, millis }
            },
            Phase::PassEnd => {
                self.phase = Phase::At { frame: 0 };
                Action::Rewind
            },
            Phase::Done => Action::Finish,
        }
    }

    /// The text of frame `frame`.
    pub fn text(&self, frame: usize) -> (text: &String)
        requires
            frame < self.frames@.len(),
        ensures
            *text == self.frames@[frame as int].text,
    {
        &self.frames[frame].text
    }
}

} // verus!
