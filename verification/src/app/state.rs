use vstd::prelude::*;

verus! {

/// Whether a text field takes keystrokes (`Edit`) or lets the dialog use them (`Normal`).
#[derive(Debug, Clone, Copy, PartialEq, Eq, Structural)]
pub enum InputMode {
    Edit,
    Normal,
}

impl Default for InputMode {
    fn default() -> (r: Self)
        ensures
            r == InputMode::Normal,
    {
        InputMode::Normal
    }
}

impl InputMode {
    /// The other mode.
    pub open spec fn toggled(self) -> InputMode {
        match self {
            InputMode::Edit => InputMode::Normal,
            InputMode::Normal => InputMode::Edit,
        }
    }

    /// Switches between the two modes.
    pub fn next(&mut self)
        ensures
            *final(self) == old(self).toggled(),
    {
        match *self {
            InputMode::Edit => {
                *self = InputMode::Normal;
            },
            InputMode::Normal => {
                *self = InputMode::Edit;
            },
        }
    }

    pub fn is_edit(&self) -> (b: bool)
        ensures
            b == (*self == InputMode::Edit),
    {
        matches!(self, InputMode::Edit)
    }

    pub fn is_normal(&self) -> (b: bool)
        ensures
            b == (*self == InputMode::Normal),
    {
        matches!(self, InputMode::Normal)
    }
}

/// Switching the mode twice gives back the mode one started with.
pub proof fn lemma_input_mode_toggle_twice(m: InputMode)
    ensures
        m.toggled().toggled() == m,
        m.toggled() != m,
{
}


/// The inner phases of a component while it runs.
///
/// A run begins at the phase `Default` gives, moves on with `next`, and is
/// over once `is_run_end` holds; `to_run_end` jumps to the end.  Every phase
/// carries a rank that `next` lowers until the end is reached, and the end
/// is a fixed point of `next`: a run therefore always ends.
pub trait State: Sized + Copy + Default {
    /// The phase a run begins in.
    spec fn initial_spec() -> Self;

    /// The phase after this one.
    spec fn next_spec(self) -> Self;

    /// Whether this phase is the end of the run.
    spec fn run_end_spec(self) -> bool;

    /// The phase that `to_run_end` leaves.
    spec fn to_run_end_spec(self) -> Self;

    /// How many calls of `next` are left before the end.
    spec fn rank(self) -> nat;

    /// `next` lowers the rank until the end, which it leaves as it is, and
    /// `to_run_end` always reaches the end.
    proof fn lemma_progress(s: Self)
        ensures
            s.run_end_spec() ==> s.next_spec() == s,
            !s.run_end_spec() ==> s.next_spec().rank() < s.rank(),
            s.to_run_end_spec().run_end_spec(),
    ;

    /// What `default` returns is the phase a run begins in.
    proof fn lemma_default_is_initial(r: Self)
        requires
            call_ensures(Self::default, (), r),
        ensures
            r == Self::initial_spec(),
    ;

    fn next(&mut self)
        ensures
            *final(self) == old(self).next_spec(),
    ;

    /// ## Check is current state is end of the run state
    fn is_run_end(&self) -> (b: bool)
        ensures
            b == self.run_end_spec(),
    ;

    fn to_run_end(&mut self)
        ensures
            *final(self) == old(self).to_run_end_spec(),
    ;
}

/// Where a terminal component stands: not yet begun, running through the
/// phases of `S`, paused after the last one, or quit.
#[derive(Debug, Clone, Copy)]
pub enum ComponentState<S: State> {
    Start,
    Run(S),
    Pause,
    Quit,
}

impl<S: State> Default for ComponentState<S> {
    fn default() -> (r: Self)
        ensures
            r is Start,
    {
        ComponentState::Start
    }
}

impl<S: State> ComponentState<S> {
    /// The state after one step: a start begins the run, a run goes to its
    /// next phase or, at its end, pauses, and a pause quits.
    pub open spec fn next_spec(self) -> Self {
        match self {
            ComponentState::Start => ComponentState::Run(S::initial_spec()),
            ComponentState::Run(r) => if r.run_end_spec() {
                ComponentState::Pause
            } else {
                ComponentState::Run(r.next_spec())
            },
            ComponentState::Pause => ComponentState::Quit,
            ComponentState::Quit => ComponentState::Quit,
        }
    }

    /// Steps left before the component quits.
    pub open spec fn steps_to_quit(self) -> nat {
        match self {
            ComponentState::Start => S::initial_spec().rank() + 3,
            ComponentState::Run(r) => r.rank() + 2,
            ComponentState::Pause => 1,
            ComponentState::Quit => 0,
        }
    }

    pub fn is_start(&self) -> (b: bool)
        ensures
            b == (*self is Start),
    {
        matches!(self, ComponentState::Start)
    }

    pub fn is_run(&self) -> (b: bool)
        ensures
            b == (*self is Run),
    {
        matches!(self, ComponentState::Run(_))
    }

    pub fn is_pause(&self) -> (b: bool)
        ensures
            b == (*self is Pause),
    {
        matches!(self, ComponentState::Pause)
    }

    pub fn is_quit(&self) -> (b: bool)
        ensures
            b == (*self is Quit),
    {
        matches!(self, ComponentState::Quit)
    }

    pub fn quit(&mut self)
        ensures
            *final(self) is Quit,
    {
        *self = ComponentState::Quit;
    }

    pub fn to_pause(&mut self)
        ensures
            *final(self) is Pause,
    {
        *self = ComponentState::Pause;
    }

    /// Moves one step on, as `next_spec` says; a start runs the phase
    /// that `S::default()` returns.
    pub fn next(&mut self)
        ensures
            *final(self) == old(self).next_spec(),
            *old(self) is Start ==> *final(self) is Run && call_ensures(S::default, (), final(self)->Run_0),
    {
        match *self {
            ComponentState::Start => {
                let d = S::default();
                proof { S::lemma_default_is_initial(d); }
                *self = ComponentState::Run(d);
            },
            ComponentState::Run(r) => {
                if r.is_run_end() {
                    *self = ComponentState::Pause;
                } else {
                    let mut r = r;
                    r.next();
                    *self = ComponentState::Run(r);
                }
            },
            ComponentState::Pause => {
                *self = ComponentState::Quit;
            },
            ComponentState::Quit => {},
        }
    }

    /// Whether the component runs and its run is at its end.
    pub fn is_run_end(&self) -> (b: bool)
        ensures
            b == (match *self {
                ComponentState::Run(r) => r.run_end_spec(),
                _ => false,
            }),
    {
        if let ComponentState::Run(r) = self {
            r.is_run_end()
        } else {
            false
        }
    }

    /// A running component jumps to the end of its run; any other is left as it is.
    pub fn to_run_end(&mut self)
        ensures
            *final(self) == (match *old(self) {
                ComponentState::Run(r) => ComponentState::Run(r.to_run_end_spec()),
                other => other,
            }),
    {
        if let ComponentState::Run(r) = *self {
            let mut r = r;
            r.to_run_end();
            *self = ComponentState::Run(r);
        }
    }
}

/// Every step of a component that has not quit brings it closer to quitting,
/// and a quit component stays quit: whatever state it is in, it quits after
/// at most `steps_to_quit` steps.  No step leads back to the start.
pub proof fn lemma_component_reaches_quit<S: State>(c: ComponentState<S>)
    ensures
        !(c.next_spec() is Start),
        !(c is Quit) ==> c.next_spec().steps_to_quit() < c.steps_to_quit(),
        c is Quit ==> c.next_spec() is Quit,
{
    if let ComponentState::Run(r) = c {
        S::lemma_progress(r);
    }
}

/// The phase reached after `n` calls of `next` from `s`.
pub open spec fn phase_after<S: State>(s: S, n: nat) -> S
    decreases n,
{
    if n == 0 {
        s
    } else {
        phase_after(s.next_spec(), (n - 1) as nat)
    }
}

/// The state of a component after `n` calls of `next` from `c`.
pub open spec fn state_after<S: State>(c: ComponentState<S>, n: nat) -> ComponentState<S>
    decreases n,
{
    if n == 0 {
        c
    } else {
        state_after(c.next_spec(), (n - 1) as nat)
    }
}

/// `a + b` steps are `a` steps, then `b` more.
proof fn lemma_state_after_add<S: State>(c: ComponentState<S>, a: nat, b: nat)
    ensures
        state_after(c, a + b) == state_after(state_after(c, a), b),
    decreases a,
{
    if a > 0 {
        lemma_state_after_add(c.next_spec(), (a - 1) as nat, b);
        assert((a + b - 1) as nat == (a - 1) as nat + b);
    }
}

/// A quit component stays quit.
proof fn lemma_quit_stays<S: State>(n: nat)
    ensures
        state_after(ComponentState::<S>::Quit, n) is Quit,
    decreases n,
{
    if n > 0 {
        lemma_quit_stays::<S>((n - 1) as nat);
    }
}

/// A run whose phase reaches its end within `j` calls has quit after `j + 2` steps.
proof fn lemma_run_quits<S: State>(r: S, j: nat)
    requires
        phase_after(r, j).run_end_spec(),
    ensures
        state_after(ComponentState::Run(r), j + 2) is Quit,
    decreases j,
{
    let c = ComponentState::Run(r);
    if r.run_end_spec() {
        assert(c.next_spec() == ComponentState::<S>::Pause);
        assert(state_after(c, j + 2) == state_after(ComponentState::<S>::Pause, j + 1));
        assert(state_after(ComponentState::<S>::Pause, j + 1) == state_after(ComponentState::<S>::Quit, j));
        lemma_quit_stays::<S>(j);
    } else {
        assert(j > 0);
        assert(phase_after(r, j) == phase_after(r.next_spec(), (j - 1) as nat));
        lemma_run_quits(r.next_spec(), (j - 1) as nat);
        assert(c.next_spec() == ComponentState::Run(r.next_spec()));
        assert(state_after(c, j + 2) == state_after(ComponentState::Run(r.next_spec()), (j - 1 + 2) as nat));
    }
}

/// A component that starts runs the phase that `S::default()` returns.
pub proof fn lemma_start_runs_default<S: State>(d: S)
    requires
        call_ensures(S::default, (), d),
    ensures
        ComponentState::<S>::Start.next_spec() == ComponentState::Run(d),
{
    S::lemma_default_is_initial(d);
}

/// Where a run reaches its end within `k` calls of `next` from the phase
/// `S::default()` returns, a component that starts has quit after at most
/// `k + 3` steps, and stays quit however many more steps it takes.
pub proof fn lemma_quit_within<S: State>(d: S, k: nat, n: nat)
    requires
        call_ensures(S::default, (), d),
        phase_after(d, k).run_end_spec(),
        n >= k + 3,
    ensures
        state_after(ComponentState::<S>::Start, n) is Quit,
{
    S::lemma_default_is_initial(d);
    let start = ComponentState::<S>::Start;
    lemma_run_quits(d, k);
    assert(start.next_spec() == ComponentState::Run(d));
    assert(state_after(start, k + 3) == state_after(ComponentState::Run(d), k + 2));
    lemma_state_after_add(start, k + 3, (n - (k + 3)) as nat);
    lemma_quit_stays::<S>((n - (k + 3)) as nat);
}


#[derive(Clone, Copy, Debug, PartialEq, Eq, Structural)]
pub enum BaseRunState {
    Running,
}

impl Default for BaseRunState {
    fn default() -> (r: Self)
        ensures
            r == BaseRunState::Running,
            r == Self::initial_spec(),
    {
        BaseRunState::Running
    }
}

impl State for BaseRunState {
    open spec fn initial_spec() -> Self {
        BaseRunState::Running
    }

    open spec fn next_spec(self) -> Self {
        self
    }

    open spec fn run_end_spec(self) -> bool {
        true
    }

    open spec fn to_run_end_spec(self) -> Self {
        self
    }

    open spec fn rank(self) -> nat {
        0
    }

    proof fn lemma_progress(s: Self) {
    }

    proof fn lemma_default_is_initial(r: Self) {
    }

    fn next(&mut self) {
    }

    fn is_run_end(&self) -> (b: bool) {
        true
    }

    fn to_run_end(&mut self) {
    }
}

/// A component whose work is done at once starts, runs, pauses and quits
/// in exactly three steps.
pub proof fn lemma_base_run_three_steps()
    ensures
        state_after(ComponentState::<BaseRunState>::Start, 1) == ComponentState::Run(BaseRunState::Running),
        state_after(ComponentState::<BaseRunState>::Start, 2) == ComponentState::<BaseRunState>::Pause,
        state_after(ComponentState::<BaseRunState>::Start, 3) == ComponentState::<BaseRunState>::Quit,
{
    reveal_with_fuel(state_after, 4);
}

} // verus!
