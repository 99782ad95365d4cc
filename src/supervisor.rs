use vstd::prelude::*;

verus! {

/// Pause before a new association attempt, after a failed attempt or a
/// lost association, in milliseconds.
pub const RECONNECT_COOLDOWN_MS: u64 = 5000;

/// Where the station stands in its association lifecycle.
#[derive(Clone, Copy, Debug, PartialEq, Eq, Structural)]
pub enum ConnectionState {
    Idle,
    Starting,
    Scanning,
    Connecting,
    Connected,
}

/// What the radio driver and the timers report back to the supervisor.
#[derive(Clone, Copy, Debug, PartialEq, Eq, Structural)]
pub enum Event {
    /// The supervisor is asked for its next action without news.
    Resume,
    /// Answer to `Action::QueryStarted`; a failed query counts as not started.
    StartedQueried { started: bool },
    /// The radio was configured and started, or the start failed.
    RadioStarted { ok: bool },
    /// A scan ended; its outcome only feeds the log.
    ScanFinished { ok: bool },
    /// An association attempt ended.
    ConnectFinished { ok: bool },
    /// The driver reported the loss of the association.
    Disconnected,
    /// A sleep ended after `elapsed_ms` milliseconds.
    Slept { elapsed_ms: u64 },
}

/// What the supervisor asks the surrounding program to do next.
#[derive(Clone, Copy, Debug, PartialEq, Eq, Structural)]
pub enum Action {
    /// Ask the driver whether the radio is started.
    QueryStarted,
    /// Apply the station credentials and start the radio.
    ConfigureAndStart,
    /// Scan for access points.
    Scan { show_hidden: bool },
    /// Attempt to associate with the configured network.
    Connect,
    /// Suspend until the driver reports a disconnection.
    AwaitDisconnect,
    /// Sleep for `ms` milliseconds, then report `Event::Slept`.
    Sleep { ms: u64 },
    /// Starting the radio failed: the task stops for good.
    Halt,
}

/// The Wi-Fi connection supervisor: the only writer of the connection state.
#[derive(Clone, Copy, Debug, PartialEq, Eq, Structural)]
pub struct Supervisor {
    pub state: ConnectionState,
    /// Milliseconds of cooldown still to sleep before the next attempt.
    pub cooldown_ms: u64,
    /// Set once a radio start failed; nothing happens afterwards.
    pub halted: bool,
}

/// The edges of the normal lifecycle; `Starting -> Connecting` is taken when
/// the radio was already started.
pub open spec fn lifecycle_edge(from: ConnectionState, to: ConnectionState) -> bool {
    match (from, to) {
        (ConnectionState::Idle, ConnectionState::Starting) => true,
        (ConnectionState::Starting, ConnectionState::Scanning) => true,
        (ConnectionState::Starting, ConnectionState::Connecting) => true,
        (ConnectionState::Scanning, ConnectionState::Connecting) => true,
        (ConnectionState::Connecting, ConnectionState::Connected) => true,
        (ConnectionState::Connected, ConnectionState::Idle) => true,
        _ => false,
    }
}

/// A cooldown is only pending while idle, and a supervisor that halted did so
/// while starting the radio.
pub open spec fn supervisor_wf(s: Supervisor) -> bool {
    &&& s.cooldown_ms > 0 ==> s.state == ConnectionState::Idle
    &&& s.halted ==> s.state == ConnectionState::Starting
}

/// The action that carries on from `state` once no cooldown is left.
pub open spec fn resume_action(state: ConnectionState) -> Action {
    match state {
        ConnectionState::Idle => Action::QueryStarted,
        ConnectionState::Starting => Action::QueryStarted,
        ConnectionState::Scanning => Action::Scan { show_hidden: true },
        ConnectionState::Connecting => Action::Connect,
        ConnectionState::Connected => Action::AwaitDisconnect,
    }
}

/// Idle moves on to Starting when it resumes; every other state stays.
pub open spec fn resume_state(state: ConnectionState) -> ConnectionState {
    if state == ConnectionState::Idle {
        ConnectionState::Starting
    } else {
        state
    }
}

/// Carry on without news: finish the cooldown first, then resume.
pub open spec fn carry_on(s: Supervisor) -> (Supervisor, Action) {
    if s.halted {
        (s, Action::Halt)
    } else if s.cooldown_ms > 0 {
        (s, Action::Sleep { ms: s.cooldown_ms })
    } else {
        (Supervisor { state: resume_state(s.state), ..s }, resume_action(s.state))
    }
}

/// Enter Idle after a setback and sleep the whole cooldown.
pub open spec fn cool_down(s: Supervisor) -> (Supervisor, Action) {
    (
        Supervisor { state: ConnectionState::Idle, cooldown_ms: RECONNECT_COOLDOWN_MS, halted: false },
        Action::Sleep { ms: RECONNECT_COOLDOWN_MS },
    )
}

/// The supervisor's transition: the next supervisor and the action to take.
/// An event that does not answer the pending action is ignored.
pub open spec fn next(s: Supervisor, e: Event) -> (Supervisor, Action) {
    if s.halted {
        (s, Action::Halt)
    } else {
        match e {
            Event::Slept { elapsed_ms } => {
                let left = if elapsed_ms >= s.cooldown_ms {
                    0u64
                } else {
                    (s.cooldown_ms - elapsed_ms) as u64
                };
                carry_on(Supervisor { cooldown_ms: left, ..s })
            },
            Event::StartedQueried { started } => {
                if s.state == ConnectionState::Starting && s.cooldown_ms == 0 {
                    if started {
                        (Supervisor { state: ConnectionState::Connecting, ..s }, Action::Connect)
                    } else {
                        (s, Action::ConfigureAndStart)
                    }
                } else {
                    carry_on(s)
                }
            },
            Event::RadioStarted { ok } => {
                if s.state == ConnectionState::Starting && s.cooldown_ms == 0 {
                    if ok {
                        (
                            Supervisor { state: ConnectionState::Scanning, ..s },
                            Action::Scan { show_hidden: true },
                        )
                    } else {
                        (Supervisor { halted: true, ..s }, Action::Halt)
                    }
                } else {
                    carry_on(s)
                }
            },
            Event::ScanFinished { ok: _ } => {
                if s.state == ConnectionState::Scanning && s.cooldown_ms == 0 {
                    (Supervisor { state: ConnectionState::Connecting, ..s }, Action::Connect)
                } else {
                    carry_on(s)
                }
            },
            Event::ConnectFinished { ok } => {
                if s.state == ConnectionState::Connecting && s.cooldown_ms == 0 {
                    if ok {
                        (
                            Supervisor { state: ConnectionState::Connected, ..s },
                            Action::AwaitDisconnect,
                        )
                    } else {
                        cool_down(s)
                    }
                } else {
                    carry_on(s)
                }
            },
            Event::Disconnected => {
                if s.state == ConnectionState::Connected && s.cooldown_ms == 0 {
                    cool_down(s)
                } else {
                    carry_on(s)
                }
            },
            Event::Resume => carry_on(s),
        }
    }
}

/// The supervisor after it took every event of `es` in order.
pub open spec fn run(s: Supervisor, es: Seq<Event>) -> Supervisor
    decreases es.len(),
{
    if es.len() == 0 {
        s
    } else {
        next(run(s, es.drop_last()), es.last()).0
    }
}

/// Milliseconds that the sleeps reported in `es` took in all.
pub open spec fn slept_ms(es: Seq<Event>) -> int
    decreases es.len(),
{
    if es.len() == 0 {
        0
    } else {
        slept_ms(es.drop_last()) + elapsed_of(es.last())
    }
}

/// Milliseconds that event `e` reports as slept.
pub open spec fn elapsed_of(e: Event) -> int {
    match e {
        Event::Slept { elapsed_ms } => elapsed_ms as int,
        _ => 0,
    }
}

/// An action that starts the radio or attempts an association.
pub open spec fn is_attempt(a: Action) -> bool {
    a == Action::ConfigureAndStart || a == Action::Connect
}

/// A change of state that event `e` may cause: none, a lifecycle edge, or
/// the return to Idle after a failed association attempt.
pub open spec fn allowed_transition(from: ConnectionState, to: ConnectionState, e: Event) -> bool {
    ||| from == to
    ||| lifecycle_edge(from, to)
    ||| (from == ConnectionState::Connecting && to == ConnectionState::Idle && e
        == Event::ConnectFinished { ok: false })
}

proof fn lemma_step_transition(s: Supervisor, e: Event)
    ensures
        allowed_transition(s.state, next(s, e).0.state, e),
{
}

/// Whatever events arrive, each one moves the connection state along a
/// lifecycle edge (Idle, Starting, Scanning, Connecting, Connected, back to
/// Idle, with Scanning skipped when the radio is already started) or leaves
/// it as it is; the one other move is back to Idle after a failed attempt.
pub proof fn lemma_states_follow_lifecycle(s: Supervisor, es: Seq<Event>)
    ensures
        forall|i: int|
            0 <= i < es.len() ==> allowed_transition(
                #[trigger] run(s, es.take(i)).state,
                run(s, es.take(i + 1)).state,
                es[i],
            ),
{
    assert forall|i: int| 0 <= i < es.len() implies allowed_transition(
        #[trigger] run(s, es.take(i)).state,
        run(s, es.take(i + 1)).state,
        es[i],
    ) by {
        assert(es.take(i + 1).drop_last() =~= es.take(i));
        assert(es.take(i + 1).last() == es[i]);
        lemma_step_transition(run(s, es.take(i)), es[i]);
    }
}

proof fn lemma_step_cooldown(s: Supervisor, e: Event)
    ensures
        next(s, e).0.cooldown_ms + elapsed_of(e) >= s.cooldown_ms,
        is_attempt(next(s, e).1) ==> next(s, e).0.cooldown_ms == 0,
{
    match e {
        Event::Slept { .. } => {},
        _ => {},
    }
}

proof fn lemma_cooldown_budget(s: Supervisor, es: Seq<Event>, j: int)
    requires
        supervisor_wf(s),
        s.state == ConnectionState::Connected,
        es.len() > 0,
        es[0] == Event::Disconnected,
        1 <= j <= es.len(),
    ensures
        run(s, es.take(j)).cooldown_ms + slept_ms(es.take(j)) >= RECONNECT_COOLDOWN_MS,
    decreases j,
{
    let p = es.take(j);
    assert(p.drop_last() =~= es.take(j - 1));
    assert(p.last() == es[j - 1]);
    assert(run(s, p) == next(run(s, es.take(j - 1)), es[j - 1]).0);
    assert(slept_ms(p) == slept_ms(es.take(j - 1)) + elapsed_of(es[j - 1]));
    if j == 1 {
        assert(es.take(0) =~= Seq::<Event>::empty());
        assert(run(s, es.take(0)) == s);
        assert(slept_ms(es.take(0)) == 0);
    } else {
        lemma_cooldown_budget(s, es, j - 1);
        lemma_step_cooldown(run(s, es.take(j - 1)), es[j - 1]);
    }
}

/// After a disconnection is reported while connected, no radio start and no
/// association attempt is issued before the reported sleeps add up to the
/// whole cooldown.
pub proof fn lemma_cooldown_after_disconnect(s: Supervisor, es: Seq<Event>, i: int)
    requires
        supervisor_wf(s),
        s.state == ConnectionState::Connected,
        es.len() > 0,
        es[0] == Event::Disconnected,
        0 <= i < es.len(),
        is_attempt(next(run(s, es.take(i)), es[i]).1),
    ensures
        slept_ms(es.take(i + 1)) >= RECONNECT_COOLDOWN_MS,
{
    lemma_cooldown_budget(s, es, i + 1);
    assert(es.take(i + 1).drop_last() =~= es.take(i));
    assert(es.take(i + 1).last() == es[i]);
    lemma_step_cooldown(run(s, es.take(i)), es[i]);
}

impl Supervisor {
    /// A fresh supervisor: idle, with no cooldown pending.
    pub fn new() -> (r: Supervisor)
        ensures
            r.state == ConnectionState::Idle,
            r.cooldown_ms == 0,
            !r.halted,
            supervisor_wf(r),
    {
        Supervisor { state: ConnectionState::Idle, cooldown_ms: 0, halted: false }
    }

    /// The current connection state.
    pub fn state(&self) -> (r: ConnectionState)
        ensures
            r == self.state,
    {
        self.state
    }

    /// True once a radio start failed.
    pub fn is_halted(&self) -> (r: bool)
        ensures
            r == self.halted,
    {
        self.halted
    }

    fn carry_on(&mut self) -> (a: Action)
        ensures
            (*final(self), a) == carry_on(*old(self)),
    {
        if self.halted {
            Action::Halt
        } else if self.cooldown_ms > 0 {
            Action::Sleep { ms: self.cooldown_ms }
        } else {
            let a = match self.state {
                ConnectionState::Idle => Action::QueryStarted,
                ConnectionState::Starting => Action::QueryStarted,
                ConnectionState::Scanning => Action::Scan { show_hidden: true },
                ConnectionState::Connecting => Action::Connect,
                ConnectionState::Connected => Action::AwaitDisconnect,
            };
            if self.state == ConnectionState::Idle {
                self.state = ConnectionState::Starting;
            }
            a
        }
    }

    fn cool_down(&mut self) -> (a: Action)
        ensures
            (*final(self), a) == cool_down(*old(self)),
    {
        self.state = ConnectionState::Idle;
        self.cooldown_ms = RECONNECT_COOLDOWN_MS;
        self.halted = false;
        Action::Sleep { ms: RECONNECT_COOLDOWN_MS }
    }

    /// Takes one event and returns the next action, moving the supervisor
    /// exactly as `next` says.
    pub fn step(&mut self, e: Event) -> (a: Action)
        requires
            supervisor_wf(*old(self)),
        ensures
            (*final(self), a) == next(*old(self), e),
            supervisor_wf(*final(self)),
    {
        if self.halted {
            return Action::Halt;
        }
        let ready = self.cooldown_ms == 0;
        match e {
            Event::Slept { elapsed_ms } => {
                if elapsed_ms >= self.cooldown_ms {
                    self.cooldown_ms = 0;
                } else {
                    self.cooldown_ms = self.cooldown_ms - elapsed_ms;
                }
                self.carry_on()
            },
            Event::StartedQueried { started } => {
                if self.state == ConnectionState::Starting && ready {
                    if started {
                        self.state = ConnectionState::Connecting;
                        Action::Connect
                    } else {
                        Action::ConfigureAndStart
                    }
                } else {
                    self.carry_on()
                }
            },
            Event::RadioStarted { ok } => {
                if self.state == ConnectionState::Starting && ready {
                    if ok {
                        self.state = ConnectionState::Scanning;
                        Action::Scan { show_hidden: true }
                    } else {
                        self.halted = true;
                        Action::Halt
                    }
                } else {
                    self.carry_on()
                }
            },
            Event::ScanFinished { ok: _ } => {
                if self.state == ConnectionState::Scanning && ready {
                    self.state = ConnectionState::Connecting;
                    Action::Connect
                } else {
                    self.carry_on()
                }
            },
            Event::ConnectFinished { ok } => {
                if self.state == ConnectionState::Connecting && ready {
                    if ok {
                        self.state = ConnectionState::Connected;
                        Action::AwaitDisconnect
                    } else {
                        self.cool_down()
                    }
                } else {
                    self.carry_on()
                }
            },
            Event::Disconnected => {
                if self.state == ConnectionState::Connected && ready {
                    self.cool_down()
                } else {
                    self.carry_on()
                }
            },
            Event::Resume => self.carry_on(),
        }
    }
}

} // verus!
