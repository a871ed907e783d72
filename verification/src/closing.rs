//! How a socket closes, and how it reconnects unless it is closed.
use vstd::prelude::*;
use crate::errors::Error;

verus! {

/// Whether a socket is closed. Once closed, it stays closed.
#[derive(Debug, Clone, Copy, PartialEq, Eq, Structural)]
pub struct Closing {
    pub closed: bool,
}

/// What closing a socket has done, in this order.
#[derive(Debug, Clone, Copy, PartialEq, Eq, Structural)]
pub enum CloseStep {
    /// Refuse every write from now on.
    MarkClosed,
    /// Shut down both directions of the socket, without waiting for a read or
    /// a write in progress.
    ShutDown,
    /// Wake the writes that wait on their gates.
    WakeWaiting,
}

/// The steps of a close: writes are refused first, so that one that the
/// shutdown ends or the wake-up wakes finds the socket closed.
pub open spec fn close_steps() -> Seq<CloseStep> {
    seq![CloseStep::MarkClosed, CloseStep::ShutDown, CloseStep::WakeWaiting]
}

impl Closing {
    /// A socket that is open.
    pub fn new() -> (state: Closing)
        ensures
            !state.closed,
    {
        Closing { closed: false }
    }

    /// Whether the socket is closed.
    pub fn is_closed(&self) -> (closed: bool)
        ensures
            closed == self.closed,
    {
        self.closed
    }

    /// The state after one step of a close.
    pub open spec fn after(self, step: CloseStep) -> Closing {
        match step {
            CloseStep::MarkClosed => Closing { closed: true },
            _ => self,
        }
    }

    /// Take one step of a close; the rest of the step is the caller's.
    pub fn take(&mut self, step: CloseStep)
        ensures
            *final(self) == old(self).after(step),
    {
        match step {
            CloseStep::MarkClosed => {
                self.closed = true;
            },
            _ => {},
        }
    }

    /// The steps of a close, in order. A second close takes them all again.
    pub fn shutdown() -> (steps: Vec<CloseStep>)
        ensures
            steps@ == close_steps(),
    {
        vec![CloseStep::MarkClosed, CloseStep::ShutDown, CloseStep::WakeWaiting]
    }
}

/// The state after several steps.
pub open spec fn closing_after(state: Closing, steps: Seq<CloseStep>) -> Closing
    decreases steps.len(),
{
    if steps.len() == 0 {
        state
    } else {
        closing_after(state, steps.drop_last()).after(steps.last())
    }
}

/// A socket that is closed stays closed.
pub proof fn a_closed_socket_stays_closed(state: Closing, steps: Seq<CloseStep>)
    requires
        state.closed,
    ensures
        closing_after(state, steps) == state,
    decreases steps.len(),
{
    if steps.len() > 0 {
        a_closed_socket_stays_closed(state, steps.drop_last());
    }
}

/// A close closes the socket, and does so before it shuts it down or wakes
/// anyone. A second close changes nothing.
pub proof fn a_close_is_for_good(state: Closing, n: int)
    requires
        0 < n <= close_steps().len(),
    ensures
        closing_after(state, close_steps().take(n)).closed,
        closing_after(closing_after(state, close_steps()), close_steps()) == closing_after(
            state,
            close_steps(),
        ),
{
    a_started_close_has_closed(state, close_steps().len() as int);
    assert(close_steps().take(close_steps().len() as int) == close_steps());
    a_started_close_has_closed(state, n);
    a_closed_socket_stays_closed(closing_after(state, close_steps()), close_steps());
}

proof fn a_started_close_has_closed(state: Closing, n: int)
    requires
        0 < n <= close_steps().len(),
    ensures
        closing_after(state, close_steps().take(n)).closed,
    decreases n,
{
    let steps = close_steps().take(n);
    assert(steps.drop_last() == close_steps().take(n - 1));
    if n > 1 {
        a_started_close_has_closed(state, n - 1);
    }
}

/// What a reconnect has to have done next.
#[derive(Debug, Clone, Copy, PartialEq, Eq)]
pub enum ReconnectAction {
    /// Look whether the socket is closed.
    Look,
    /// Open a new connection.
    Open,
    /// Put the new connection in the place of the old one, and then look
    /// whether the socket is closed.
    Install,
    /// Shut down the new connection.
    ShutDown,
    /// The reconnect has ended.
    End(Result<(), Error>),
}

/// What came of it.
#[derive(Debug, Clone, Copy, PartialEq, Eq, Structural)]
pub enum ReconnectEvent {
    /// The socket was looked at.
    Looked {
        closed: bool,
    },
    /// A new connection is open.
    Opened,
    /// No new connection could be opened.
    OpenFailed,
    /// The new connection is in place, and the socket was looked at after
    /// that.
    Installed {
        closed: bool,
    },
    /// A lock that guards the old connection was poisoned.
    InstallFailed,
    /// The new connection was shut down.
    ShutDown,
}

/// One reconnect of a socket.
#[derive(Debug, Clone, Copy, PartialEq, Eq)]
pub struct Reconnect {
    /// What has to be done next.
    pub action: ReconnectAction,
}

/// A reconnect that has just begun.
pub open spec fn reconnect_begun() -> Reconnect {
    Reconnect { action: ReconnectAction::Look }
}

impl Reconnect {
    /// Whether `event` can come of the action that the reconnect has named.
    pub open spec fn expects(self, event: ReconnectEvent) -> bool {
        match event {
            ReconnectEvent::Looked { .. } => self.action is Look,
            ReconnectEvent::Opened | ReconnectEvent::OpenFailed => self.action is Open,
            ReconnectEvent::Installed { .. } | ReconnectEvent::InstallFailed => self.action
                is Install,
            ReconnectEvent::ShutDown => self.action is ShutDown,
        }
    }

    /// What the reconnect has done after `event`.
    pub open spec fn reaction(self, event: ReconnectEvent) -> ReconnectAction {
        match event {
            ReconnectEvent::Looked { closed: true } => ReconnectAction::End(Err(Error::Closed)),
            ReconnectEvent::Looked { closed: false } => ReconnectAction::Open,
            ReconnectEvent::Opened => ReconnectAction::Install,
            ReconnectEvent::OpenFailed => ReconnectAction::End(Err(Error::Io)),
            ReconnectEvent::Installed { closed: true } => ReconnectAction::ShutDown,
            ReconnectEvent::Installed { closed: false } => ReconnectAction::End(Ok(())),
            ReconnectEvent::InstallFailed => ReconnectAction::End(Err(Error::Poisoned)),
            ReconnectEvent::ShutDown => ReconnectAction::End(Err(Error::Closed)),
        }
    }

    /// The reconnect after `event`.
    pub open spec fn after(self, event: ReconnectEvent) -> Reconnect {
        Reconnect { action: self.reaction(event) }
    }

    /// Begin a reconnect.
    pub fn new() -> (reconnect: Reconnect)
        ensures
            reconnect == reconnect_begun(),
    {
        Reconnect { action: ReconnectAction::Look }
    }

    /// Whether `event` can come of the action that the reconnect has named.
    pub fn can_take(&self, event: &ReconnectEvent) -> (fits: bool)
        ensures
            fits == self.expects(*event),
    {
        match (self.action, *event) {
            (ReconnectAction::Look, ReconnectEvent::Looked { .. }) => true,
            (ReconnectAction::Open, ReconnectEvent::Opened) => true,
            (ReconnectAction::Open, ReconnectEvent::OpenFailed) => true,
            (ReconnectAction::Install, ReconnectEvent::Installed { .. }) => true,
            (ReconnectAction::Install, ReconnectEvent::InstallFailed) => true,
            (ReconnectAction::ShutDown, ReconnectEvent::ShutDown) => true,
            _ => false,
        }
    }

    /// Take what came of the action that the reconnect has named, and name
    /// the next one.
    pub fn step(&mut self, event: ReconnectEvent) -> (next: ReconnectAction)
        requires
            old(self).expects(event),
        ensures
            *final(self) == old(self).after(event),
            next == old(self).reaction(event),
    {
        let next: ReconnectAction = match event {
            ReconnectEvent::Looked { closed } => if closed {
                ReconnectAction::End(Err(Error::Closed))
            } else {
                ReconnectAction::Open
            },
            ReconnectEvent::Opened => ReconnectAction::Install,
            ReconnectEvent::OpenFailed => ReconnectAction::End(Err(Error::Io)),
            // A close that ran while this reconnected shut down the old
            // connection: do the same to the new one rather than bring it to
            // life.
            ReconnectEvent::Installed { closed } => if closed {
                ReconnectAction::ShutDown
            } else {
                ReconnectAction::End(Ok(()))
            },
            ReconnectEvent::InstallFailed => ReconnectAction::End(Err(Error::Poisoned)),
            ReconnectEvent::ShutDown => ReconnectAction::End(Err(Error::Closed)),
        };
        self.action = next;
        next
    }
}

/// The reconnect after the events in `history`.
pub open spec fn reconnect_after(history: Seq<ReconnectEvent>) -> Reconnect
    decreases history.len(),
{
    if history.len() == 0 {
        reconnect_begun()
    } else {
        reconnect_after(history.drop_last()).after(history.last())
    }
}

/// Whether a reconnect can have taken exactly the events in `history`.
pub open spec fn reconnect_possible(history: Seq<ReconnectEvent>) -> bool
    decreases history.len(),
{
    history.len() > 0 ==> {
        &&& reconnect_possible(history.drop_last())
        &&& reconnect_after(history.drop_last()).expects(history.last())
    }
}

/// Every reconnect is one of these: refused as closed before anything is
/// opened; opened and then in place on an open socket; or shut down again
/// and refused as closed, where the close came in between. A failure to open
/// or to put in place ends it too.
pub proof fn a_closed_socket_does_not_reconnect(history: Seq<ReconnectEvent>)
    requires
        reconnect_possible(history),
    ensures
        history.len() <= 4,
        match reconnect_after(history).action {
            ReconnectAction::Look => history =~= seq![],
            ReconnectAction::Open => history =~= seq![ReconnectEvent::Looked { closed: false }],
            ReconnectAction::Install => history =~= seq![
                ReconnectEvent::Looked { closed: false },
                ReconnectEvent::Opened,
            ],
            ReconnectAction::ShutDown => history =~= seq![
                ReconnectEvent::Looked { closed: false },
                ReconnectEvent::Opened,
                ReconnectEvent::Installed { closed: true },
            ],
            ReconnectAction::End(Ok(())) => history =~= seq![
                ReconnectEvent::Looked { closed: false },
                ReconnectEvent::Opened,
                ReconnectEvent::Installed { closed: false },
            ],
            ReconnectAction::End(Err(Error::Closed)) => history =~= seq![
                ReconnectEvent::Looked { closed: true },
            ] || history =~= seq![
                ReconnectEvent::Looked { closed: false },
                ReconnectEvent::Opened,
                ReconnectEvent::Installed { closed: true },
                ReconnectEvent::ShutDown,
            ],
            ReconnectAction::End(Err(_)) => history.len() > 1 && (history.last() is OpenFailed
                || history.last() is InstallFailed),
        },
    decreases history.len(),
{
    if history.len() > 0 {
        a_closed_socket_does_not_reconnect(history.drop_last());
        assert(history == history.drop_last().push(history.last()));
    }
}

/// Only one step of a close closes a socket, and none opens it again.
pub proof fn one_step_closes_and_none_opens(state: Closing, step: CloseStep)
    ensures
        state.after(step).closed <==> state.closed || step is MarkClosed,
{
}

/// A close takes three steps, each once: it marks the socket closed before it
/// shuts it down, and shuts it down before it wakes the writes that wait.
pub proof fn a_close_marks_then_shuts_down_then_wakes(i: int, j: int)
    requires
        0 <= i < j < close_steps().len(),
    ensures
        close_steps().len() == 3,
        close_steps()[i] != close_steps()[j],
        !(close_steps()[j] is MarkClosed),
        !(close_steps()[i] is WakeWaiting),
{
}

/// What can come of each action of a reconnect.
pub proof fn what_can_come_of_a_reconnect(reconnect: Reconnect, event: ReconnectEvent)
    ensures
        event is Looked ==> (reconnect.expects(event) <==> reconnect.action is Look),
        event is Opened || event is OpenFailed ==> (reconnect.expects(event) <==> reconnect.action
            is Open),
        event is Installed || event is InstallFailed ==> (reconnect.expects(event)
            <==> reconnect.action is Install),
        event is ShutDown ==> (reconnect.expects(event) <==> reconnect.action is ShutDown),
        reconnect_begun().action == ReconnectAction::Look,
{
}

/// A reconnect goes on only on an open socket, from the look to the opening,
/// and from there to the installing. It ends well only once the new
/// connection is in place on an open socket; where the close came in between,
/// the new connection is shut down, and then the reconnect ends as closed.
/// Each failure ends it with its own error.
pub proof fn a_reconnect_goes_on_only_while_open(reconnect: Reconnect, event: ReconnectEvent)
    ensures
        ({
            let next = reconnect.after(event).action;
            &&& next == reconnect.reaction(event)
            &&& next is Open <==> event == (ReconnectEvent::Looked { closed: false })
            &&& next is Install <==> event is Opened
            &&& next is ShutDown <==> event == (ReconnectEvent::Installed { closed: true })
            &&& next == ReconnectAction::End(Ok(())) <==> event == (ReconnectEvent::Installed {
                closed: false,
            })
            &&& next == ReconnectAction::End(Err(Error::Closed)) <==> event is ShutDown || event
                == (ReconnectEvent::Looked { closed: true })
            &&& next == ReconnectAction::End(Err(Error::Io)) <==> event is OpenFailed
            &&& next == ReconnectAction::End(Err(Error::Poisoned)) <==> event is InstallFailed
        }),
{
}

/// Whatever [`Closing::new`] returns is open, [`Closing::is_closed`] says
/// whether a socket is closed, and [`Closing::shutdown`] returns three steps,
/// of which the first marks the socket closed, the second shuts it down and
/// the third wakes whoever waits.
pub proof fn a_socket_is_open_until_it_is_shut_down(
    state: Closing,
    other: Closing,
    closed: bool,
    steps: Vec<CloseStep>,
    before: Closing,
)
    requires
        call_ensures(Closing::new, (), state),
        call_ensures(Closing::is_closed, (&other,), closed),
        call_ensures(Closing::shutdown, (), steps),
    ensures
        !state.closed,
        closed == other.closed,
        steps@.len() == 3,
        steps@[0] is MarkClosed,
        steps@[1] is ShutDown,
        steps@[2] is WakeWaiting,
        closing_after(before, steps@.take(1)).closed,
{
    assert(close_steps().take(1) == steps@.take(1));
    a_close_is_for_good(before, 1);
}

/// Whatever [`Reconnect::new`] returns is about to look, and
/// [`Reconnect::can_take`] says whether an event fits the action.
pub proof fn a_reconnect_takes_what_fits(
    begun: Reconnect,
    reconnect: Reconnect,
    event: ReconnectEvent,
    fits: bool,
)
    requires
        call_ensures(Reconnect::new, (), begun),
        call_ensures(Reconnect::can_take, (&reconnect, &event), fits),
    ensures
        begun.action == ReconnectAction::Look,
        fits ==> reconnect.action !is End,
        event is Looked ==> (fits <==> reconnect.action is Look),
        event is Opened || event is OpenFailed ==> (fits <==> reconnect.action is Open),
        event is Installed || event is InstallFailed ==> (fits <==> reconnect.action is Install),
        event is ShutDown ==> (fits <==> reconnect.action is ShutDown),
{
    what_can_come_of_a_reconnect(reconnect, event);
}

} // verus!
