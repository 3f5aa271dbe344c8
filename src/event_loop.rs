use vstd::prelude::*;
use crate::menu::MenuId;
use crate::platform::HideStrategy;

verus! {

/// Where the event loop stands.
#[derive(Clone, Copy, Debug, PartialEq, Eq, Structural)]
pub enum ShellState {
    /// Waiting for the next platform event.
    Idle,
    /// The loop has been told to exit; nothing follows.
    Terminating,
}

/// The platform events the shell tells apart.
#[derive(Clone, Copy, Debug, PartialEq, Eq, Structural)]
pub enum ShellEvent {
    /// The user asked to close the window.
    CloseRequested,
    /// A menu entry with this identifier was activated.
    MenuActivated(MenuId),
    /// Any other event.
    Other,
}

/// What the loop must do after an event.
#[derive(Clone, Copy, Debug, PartialEq, Eq, Structural)]
pub enum ShellAction {
    Nothing,
    /// Take the window out of sight, in the way given, and keep running.
    HideWindow(HideStrategy),
    /// Leave the event loop, which ends the process.
    Exit,
}

/// The transition taken on `event` from `state`, given the identifiers of the
/// "Close Window" entries and the platform's hide primitive.
pub open spec fn spec_transition(
    state: ShellState,
    event: ShellEvent,
    close_ids: Seq<MenuId>,
    hide: HideStrategy,
) -> (ShellState, ShellAction) {
    match state {
        ShellState::Terminating => (ShellState::Terminating, ShellAction::Nothing),
        ShellState::Idle => match event {
            ShellEvent::CloseRequested => (ShellState::Terminating, ShellAction::Exit),
            ShellEvent::MenuActivated(id) => if close_ids.contains(id) {
                (ShellState::Idle, ShellAction::HideWindow(hide))
            } else {
                (ShellState::Idle, ShellAction::Nothing)
            },
            ShellEvent::Other => (ShellState::Idle, ShellAction::Nothing),
        },
    }
}

/// Whether `id` is one of `ids`.
pub fn contains_id(ids: &[MenuId], id: MenuId) -> (r: bool)
    ensures
        r == ids@.contains(id),
{
    let mut i: usize = 0;
    while i < ids.len()
        invariant
            0 <= i <= ids@.len(),
            forall|k: int| 0 <= k < i ==> ids@[k] != id,
        decreases ids@.len() - i,
    {
        if ids[i] == id {
            assert(ids@[i as int] == id);
            return true;
        }
        i = i + 1;
    }
    false
}

/// The next state of the loop and the action to perform, on `event` from `state`.
pub fn transition(state: ShellState, event: ShellEvent, close_ids: &[MenuId], hide: HideStrategy) -> (r: (
    ShellState,
    ShellAction,
))
    ensures
        r == spec_transition(state, event, close_ids@, hide),
{
    match state {
        ShellState::Terminating => (ShellState::Terminating, ShellAction::Nothing),
        ShellState::Idle => match event {
            ShellEvent::CloseRequested => (ShellState::Terminating, ShellAction::Exit),
            ShellEvent::MenuActivated(id) => {
                if contains_id(close_ids, id) {
                    (ShellState::Idle, ShellAction::HideWindow(hide))
                } else {
                    (ShellState::Idle, ShellAction::Nothing)
                }
            },
            ShellEvent::Other => (ShellState::Idle, ShellAction::Nothing),
        },
    }
}

/// The event loop's own state: where it stands, which menu identifiers close
/// the window, and how the platform hides it.
#[derive(Debug)]
pub struct Shell {
    pub state: ShellState,
    pub close_ids: Vec<MenuId>,
    pub hide: HideStrategy,
}

impl Shell {
    /// A loop waiting for its first event.
    pub fn new(close_ids: Vec<MenuId>, hide: HideStrategy) -> (r: Shell)
        ensures
            r.state == ShellState::Idle,
            r.close_ids@ == close_ids@,
            r.hide == hide,
    {
        Shell { state: ShellState::Idle, close_ids, hide }
    }

    /// Whether the loop still accepts events.
    pub fn is_running(&self) -> (r: bool)
        ensures
            r == (self.state == ShellState::Idle),
    {
        match self.state {
            ShellState::Idle => true,
            ShellState::Terminating => false,
        }
    }

    /// Takes the transition for `event` and returns the action to perform.
    pub fn handle(&mut self, event: ShellEvent) -> (r: ShellAction)
        ensures
            (final(self).state, r) == spec_transition(
                old(self).state,
                event,
                old(self).close_ids@,
                old(self).hide,
            ),
            final(self).close_ids@ == old(self).close_ids@,
            final(self).hide == old(self).hide,
    {
        let (next, action) = transition(self.state, event, self.close_ids.as_slice(), self.hide);
        self.state = next;
        action
    }
}

/// The state reached from `state` after the events, in order.
pub open spec fn spec_run(
    state: ShellState,
    events: Seq<ShellEvent>,
    close_ids: Seq<MenuId>,
    hide: HideStrategy,
) -> ShellState
    decreases events.len(),
{
    if events.len() == 0 {
        state
    } else {
        spec_run(
            spec_transition(state, events[0], close_ids, hide).0,
            events.drop_first(),
            close_ids,
            hide,
        )
    }
}

/// Activating an entry whose identifier is one of the "Close Window" ones hides
/// the window in the platform's way, and the loop stays idle, accepting events.
pub proof fn lemma_close_item_hides(close_ids: Seq<MenuId>, hide: HideStrategy, id: MenuId)
    requires
        close_ids.contains(id),
    ensures
        spec_transition(ShellState::Idle, ShellEvent::MenuActivated(id), close_ids, hide) == (
            ShellState::Idle,
            ShellAction::HideWindow(hide),
        ),
{
}

/// Activating an entry whose identifier is not a "Close Window" one does
/// nothing, and the loop stays idle.
pub proof fn lemma_unknown_menu_id_ignored(close_ids: Seq<MenuId>, hide: HideStrategy, id: MenuId)
    requires
        !close_ids.contains(id),
    ensures
        spec_transition(ShellState::Idle, ShellEvent::MenuActivated(id), close_ids, hide) == (
            ShellState::Idle,
            ShellAction::Nothing,
        ),
{
}

/// From the idle state a close request, and no other event, makes the loop
/// exit; once terminating, the loop does nothing more.
pub proof fn lemma_only_close_requested_terminates(
    event: ShellEvent,
    close_ids: Seq<MenuId>,
    hide: HideStrategy,
)
    ensures
        spec_transition(ShellState::Idle, event, close_ids, hide).1 == ShellAction::Exit
            <==> event is CloseRequested,
        spec_transition(ShellState::Idle, event, close_ids, hide).0 == ShellState::Terminating
            <==> event is CloseRequested,
        spec_transition(ShellState::Terminating, event, close_ids, hide) == (
            ShellState::Terminating,
            ShellAction::Nothing,
        ),
{
}

/// Over any sequence of events, the loop started idle ends terminating exactly
/// when one of the events is a close request.
pub proof fn lemma_run_terminates_iff_close_requested(
    events: Seq<ShellEvent>,
    close_ids: Seq<MenuId>,
    hide: HideStrategy,
)
    ensures
        spec_run(ShellState::Idle, events, close_ids, hide) == ShellState::Terminating
            <==> exists|i: int| 0 <= i < events.len() && #[trigger] events[i] is CloseRequested,
    decreases events.len(),
{
    if events.len() > 0 {
        let rest = events.drop_first();
        if events[0] is CloseRequested {
            lemma_terminating_stays(rest, close_ids, hide);
        } else {
            lemma_run_terminates_iff_close_requested(rest, close_ids, hide);
            if exists|i: int| 0 <= i < rest.len() && #[trigger] rest[i] is CloseRequested {
                let i = choose|i: int| 0 <= i < rest.len() && #[trigger] rest[i] is CloseRequested;
                assert(events[i + 1] == rest[i]);
            }
            if exists|i: int| 0 <= i < events.len() && #[trigger] events[i] is CloseRequested {
                let i = choose|i: int| 0 <= i < events.len() && #[trigger] events[i] is CloseRequested;
                assert(rest[i - 1] == events[i]);
            }
        }
    }
}

proof fn lemma_terminating_stays(events: Seq<ShellEvent>, close_ids: Seq<MenuId>, hide: HideStrategy)
    ensures
        spec_run(ShellState::Terminating, events, close_ids, hide) == ShellState::Terminating,
    decreases events.len(),
{
    if events.len() > 0 {
        lemma_terminating_stays(events.drop_first(), close_ids, hide);
    }
}

} // verus!
