//! The frozen event format of mprocs, and what its events mean to the console.

use crate::console::action::{
    Action, ActionView, ClientId, CopyMove as ActionCopyMove, Key, ScrollUnit,
};
use crate::kernel::TaskId;
use vstd::prelude::*;

verus! {

/// An event in the format of mprocs. The format is frozen: what it can say and
/// how it says it does not change any more.
#[derive(Debug, PartialEq, Eq, Hash)]
pub enum AppEvent {
    Batch { cmds: Vec<AppEvent> },
    QuitOrAsk,
    Quit,
    ForceQuit,
    Detach { client_id: ClientId },
    ToggleFocus,
    FocusProcs,
    FocusTerm,
    Zoom,
    ShowCommandsMenu,
    NextProc,
    PrevProc,
    SelectProc { index: usize },
    StartProc,
    TermProc,
    KillProc,
    RestartProc,
    RestartAll,
    RenameProc { name: String },
    ForceRestartProc,
    ForceRestartAll,
    ShowAddProc,
    ShowRenameProc,
    AddProc { cmd: String, name: Option<String> },
    DuplicateProc,
    ShowRemoveProc,
    RemoveProc { id: TaskId },
    CloseCurrentModal,
    ScrollDownLines { n: usize },
    ScrollUpLines { n: usize },
    ScrollDown,
    ScrollUp,
    CopyModeEnter,
    CopyModeLeave,
    CopyModeMove { dir: CopyMove },
    CopyModeEnd,
    CopyModeCopy,
    ToggleKeymapWindow,
    SendKey { key: Key },
}

/// A direction in copy mode, in the format of mprocs.
#[derive(Clone, Copy, Debug, PartialEq, Eq, Hash, Structural)]
pub enum CopyMove {
    Up,
    Right,
    Left,
    Down,
}

/// The mathematical content of an [`AppEvent`].
pub enum EventView {
    Batch { cmds: Seq<EventView> },
    QuitOrAsk,
    Quit,
    ForceQuit,
    Detach { client_id: ClientId },
    ToggleFocus,
    FocusProcs,
    FocusTerm,
    Zoom,
    ShowCommandsMenu,
    NextProc,
    PrevProc,
    SelectProc { index: usize },
    StartProc,
    TermProc,
    KillProc,
    RestartProc,
    RestartAll,
    RenameProc { name: Seq<char> },
    ForceRestartProc,
    ForceRestartAll,
    ShowAddProc,
    ShowRenameProc,
    AddProc { cmd: Seq<char>, name: Option<Seq<char>> },
    DuplicateProc,
    ShowRemoveProc,
    RemoveProc { id: TaskId },
    CloseCurrentModal,
    ScrollDownLines { n: usize },
    ScrollUpLines { n: usize },
    ScrollDown,
    ScrollUp,
    CopyModeEnter,
    CopyModeLeave,
    CopyModeMove { dir: CopyMove },
    CopyModeEnd,
    CopyModeCopy,
    ToggleKeymapWindow,
    SendKey { key: Seq<char> },
}

pub open spec fn event_view(event: AppEvent) -> EventView
    decreases event,
{
    match event {
        AppEvent::Batch { cmds } => EventView::Batch {
            cmds: Seq::new(
                cmds@.len(),
                |i: int|
                    if 0 <= i < cmds@.len() {
                        event_view(cmds@[i])
                    } else {
                        EventView::Quit
                    },
            ),
        },
        AppEvent::QuitOrAsk => EventView::QuitOrAsk,
        AppEvent::Quit => EventView::Quit,
        AppEvent::ForceQuit => EventView::ForceQuit,
        AppEvent::Detach { client_id } => EventView::Detach { client_id },
        AppEvent::ToggleFocus => EventView::ToggleFocus,
        AppEvent::FocusProcs => EventView::FocusProcs,
        AppEvent::FocusTerm => EventView::FocusTerm,
        AppEvent::Zoom => EventView::Zoom,
        AppEvent::ShowCommandsMenu => EventView::ShowCommandsMenu,
        AppEvent::NextProc => EventView::NextProc,
        AppEvent::PrevProc => EventView::PrevProc,
        AppEvent::SelectProc { index } => EventView::SelectProc { index },
        AppEvent::StartProc => EventView::StartProc,
        AppEvent::TermProc => EventView::TermProc,
        AppEvent::KillProc => EventView::KillProc,
        AppEvent::RestartProc => EventView::RestartProc,
        AppEvent::RestartAll => EventView::RestartAll,
        AppEvent::RenameProc { name } => EventView::RenameProc { name: name@ },
        AppEvent::ForceRestartProc => EventView::ForceRestartProc,
        AppEvent::ForceRestartAll => EventView::ForceRestartAll,
        AppEvent::ShowAddProc => EventView::ShowAddProc,
        AppEvent::ShowRenameProc => EventView::ShowRenameProc,
        AppEvent::AddProc { cmd, name } => EventView::AddProc { cmd: cmd@, name: name.deep_view() },
        AppEvent::DuplicateProc => EventView::DuplicateProc,
        AppEvent::ShowRemoveProc => EventView::ShowRemoveProc,
        AppEvent::RemoveProc { id } => EventView::RemoveProc { id },
        AppEvent::CloseCurrentModal => EventView::CloseCurrentModal,
        AppEvent::ScrollDownLines { n } => EventView::ScrollDownLines { n },
        AppEvent::ScrollUpLines { n } => EventView::ScrollUpLines { n },
        AppEvent::ScrollDown => EventView::ScrollDown,
        AppEvent::ScrollUp => EventView::ScrollUp,
        AppEvent::CopyModeEnter => EventView::CopyModeEnter,
        AppEvent::CopyModeLeave => EventView::CopyModeLeave,
        AppEvent::CopyModeMove { dir } => EventView::CopyModeMove { dir },
        AppEvent::CopyModeEnd => EventView::CopyModeEnd,
        AppEvent::CopyModeCopy => EventView::CopyModeCopy,
        AppEvent::ToggleKeymapWindow => EventView::ToggleKeymapWindow,
        AppEvent::SendKey { key } => EventView::SendKey { key: key@ },
    }
}

impl View for AppEvent {
    type V = EventView;

    open spec fn view(&self) -> EventView {
        event_view(*self)
    }
}

/// The console's name for a direction.
pub open spec fn direction_of(dir: CopyMove) -> ActionCopyMove {
    match dir {
        CopyMove::Up => ActionCopyMove::Up,
        CopyMove::Right => ActionCopyMove::Right,
        CopyMove::Left => ActionCopyMove::Left,
        CopyMove::Down => ActionCopyMove::Down,
    }
}

/// The action that an event asks for. Old spellings that say how far to scroll
/// in their name become a distance and a unit.
pub open spec fn action_of(event: EventView) -> ActionView
    decreases event,
{
    match event {
        EventView::Batch { cmds } => ActionView::Batch {
            cmds: Seq::new(
                cmds.len(),
                |i: int|
                    if 0 <= i < cmds.len() {
                        action_of(cmds[i])
                    } else {
                        ActionView::Quit
                    },
            ),
        },
        EventView::QuitOrAsk => ActionView::QuitOrAsk,
        EventView::Quit => ActionView::Quit,
        EventView::ForceQuit => ActionView::ForceQuit,
        EventView::Detach { client_id } => ActionView::Detach { client_id },
        EventView::ToggleFocus => ActionView::ToggleFocus,
        EventView::FocusProcs => ActionView::FocusProcs,
        EventView::FocusTerm => ActionView::FocusTerm,
        EventView::Zoom => ActionView::Zoom,
        EventView::ShowCommandsMenu => ActionView::ShowCommandsMenu,
        EventView::NextProc => ActionView::NextProc,
        EventView::PrevProc => ActionView::PrevProc,
        EventView::SelectProc { index } => ActionView::SelectProc { index },
        EventView::StartProc => ActionView::StartProc,
        EventView::TermProc => ActionView::StopProc,
        EventView::KillProc => ActionView::KillProc,
        EventView::RestartProc => ActionView::RestartProc,
        EventView::RestartAll => ActionView::RestartAll,
        EventView::RenameProc { name } => ActionView::RenameProc { name },
        EventView::ForceRestartProc => ActionView::ForceRestartProc,
        EventView::ForceRestartAll => ActionView::ForceRestartAll,
        EventView::ShowAddProc => ActionView::ShowAddProc,
        EventView::ShowRenameProc => ActionView::ShowRenameProc,
        EventView::AddProc { cmd, name } => ActionView::AddProc { cmd, name },
        EventView::DuplicateProc => ActionView::DuplicateProc,
        EventView::ShowRemoveProc => ActionView::ShowRemoveProc,
        EventView::RemoveProc { id } => ActionView::RemoveProc { id },
        EventView::CloseCurrentModal => ActionView::CloseCurrentModal,
        EventView::ScrollDownLines { n } => ActionView::ScrollDown { n, unit: ScrollUnit::Line },
        EventView::ScrollUpLines { n } => ActionView::ScrollUp { n, unit: ScrollUnit::Line },
        EventView::ScrollDown => ActionView::ScrollDown { n: 1, unit: ScrollUnit::HalfScreen },
        EventView::ScrollUp => ActionView::ScrollUp { n: 1, unit: ScrollUnit::HalfScreen },
        EventView::CopyModeEnter => ActionView::CopyModeEnter,
        EventView::CopyModeLeave => ActionView::CopyModeLeave,
        EventView::CopyModeMove { dir } => ActionView::CopyModeMove { dir: direction_of(dir) },
        EventView::CopyModeEnd => ActionView::CopyModeEnd,
        EventView::CopyModeCopy => ActionView::CopyModeCopy,
        EventView::ToggleKeymapWindow => ActionView::ToggleKeymapWindow,
        EventView::SendKey { key } => ActionView::SendKey { key },
    }
}

impl CopyMove {
    fn to_direction(self) -> (dir: ActionCopyMove)
        ensures
            dir == direction_of(self),
    {
        match self {
            CopyMove::Up => ActionCopyMove::Up,
            CopyMove::Right => ActionCopyMove::Right,
            CopyMove::Left => ActionCopyMove::Left,
            CopyMove::Down => ActionCopyMove::Down,
        }
    }
}

impl Clone for AppEvent {
    fn clone(&self) -> (copy: Self)
        ensures
            copy@ == self@,
        decreases self,
    {
        match self {
            AppEvent::Batch { cmds } => {
                let mut copies: Vec<AppEvent> = Vec::new();
                for i in 0..cmds.len()
                    invariant
                        decreases_to!(self => cmds),
                        copies@.len() == i,
                        forall|j: int|
                            0 <= j < i ==> (#[trigger] copies@[j])@ == cmds@[j]@,
                {
                    copies.push(cmds[i].clone());
                }
                let copy = AppEvent::Batch { cmds: copies };
                assert(copy@->Batch_cmds =~= self@->Batch_cmds);
                copy
            },
            AppEvent::QuitOrAsk => AppEvent::QuitOrAsk,
            AppEvent::Quit => AppEvent::Quit,
            AppEvent::ForceQuit => AppEvent::ForceQuit,
            AppEvent::Detach { client_id } => AppEvent::Detach { client_id: *client_id },
            AppEvent::ToggleFocus => AppEvent::ToggleFocus,
            AppEvent::FocusProcs => AppEvent::FocusProcs,
            AppEvent::FocusTerm => AppEvent::FocusTerm,
            AppEvent::Zoom => AppEvent::Zoom,
            AppEvent::ShowCommandsMenu => AppEvent::ShowCommandsMenu,
            AppEvent::NextProc => AppEvent::NextProc,
            AppEvent::PrevProc => AppEvent::PrevProc,
            AppEvent::SelectProc { index } => AppEvent::SelectProc { index: *index },
            AppEvent::StartProc => AppEvent::StartProc,
            AppEvent::TermProc => AppEvent::TermProc,
            AppEvent::KillProc => AppEvent::KillProc,
            AppEvent::RestartProc => AppEvent::RestartProc,
            AppEvent::RestartAll => AppEvent::RestartAll,
            AppEvent::RenameProc { name } => AppEvent::RenameProc { name: name.clone() },
            AppEvent::ForceRestartProc => AppEvent::ForceRestartProc,
            AppEvent::ForceRestartAll => AppEvent::ForceRestartAll,
            AppEvent::ShowAddProc => AppEvent::ShowAddProc,
            AppEvent::ShowRenameProc => AppEvent::ShowRenameProc,
            AppEvent::AddProc { cmd, name } => AppEvent::AddProc {
                cmd: cmd.clone(),
                name: name.clone(),
            },
            AppEvent::DuplicateProc => AppEvent::DuplicateProc,
            AppEvent::ShowRemoveProc => AppEvent::ShowRemoveProc,
            AppEvent::RemoveProc { id } => AppEvent::RemoveProc { id: *id },
            AppEvent::CloseCurrentModal => AppEvent::CloseCurrentModal,
            AppEvent::ScrollDownLines { n } => AppEvent::ScrollDownLines { n: *n },
            AppEvent::ScrollUpLines { n } => AppEvent::ScrollUpLines { n: *n },
            AppEvent::ScrollDown => AppEvent::ScrollDown,
            AppEvent::ScrollUp => AppEvent::ScrollUp,
            AppEvent::CopyModeEnter => AppEvent::CopyModeEnter,
            AppEvent::CopyModeLeave => AppEvent::CopyModeLeave,
            AppEvent::CopyModeMove { dir } => AppEvent::CopyModeMove { dir: *dir },
            AppEvent::CopyModeEnd => AppEvent::CopyModeEnd,
            AppEvent::CopyModeCopy => AppEvent::CopyModeCopy,
            AppEvent::ToggleKeymapWindow => AppEvent::ToggleKeymapWindow,
            AppEvent::SendKey { key } => AppEvent::SendKey { key: Key { spec: key.spec.clone() } },
        }
    }
}

impl AppEvent {
    /// Translates the frozen mprocs format into the current console action.
    pub fn to_action(self) -> (action: Action)
        ensures
            action@ == action_of(self@),
        decreases self,
    {
        match self {
            AppEvent::Batch { cmds } => {
                let ghost events = cmds@;
                let mut actions: Vec<Action> = Vec::new();
                for event in iter: cmds
                    invariant
                        iter.seq() == events,
                        forall|i: int|
                            0 <= i < events.len() ==> decreases_to!(self => #[trigger] events[i]),
                        actions@.len() == iter.index(),
                        forall|i: int|
                            0 <= i < iter.index() ==> (#[trigger] actions@[i])@ == action_of(
                                events[i]@,
                            ),
                {
                    actions.push(event.to_action());
                }
                let action = Action::Batch { cmds: actions };
                assert(action@->Batch_cmds =~= action_of(self@)->Batch_cmds);
                action
            },
            AppEvent::QuitOrAsk => Action::QuitOrAsk,
            AppEvent::Quit => Action::Quit,
            AppEvent::ForceQuit => Action::ForceQuit,
            AppEvent::Detach { client_id } => Action::Detach { client_id },
            AppEvent::ToggleFocus => Action::ToggleFocus,
            AppEvent::FocusProcs => Action::FocusProcs,
            AppEvent::FocusTerm => Action::FocusTerm,
            AppEvent::Zoom => Action::Zoom,
            AppEvent::ShowCommandsMenu => Action::ShowCommandsMenu,
            AppEvent::NextProc => Action::NextProc,
            AppEvent::PrevProc => Action::PrevProc,
            AppEvent::SelectProc { index } => Action::SelectProc { index },
            AppEvent::StartProc => Action::StartProc,
            AppEvent::TermProc => Action::StopProc,
            AppEvent::KillProc => Action::KillProc,
            AppEvent::RestartProc => Action::RestartProc,
            AppEvent::RestartAll => Action::RestartAll,
            AppEvent::RenameProc { name } => Action::RenameProc { name },
            AppEvent::ForceRestartProc => Action::ForceRestartProc,
            AppEvent::ForceRestartAll => Action::ForceRestartAll,
            AppEvent::ShowAddProc => Action::ShowAddProc,
            AppEvent::ShowRenameProc => Action::ShowRenameProc,
            AppEvent::AddProc { cmd, name } => Action::AddProc { cmd, name },
            AppEvent::DuplicateProc => Action::DuplicateProc,
            AppEvent::ShowRemoveProc => Action::ShowRemoveProc,
            AppEvent::RemoveProc { id } => Action::RemoveProc { id },
            AppEvent::CloseCurrentModal => Action::CloseCurrentModal,
            AppEvent::ScrollDownLines { n } => Action::ScrollDown { n, unit: ScrollUnit::Line },
            AppEvent::ScrollUpLines { n } => Action::ScrollUp { n, unit: ScrollUnit::Line },
            AppEvent::ScrollDown => Action::ScrollDown { n: 1, unit: ScrollUnit::HalfScreen },
            AppEvent::ScrollUp => Action::ScrollUp { n: 1, unit: ScrollUnit::HalfScreen },
            AppEvent::CopyModeEnter => Action::CopyModeEnter,
            AppEvent::CopyModeLeave => Action::CopyModeLeave,
            AppEvent::CopyModeMove { dir } => Action::CopyModeMove { dir: dir.to_direction() },
            AppEvent::CopyModeEnd => Action::CopyModeEnd,
            AppEvent::CopyModeCopy => Action::CopyModeCopy,
            AppEvent::ToggleKeymapWindow => Action::ToggleKeymapWindow,
            AppEvent::SendKey { key } => Action::SendKey { key },
        }
    }
}

/// No two events become the same action: nothing that an event says is lost on
/// the way.
pub proof fn law_actions_tell_events_apart(left: EventView, right: EventView)
    ensures
        action_of(left) == action_of(right) <==> left == right,
    decreases left,
{
    if action_of(left) == action_of(right) {
        match (left, right) {
            (EventView::Batch { cmds }, EventView::Batch { cmds: others }) => {
                let acts = action_of(left)->Batch_cmds;
                assert(acts.len() == cmds.len());
                assert(acts.len() == others.len());
                assert forall|i: int| 0 <= i < cmds.len() implies cmds[i] == others[i] by {
                    assert(acts[i] == action_of(cmds[i]));
                    assert(acts[i] == action_of(others[i]));
                    law_actions_tell_events_apart(cmds[i], others[i]);
                }
                assert(cmds =~= others);
            },
            _ => {},
        }
    }
}

/// A batch becomes a batch of the same length, each member in its place.
pub proof fn law_batches_keep_their_order(cmds: Seq<EventView>, i: int)
    requires
        0 <= i < cmds.len(),
    ensures
        action_of(EventView::Batch { cmds }) is Batch,
        action_of(EventView::Batch { cmds })->Batch_cmds.len() == cmds.len(),
        action_of(EventView::Batch { cmds })->Batch_cmds[i] == action_of(cmds[i]),
{
}

/// Every event means the action of its own name, and no other event does; only
/// the old `TermProc` has another name, `StopProc`, and the four scroll events
/// share two actions.
pub proof fn law_events_mean_what_they_are_called(event: AppEvent, action: Action)
    requires
        action@ == action_of(event@),
    ensures
        event is Batch <==> action is Batch,
        event is QuitOrAsk <==> action is QuitOrAsk,
        event is Quit <==> action is Quit,
        event is ForceQuit <==> action is ForceQuit,
        event is Detach <==> action is Detach,
        event is ToggleFocus <==> action is ToggleFocus,
        event is FocusProcs <==> action is FocusProcs,
        event is FocusTerm <==> action is FocusTerm,
        event is Zoom <==> action is Zoom,
        event is ShowCommandsMenu <==> action is ShowCommandsMenu,
        event is NextProc <==> action is NextProc,
        event is PrevProc <==> action is PrevProc,
        event is SelectProc <==> action is SelectProc,
        event is StartProc <==> action is StartProc,
        event is TermProc <==> action is StopProc,
        event is KillProc <==> action is KillProc,
        event is RestartProc <==> action is RestartProc,
        event is RestartAll <==> action is RestartAll,
        event is RenameProc <==> action is RenameProc,
        event is ForceRestartProc <==> action is ForceRestartProc,
        event is ForceRestartAll <==> action is ForceRestartAll,
        event is ShowAddProc <==> action is ShowAddProc,
        event is ShowRenameProc <==> action is ShowRenameProc,
        event is AddProc <==> action is AddProc,
        event is DuplicateProc <==> action is DuplicateProc,
        event is ShowRemoveProc <==> action is ShowRemoveProc,
        event is RemoveProc <==> action is RemoveProc,
        event is CloseCurrentModal <==> action is CloseCurrentModal,
        event is CopyModeEnter <==> action is CopyModeEnter,
        event is CopyModeLeave <==> action is CopyModeLeave,
        event is CopyModeMove <==> action is CopyModeMove,
        event is CopyModeEnd <==> action is CopyModeEnd,
        event is CopyModeCopy <==> action is CopyModeCopy,
        event is ToggleKeymapWindow <==> action is ToggleKeymapWindow,
        event is SendKey <==> action is SendKey,
        event is ScrollUp || event is ScrollUpLines <==> action is ScrollUp,
        event is ScrollDown || event is ScrollDownLines <==> action is ScrollDown,
{
}

/// An action has the details of its event: who detaches, which process, what
/// name, which command, which key.
pub proof fn law_actions_keep_the_details(event: AppEvent, action: Action)
    requires
        action@ == action_of(event@),
    ensures
        event matches AppEvent::Detach { client_id } ==> action == (Action::Detach { client_id }),
        event matches AppEvent::SelectProc { index } ==> action == (Action::SelectProc { index }),
        event matches AppEvent::RemoveProc { id } ==> action == (Action::RemoveProc { id }),
        event matches AppEvent::RenameProc { name } ==> action->RenameProc_name@ == name@,
        event matches AppEvent::AddProc { cmd, name } ==> action->AddProc_cmd@ == cmd@
            && action->AddProc_name.deep_view() == name.deep_view(),
        event matches AppEvent::SendKey { key } ==> action->SendKey_key.spec@ == key.spec@,
        event matches AppEvent::CopyModeMove { dir } ==> {
            &&& (dir is Up <==> action->CopyModeMove_dir is Up)
            &&& (dir is Right <==> action->CopyModeMove_dir is Right)
            &&& (dir is Left <==> action->CopyModeMove_dir is Left)
            &&& (dir is Down <==> action->CopyModeMove_dir is Down)
        },
{
}

/// The old spellings scroll by half a screen, or by the number of lines that
/// they name.
pub proof fn law_old_scrolls_go_their_distance(event: AppEvent, action: Action)
    requires
        action@ == action_of(event@),
    ensures
        event is ScrollUp ==> action->ScrollUp_n == 1 && action->ScrollUp_unit is HalfScreen,
        event is ScrollDown ==> action->ScrollDown_n == 1 && action->ScrollDown_unit is HalfScreen,
        event matches AppEvent::ScrollUpLines { n } ==> action->ScrollUp_n == n
            && action->ScrollUp_unit is Line,
        event matches AppEvent::ScrollDownLines { n } ==> action->ScrollDown_n == n
            && action->ScrollDown_unit is Line,
{
}

/// A batch becomes as many actions as it has events, and each of them is what
/// its event would become alone.
pub proof fn law_batches_go_member_by_member(event: AppEvent, action: Action, i: int)
    requires
        action@ == action_of(event@),
        event is Batch,
        0 <= i < event->Batch_cmds@.len(),
    ensures
        action is Batch,
        action->Batch_cmds@.len() == event->Batch_cmds@.len(),
        action->Batch_cmds@[i]@ == action_of(event->Batch_cmds@[i]@),
{
    let acts = action->Batch_cmds@;
    let cmds = event->Batch_cmds@;
    assert(action@->Batch_cmds.len() == acts.len());
    assert(event@->Batch_cmds.len() == cmds.len());
    assert(action_of(event@)->Batch_cmds.len() == cmds.len());
    assert(action@->Batch_cmds[i] == acts[i]@);
    assert(event@->Batch_cmds[i] == cmds[i]@);
    assert(action_of(event@)->Batch_cmds[i] == action_of(cmds[i]@));
}

} // verus!
