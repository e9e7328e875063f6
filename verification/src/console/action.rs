//! What the console can be asked to do.

use crate::kernel::TaskId;
use vstd::prelude::*;

verus! {

/// A client of the console.
#[derive(Clone, Copy, Debug, PartialEq, Eq, Hash, Structural)]
pub struct ClientId(pub u32);

/// A key, by the way it is spelled in a keymap, such as `<C-a>`.
#[derive(Clone, Debug, PartialEq, Eq, Hash)]
pub struct Key {
    pub spec: String,
}

impl View for Key {
    type V = Seq<char>;

    open spec fn view(&self) -> Seq<char> {
        self.spec@
    }
}

/// How far one step of scrolling goes.
#[derive(Clone, Copy, Debug, PartialEq, Eq, Hash, Structural)]
pub enum ScrollUnit {
    Line,
    HalfScreen,
}

/// A direction in copy mode.
#[derive(Clone, Copy, Debug, PartialEq, Eq, Hash, Structural)]
pub enum CopyMove {
    Up,
    Right,
    Left,
    Down,
}

/// A console action.
#[derive(Debug, PartialEq, Eq, Hash)]
pub enum Action {
    Batch { cmds: Vec<Action> },
    QuitOrAsk,
    Quit,
    ForceQuit,
    Detach { client_id: ClientId },
    ToggleFocus,
    FocusProcs,
    FocusTerm,
    Zoom,
    ShowCommandsMenu,
    NextProc,
    PrevProc,
    SelectProc { index: usize },
    StartProc,
    StopProc,
    KillProc,
    RestartProc,
    RestartAll,
    RenameProc { name: String },
    ForceRestartProc,
    ForceRestartAll,
    ShowAddProc,
    ShowRenameProc,
    AddProc { cmd: String, name: Option<String> },
    DuplicateProc,
    ShowRemoveProc,
    RemoveProc { id: TaskId },
    CloseCurrentModal,
    ScrollDown { n: usize, unit: ScrollUnit },
    ScrollUp { n: usize, unit: ScrollUnit },
    CopyModeEnter,
    CopyModeLeave,
    CopyModeMove { dir: CopyMove },
    CopyModeEnd,
    CopyModeCopy,
    ToggleKeymapWindow,
    SendKey { key: Key },
}

/// The mathematical content of an [`Action`].
pub enum ActionView {
    Batch { cmds: Seq<ActionView> },
    QuitOrAsk,
    Quit,
    ForceQuit,
    Detach { client_id: ClientId },
    ToggleFocus,
    FocusProcs,
    FocusTerm,
    Zoom,
    ShowCommandsMenu,
    NextProc,
    PrevProc,
    SelectProc { index: usize },
    StartProc,
    StopProc,
    KillProc,
    RestartProc,
    RestartAll,
    RenameProc { name: Seq<char> },
    ForceRestartProc,
    ForceRestartAll,
    ShowAddProc,
    ShowRenameProc,
    AddProc { cmd: Seq<char>, name: Option<Seq<char>> },
    DuplicateProc,
    ShowRemoveProc,
    RemoveProc { id: TaskId },
    CloseCurrentModal,
    ScrollDown { n: usize, unit: ScrollUnit },
    ScrollUp { n: usize, unit: ScrollUnit },
    CopyModeEnter,
    CopyModeLeave,
    CopyModeMove { dir: CopyMove },
    CopyModeEnd,
    CopyModeCopy,
    ToggleKeymapWindow,
    SendKey { key: Seq<char> },
}

pub open spec fn action_view(action: Action) -> ActionView
    decreases action,
{
    match action {
        Action::Batch { cmds } => ActionView::Batch {
            cmds: Seq::new(
                cmds@.len(),
                |i: int|
                    if 0 <= i < cmds@.len() {
                        action_view(cmds@[i])
                    } else {
                        ActionView::Quit
                    },
            ),
        },
        Action::QuitOrAsk => ActionView::QuitOrAsk,
        Action::Quit => ActionView::Quit,
        Action::ForceQuit => ActionView::ForceQuit,
        Action::Detach { client_id } => ActionView::Detach { client_id },
        Action::ToggleFocus => ActionView::ToggleFocus,
        Action::FocusProcs => ActionView::FocusProcs,
        Action::FocusTerm => ActionView::FocusTerm,
        Action::Zoom => ActionView::Zoom,
        Action::ShowCommandsMenu => ActionView::ShowCommandsMenu,
        Action::NextProc => ActionView::NextProc,
        Action::PrevProc => ActionView::PrevProc,
        Action::SelectProc { index } => ActionView::SelectProc { index },
        Action::StartProc => ActionView::StartProc,
        Action::StopProc => ActionView::StopProc,
        Action::KillProc => ActionView::KillProc,
        Action::RestartProc => ActionView::RestartProc,
        Action::RestartAll => ActionView::RestartAll,
        Action::RenameProc { name } => ActionView::RenameProc { name: name@ },
        Action::ForceRestartProc => ActionView::ForceRestartProc,
        Action::ForceRestartAll => ActionView::ForceRestartAll,
        Action::ShowAddProc => ActionView::ShowAddProc,
        Action::ShowRenameProc => ActionView::ShowRenameProc,
        Action::AddProc { cmd, name } => ActionView::AddProc { cmd: cmd@, name: name.deep_view() },
        Action::DuplicateProc => ActionView::DuplicateProc,
        Action::ShowRemoveProc => ActionView::ShowRemoveProc,
        Action::RemoveProc { id } => ActionView::RemoveProc { id },
        Action::CloseCurrentModal => ActionView::CloseCurrentModal,
        Action::ScrollDown { n, unit } => ActionView::ScrollDown { n, unit },
        Action::ScrollUp { n, unit } => ActionView::ScrollUp { n, unit },
        Action::CopyModeEnter => ActionView::CopyModeEnter,
        Action::CopyModeLeave => ActionView::CopyModeLeave,
        Action::CopyModeMove { dir } => ActionView::CopyModeMove { dir },
        Action::CopyModeEnd => ActionView::CopyModeEnd,
        Action::CopyModeCopy => ActionView::CopyModeCopy,
        Action::ToggleKeymapWindow => ActionView::ToggleKeymapWindow,
        Action::SendKey { key } => ActionView::SendKey { key: key@ },
    }
}

impl View for Action {
    type V = ActionView;

    open spec fn view(&self) -> ActionView {
        action_view(*self)
    }
}

} // verus!
