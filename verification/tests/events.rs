use dekit::console::action::{Action, ClientId, CopyMove as ActionCopyMove, Key, ScrollUnit};
use dekit::kernel::TaskId;
use dekit::mprocs::event::{AppEvent, CopyMove};

#[test]
fn old_scroll_spellings_convert() {
    let ev = AppEvent::ScrollUp;
    assert_eq!(ev.to_action(), Action::ScrollUp { n: 1, unit: ScrollUnit::HalfScreen });

    let ev = AppEvent::ScrollDownLines { n: 3 };
    assert_eq!(ev.to_action(), Action::ScrollDown { n: 3, unit: ScrollUnit::Line });
}

#[test]
fn the_other_scroll_spellings_convert() {
    assert_eq!(
        AppEvent::ScrollDown.to_action(),
        Action::ScrollDown { n: 1, unit: ScrollUnit::HalfScreen }
    );
    assert_eq!(
        AppEvent::ScrollUpLines { n: 0 }.to_action(),
        Action::ScrollUp { n: 0, unit: ScrollUnit::Line }
    );
}

#[test]
fn batches_convert_member_by_member() {
    let ev = AppEvent::Batch {
        cmds: vec![
            AppEvent::TermProc,
            AppEvent::Batch { cmds: vec![AppEvent::Quit] },
            AppEvent::SendKey { key: Key { spec: "<C-a>".to_string() } },
        ],
    };
    assert_eq!(
        ev.to_action(),
        Action::Batch {
            cmds: vec![
                Action::StopProc,
                Action::Batch { cmds: vec![Action::Quit] },
                Action::SendKey { key: Key { spec: "<C-a>".to_string() } },
            ],
        }
    );
}

#[test]
fn details_are_kept() {
    assert_eq!(
        AppEvent::Detach { client_id: ClientId(7) }.to_action(),
        Action::Detach { client_id: ClientId(7) }
    );
    assert_eq!(
        AppEvent::RemoveProc { id: TaskId(3) }.to_action(),
        Action::RemoveProc { id: TaskId(3) }
    );
    assert_eq!(
        AppEvent::AddProc { cmd: "ls".to_string(), name: None }.to_action(),
        Action::AddProc { cmd: "ls".to_string(), name: None }
    );
    for (from, to) in [
        (CopyMove::Up, ActionCopyMove::Up),
        (CopyMove::Right, ActionCopyMove::Right),
        (CopyMove::Left, ActionCopyMove::Left),
        (CopyMove::Down, ActionCopyMove::Down),
    ] {
        assert_eq!(
            AppEvent::CopyModeMove { dir: from }.to_action(),
            Action::CopyModeMove { dir: to }
        );
    }
}

#[test]
fn different_events_become_different_actions() {
    assert_ne!(AppEvent::ScrollUp.to_action(), AppEvent::ScrollUpLines { n: 1 }.to_action());
    assert_ne!(AppEvent::RestartProc.to_action(), AppEvent::ForceRestartProc.to_action());
}

#[test]
fn copies_are_equal() {
    let ev = AppEvent::Batch {
        cmds: vec![
            AppEvent::RenameProc { name: "x".to_string() },
            AppEvent::Batch { cmds: vec![AppEvent::ScrollUpLines { n: 2 }] },
            AppEvent::SendKey { key: Key { spec: "<C-a>".to_string() } },
        ],
    };
    assert_eq!(ev.clone(), ev);
}
