use save_syncer::homepage::{scrollable_option_colors, scrollable_row, Rgb, RowPiece, ActionError, ActionOutcome, FollowUp, homepage_layout, control_label};
use save_syncer::homepage::{
    build_view, cur_poll_idx, poll_time_option, ExternalState, HomePageSelection, HomepageAction,
    HomepageState, Span, POLL_OPTION_COUNT,
};

const ALL: [HomePageSelection; 8] = [
    HomePageSelection::Nothing,
    HomePageSelection::DaemonInstalledBox,
    HomePageSelection::DaemonRunningBox,
    HomePageSelection::PollTimeSelection,
    HomePageSelection::FsnotifyBox,
    HomePageSelection::ReinstallDaemon,
    HomePageSelection::UninstallDaemon,
    HomePageSelection::ForceSyncButton,
];

fn secs(s: u64) -> Span {
    Span { secs: s, nanos: 0 }
}

fn is_button(s: HomePageSelection) -> bool {
    matches!(
        s,
        HomePageSelection::ReinstallDaemon
            | HomePageSelection::UninstallDaemon
            | HomePageSelection::ForceSyncButton
    )
}

#[test]
fn poll_index_of_exact_and_between_values() {
    assert_eq!(cur_poll_idx(secs(0)), 0);
    assert_eq!(cur_poll_idx(secs(60)), 0);
    assert_eq!(cur_poll_idx(secs(61)), 1);
    assert_eq!(cur_poll_idx(secs(300)), 1);
    assert_eq!(cur_poll_idx(secs(301)), 2);
    assert_eq!(cur_poll_idx(secs(28800)), 8);
    assert_eq!(cur_poll_idx(secs(28801)), 9);
    assert_eq!(cur_poll_idx(Span { secs: u64::MAX, nanos: 999_999_999 }), 9);
}

#[test]
fn every_option_is_found_at_its_index() {
    for k in 0..POLL_OPTION_COUNT {
        assert_eq!(cur_poll_idx(poll_time_option(k)), k);
    }
    assert_eq!(poll_time_option(5), secs(3600));
    assert_eq!(poll_time_option(9), Span { secs: u64::MAX, nanos: 999_999_999 });
}

#[test]
fn left_and_right_undo_each_other() {
    for s in ALL {
        assert_eq!(s.left().right(), s);
        assert_eq!(s.right().left(), s);
        assert_eq!(s.left().left().left(), s);
        if !is_button(s) {
            assert_eq!(s.left(), s);
            assert_eq!(s.right(), s);
        }
    }
    assert_eq!(HomePageSelection::ReinstallDaemon.right(), HomePageSelection::UninstallDaemon);
    assert_eq!(HomePageSelection::UninstallDaemon.right(), HomePageSelection::ForceSyncButton);
    assert_eq!(HomePageSelection::ForceSyncButton.right(), HomePageSelection::ReinstallDaemon);
}

#[test]
fn up_undoes_down_off_the_bottom_row() {
    for s in ALL {
        if !is_button(s) {
            assert_eq!(s.down().up(), s);
        }
    }
    assert_eq!(HomePageSelection::UninstallDaemon.down().up(), HomePageSelection::Nothing);
}

#[test]
fn down_walks_the_column() {
    let mut s = HomePageSelection::Nothing;
    let expected = [
        HomePageSelection::DaemonInstalledBox,
        HomePageSelection::DaemonRunningBox,
        HomePageSelection::PollTimeSelection,
        HomePageSelection::FsnotifyBox,
        HomePageSelection::ReinstallDaemon,
        HomePageSelection::Nothing,
    ];
    for e in expected {
        s = s.down();
        assert_eq!(s, e);
    }
    assert_eq!(HomePageSelection::Nothing.up(), HomePageSelection::Nothing);
    assert_eq!(HomePageSelection::ForceSyncButton.up(), HomePageSelection::FsnotifyBox);
    assert_eq!(HomePageSelection::default(), HomePageSelection::Nothing);
}

#[test]
fn left_on_poll_time_asks_for_shorter_interval() {
    let mut st = HomepageState::new();
    st.down();
    st.down();
    st.down();
    assert_eq!(st.selection, HomePageSelection::PollTimeSelection);
    assert_eq!(st.left(secs(600)), HomepageAction::SetPollInterval(secs(300)));
    assert_eq!(st.left(secs(60)), HomepageAction::SetPollInterval(secs(60)));
    assert_eq!(st.left(secs(61)), HomepageAction::SetPollInterval(secs(60)));
    assert_eq!(st.selection, HomePageSelection::PollTimeSelection);
}

#[test]
fn right_on_poll_time_asks_for_longer_interval() {
    let mut st = HomepageState { pressed: false, selection: HomePageSelection::PollTimeSelection };
    assert_eq!(st.right(secs(600)), HomepageAction::SetPollInterval(secs(900)));
    assert_eq!(st.right(secs(28800)), HomepageAction::SetPollInterval(poll_time_option(9)));
    assert_eq!(st.right(poll_time_option(9)), HomepageAction::SetPollInterval(poll_time_option(9)));
    // a shorter then a longer step come back to the configured option
    if let HomepageAction::SetPollInterval(p) = st.left(secs(1800)) {
        assert_eq!(st.right(p), HomepageAction::SetPollInterval(secs(1800)));
    } else {
        panic!("expected a poll interval");
    }
}

#[test]
fn arrows_elsewhere_move_the_selection() {
    let mut st = HomepageState { pressed: false, selection: HomePageSelection::ReinstallDaemon };
    assert_eq!(st.left(secs(60)), HomepageAction::Stay);
    assert_eq!(st.selection, HomePageSelection::ForceSyncButton);
    assert_eq!(st.right(secs(60)), HomepageAction::Stay);
    assert_eq!(st.selection, HomePageSelection::ReinstallDaemon);
    st.up();
    assert_eq!(st.selection, HomePageSelection::FsnotifyBox);
}

#[test]
fn release_actions() {
    let mut ext = ExternalState::new();
    let mut st = HomepageState::new();
    st.press();
    assert!(st.pressed);
    let cases = [
        (HomePageSelection::ReinstallDaemon, HomepageAction::ReinstallDaemon),
        (HomePageSelection::UninstallDaemon, HomepageAction::UninstallDaemon),
        (HomePageSelection::ForceSyncButton, HomepageAction::ForceSync),
        (HomePageSelection::DaemonInstalledBox, HomepageAction::InstallDaemon),
        (HomePageSelection::DaemonRunningBox, HomepageAction::StartDaemon),
        (HomePageSelection::FsnotifyBox, HomepageAction::SetSyncOnFileChange(true)),
        (HomePageSelection::PollTimeSelection, HomepageAction::Stay),
        (HomePageSelection::Nothing, HomepageAction::Stay),
    ];
    for (sel, act) in cases {
        st.selection = sel;
        assert_eq!(st.release(&ext), act);
    }
    ext.daemon_installed = true;
    ext.daemon_running = true;
    ext.fs_notify_enabled = true;
    st.selection = HomePageSelection::DaemonInstalledBox;
    assert_eq!(st.release(&ext), HomepageAction::UninstallDaemon);
    st.selection = HomePageSelection::DaemonRunningBox;
    assert_eq!(st.release(&ext), HomepageAction::StopDaemon);
    st.selection = HomePageSelection::FsnotifyBox;
    assert_eq!(st.release(&ext), HomepageAction::SetSyncOnFileChange(false));
    assert!(st.pressed);
    st.finish_release();
    assert!(!st.pressed);
}

#[test]
fn reload_reports_changes() {
    let mut ext = ExternalState::new();
    let fresh = ExternalState {
        daemon_installed: true,
        daemon_running: false,
        fs_notify_enabled: false,
        poll_interval: secs(300),
    };
    assert!(ext.reload(fresh));
    assert_eq!(ext, fresh);
    assert!(!ext.reload(fresh));
    assert!(!ext.reload_installed(true));
    assert!(ext.reload_running(true));
    assert!(!ext.reload_config(secs(300), false));
    assert!(ext.reload_config(Span { secs: 300, nanos: 1 }, false));
    assert!(ext.reload_config(Span { secs: 300, nanos: 1 }, true) );
}

#[test]
fn view_highlights_the_selection_only() {
    for sel in ALL {
        for pressed in [false, true] {
            let v = build_view(sel, pressed, true, false, secs(60), true);
            let n = [
                v.installed_selected,
                v.running_selected,
                v.poll_selected,
                v.fs_notify_selected,
                v.reinstall_selected,
                v.uninstall_selected,
                v.sync_selected,
            ]
            .iter()
            .filter(|b| **b)
            .count();
            assert_eq!(n, if sel == HomePageSelection::Nothing { 0 } else { 1 });
            assert_eq!(v.reinstall_pressed, pressed && sel == HomePageSelection::ReinstallDaemon);
            assert!(v.installed_checked && !v.running_checked && v.fs_notify_checked);
            assert_eq!(v.poll_interval, secs(60));
        }
    }
    let st = HomepageState { pressed: true, selection: HomePageSelection::ForceSyncButton };
    let ext = ExternalState::new();
    let v = st.build_view(&ext);
    assert!(v.sync_selected && v.sync_pressed && !v.installed_checked);
}

#[test]
fn scrollable_colours() {
    let blue = Rgb { r: 0, g: 0, b: 255 };
    let black = Rgb { r: 0, g: 0, b: 0 };
    let c = scrollable_option_colors(true);
    assert_eq!((c.label, c.arrows, c.option), (blue, blue, blue));
    let c = scrollable_option_colors(false);
    assert_eq!((c.label, c.arrows, c.option), (black, black, black));
}

#[test]
fn scrollable_row_pieces_in_order() {
    let blue = Rgb { r: 0, g: 0, b: 255 };
    let black = Rgb { r: 0, g: 0, b: 0 };
    let r = scrollable_row("Poll time", "5m", true);
    assert_eq!(
        r.pieces,
        vec![
            RowPiece::Text { text: "Poll time".to_string(), color: blue },
            RowPiece::Spacer,
            RowPiece::Text { text: "<".to_string(), color: blue },
            RowPiece::Text { text: "5m".to_string(), color: blue },
            RowPiece::Text { text: ">".to_string(), color: blue },
        ]
    );
    let r = scrollable_row("Poll time", "1h", false);
    assert_eq!(r.pieces[3], RowPiece::Text { text: "1h".to_string(), color: black });
    assert_eq!(r.pieces[0], RowPiece::Text { text: "Poll time".to_string(), color: black });
}

#[test]
fn after_release_follow_ups() {
    let held = HomepageState { pressed: true, selection: HomePageSelection::DaemonInstalledBox };
    // success: reload, button still held until the reload is done
    let mut st = held;
    assert_eq!(st.after_release(HomepageAction::InstallDaemon, ActionOutcome::Done), Ok(FollowUp::Reload));
    assert!(st.pressed);
    st.finish_release();
    assert!(!st.pressed);
    // failure: error passed on, button still held
    let mut st = held;
    assert_eq!(
        st.after_release(HomepageAction::UninstallDaemon, ActionOutcome::Failed),
        Err(ActionError::ActionFailed(HomepageAction::UninstallDaemon))
    );
    assert!(st.pressed);
    let mut st = held;
    assert_eq!(
        st.after_release(HomepageAction::StartDaemon, ActionOutcome::NotFound),
        Err(ActionError::ActionFailed(HomepageAction::StartDaemon))
    );
    assert!(st.pressed);
    // forced sync without a daemon: no error, no reload, button up
    let mut st = held;
    assert_eq!(st.after_release(HomepageAction::ForceSync, ActionOutcome::NotFound), Ok(FollowUp::Complete));
    assert!(!st.pressed);
    let mut st = held;
    assert_eq!(
        st.after_release(HomepageAction::ForceSync, ActionOutcome::Failed),
        Err(ActionError::ActionFailed(HomepageAction::ForceSync))
    );
    assert!(st.pressed);
    let mut st = held;
    assert_eq!(st.after_release(HomepageAction::ForceSync, ActionOutcome::Done), Ok(FollowUp::Reload));
    // nothing asked for: release complete
    let mut st = held;
    assert_eq!(st.after_release(HomepageAction::Stay, ActionOutcome::Done), Ok(FollowUp::Complete));
    assert!(!st.pressed);
    assert_eq!(st.selection, HomePageSelection::DaemonInstalledBox);
}

#[test]
fn after_poll_change_follow_ups() {
    let st = HomepageState { pressed: false, selection: HomePageSelection::PollTimeSelection };
    let a = HomepageAction::SetPollInterval(secs(300));
    assert_eq!(st.after_poll_change(a, ActionOutcome::Done), Ok(FollowUp::Reload));
    assert_eq!(st.after_poll_change(a, ActionOutcome::Failed), Err(ActionError::ActionFailed(a)));
}

#[test]
fn layout_and_moves_agree() {
    let rows = homepage_layout();
    assert_eq!(rows.len(), 5);
    assert_eq!(HomePageSelection::Nothing.down(), rows[0][0]);
    for i in 0..4 {
        assert_eq!(rows[i][0].down(), rows[i + 1][0]);
        assert_eq!(rows[i + 1][0].up(), rows[i][0]);
    }
    let buttons = &rows[4];
    assert_eq!(buttons.len(), 3);
    for j in 0..3 {
        assert_eq!(buttons[j].right(), buttons[(j + 1) % 3]);
        assert_eq!(buttons[j].left(), buttons[(j + 2) % 3]);
        assert_eq!(buttons[j].up(), rows[3][0]);
    }
    assert_eq!(buttons[0], HomePageSelection::ReinstallDaemon);
}

#[test]
fn control_labels() {
    assert_eq!(control_label(HomePageSelection::Nothing), None);
    assert_eq!(control_label(HomePageSelection::DaemonInstalledBox), Some("Daemon installed"));
    assert_eq!(control_label(HomePageSelection::DaemonRunningBox), Some("Daemon Running"));
    assert_eq!(control_label(HomePageSelection::PollTimeSelection), Some("Poll time"));
    assert_eq!(control_label(HomePageSelection::FsnotifyBox), Some("Sync on change"));
    assert_eq!(control_label(HomePageSelection::ReinstallDaemon), Some("Reinstall"));
    assert_eq!(control_label(HomePageSelection::UninstallDaemon), Some("Uninstall"));
    assert_eq!(control_label(HomePageSelection::ForceSyncButton), Some("Force Sync"));
}
