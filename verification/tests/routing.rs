use waylanddisplaycore::routing::{
    plan_commit, record_mapped, route_new_toplevel, CommitFacts, OutputTarget, PendingToplevel,
    PopupCommit, PopupStep, RoutingState, ToplevelStep,
};

fn multi(primary: usize, secondary: usize) -> RoutingState {
    RoutingState {
        multi_output_enabled: true,
        has_secondary_output: true,
        primary_windows: primary,
        secondary_windows: secondary,
    }
}

fn facts(pending: Option<PendingToplevel>, popup: Option<PopupCommit>) -> CommitFacts {
    CommitFacts {
        in_primary_space: false,
        in_secondary_space: false,
        pending_toplevel: pending,
        has_output: true,
        routing: multi(1, 0),
        popup,
    }
}

#[test]
fn first_window_primary_second_secondary_third_primary() {
    let mut st = multi(0, 0);
    let t1 = route_new_toplevel(&st);
    assert_eq!(t1, OutputTarget::Primary);
    st = record_mapped(&st, t1);
    let t2 = route_new_toplevel(&st);
    assert_eq!(t2, OutputTarget::Secondary);
    st = record_mapped(&st, t2);
    let t3 = route_new_toplevel(&st);
    assert_eq!(t3, OutputTarget::Primary);
    st = record_mapped(&st, t3);
    assert_eq!(st.primary_windows, 2);
    assert_eq!(st.secondary_windows, 1);
}

#[test]
fn without_multi_output_everything_is_primary() {
    let mut st = multi(1, 0);
    st.multi_output_enabled = false;
    assert_eq!(route_new_toplevel(&st), OutputTarget::Primary);
    let mut st = multi(1, 0);
    st.has_secondary_output = false;
    assert_eq!(route_new_toplevel(&st), OutputTarget::Primary);
}

#[test]
fn occupied_secondary_sends_to_primary() {
    assert_eq!(route_new_toplevel(&multi(3, 1)), OutputTarget::Primary);
}

#[test]
fn commit_of_plain_surface_commits_windows() {
    let mut f = facts(None, None);
    f.in_primary_space = true;
    f.in_secondary_space = true;
    let plan = plan_commit(&f);
    assert!(plan.commit_primary_window);
    assert!(plan.commit_secondary_window);
    assert_eq!(plan.toplevel, ToplevelStep::NotPending);
    assert_eq!(plan.popup, PopupStep::Nothing);
}

#[test]
fn pending_toplevel_is_configured_first() {
    let p = PendingToplevel { initial_configure_sent: false, max_size_unset: true };
    let plan = plan_commit(&facts(Some(p), None));
    assert_eq!(
        plan.toplevel,
        ToplevelStep::Configure { target: OutputTarget::Secondary, fullscreen: true }
    );
    let p = PendingToplevel { initial_configure_sent: false, max_size_unset: false };
    let mut f = facts(Some(p), None);
    f.routing = multi(0, 0);
    assert_eq!(
        plan_commit(&f).toplevel,
        ToplevelStep::Configure { target: OutputTarget::Primary, fullscreen: false }
    );
}

#[test]
fn configured_toplevel_is_mapped() {
    let p = PendingToplevel { initial_configure_sent: true, max_size_unset: true };
    let plan = plan_commit(&facts(Some(p), None));
    assert_eq!(plan.toplevel, ToplevelStep::MapWindow { target: OutputTarget::Secondary });
}

#[test]
fn pending_toplevel_without_output_is_dropped() {
    let p = PendingToplevel { initial_configure_sent: true, max_size_unset: true };
    let mut f = facts(Some(p), Some(PopupCommit { is_xdg: true, initial_configure_sent: false }));
    f.has_output = false;
    let plan = plan_commit(&f);
    assert_eq!(plan.toplevel, ToplevelStep::Dropped);
    assert_eq!(plan.popup, PopupStep::Nothing);
}

#[test]
fn popup_gets_initial_configure_once() {
    let plan = plan_commit(&facts(None, Some(PopupCommit { is_xdg: true, initial_configure_sent: false })));
    assert_eq!(plan.popup, PopupStep::SendInitialConfigure);
    let plan = plan_commit(&facts(None, Some(PopupCommit { is_xdg: true, initial_configure_sent: true })));
    assert_eq!(plan.popup, PopupStep::AlreadyConfigured);
}
