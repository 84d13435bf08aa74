//! Where the compositor places toplevel windows. In multi-output mode the
//! first live toplevel goes to the primary output and the second to the
//! secondary output; every other window goes to the primary output. The
//! same rule serves Wayland toplevels and X11 windows.
use vstd::prelude::*;

verus! {

/// One of the two outputs of the compositor.
#[derive(Clone, Copy, Debug, PartialEq, Eq, Structural)]
pub enum OutputTarget {
    Primary,
    Secondary,
}

/// What routing reads of the compositor: whether multi-output mode is on,
/// whether a secondary output exists, and how many windows each output's
/// space holds.
#[derive(Clone, Copy, Debug, PartialEq, Eq, Structural)]
pub struct RoutingState {
    pub multi_output_enabled: bool,
    pub has_secondary_output: bool,
    pub primary_windows: usize,
    pub secondary_windows: usize,
}

/// A new toplevel goes to the secondary output exactly when multi-output
/// mode is on, a secondary output exists, the primary space already holds a
/// window and the secondary space holds none.
pub open spec fn routes_to_secondary(st: RoutingState) -> bool {
    &&& st.multi_output_enabled
    &&& st.has_secondary_output
    &&& st.primary_windows >= 1
    &&& st.secondary_windows == 0
}

/// The output a new toplevel is placed on.
pub open spec fn spec_route(st: RoutingState) -> OutputTarget {
    if routes_to_secondary(st) {
        OutputTarget::Secondary
    } else {
        OutputTarget::Primary
    }
}

/// The window counts after one more window was mapped on `target`.
pub open spec fn spec_after_map(st: RoutingState, target: OutputTarget) -> RoutingState {
    match target {
        OutputTarget::Primary => RoutingState { primary_windows: (st.primary_windows + 1) as usize, ..st },
        OutputTarget::Secondary => RoutingState {
            secondary_windows: (st.secondary_windows + 1) as usize,
            ..st
        },
    }
}

/// Chooses the output for a new toplevel window.
pub fn route_new_toplevel(st: &RoutingState) -> (target: OutputTarget)
    ensures
        target == spec_route(*st),
{
    if st.multi_output_enabled && st.has_secondary_output && st.primary_windows >= 1
        && st.secondary_windows == 0 {
        OutputTarget::Secondary
    } else {
        OutputTarget::Primary
    }
}

/// Counts one more window mapped on `target`.
pub fn record_mapped(st: &RoutingState, target: OutputTarget) -> (next: RoutingState)
    requires
        target == OutputTarget::Primary ==> st.primary_windows < usize::MAX,
        target == OutputTarget::Secondary ==> st.secondary_windows < usize::MAX,
    ensures
        next == spec_after_map(*st, target),
{
    match target {
        OutputTarget::Primary => RoutingState { primary_windows: st.primary_windows + 1, ..*st },
        OutputTarget::Secondary => RoutingState {
            secondary_windows: st.secondary_windows + 1,
            ..*st
        },
    }
}

/// With both spaces empty, multi-output mode on and a secondary output
/// present, the first window goes to the primary output, the second to the
/// secondary output, and the third to the primary output again.
pub proof fn law_first_primary_second_secondary(st: RoutingState)
    requires
        st.multi_output_enabled,
        st.has_secondary_output,
        st.primary_windows == 0,
        st.secondary_windows == 0,
    ensures
        spec_route(st) == OutputTarget::Primary,
        spec_route(spec_after_map(st, spec_route(st))) == OutputTarget::Secondary,
        spec_route(
            spec_after_map(
                spec_after_map(st, spec_route(st)),
                spec_route(spec_after_map(st, spec_route(st))),
            ),
        ) == OutputTarget::Primary,
{
}

/// Without multi-output mode, or without a secondary output, every window
/// goes to the primary output.
pub proof fn law_single_output_routes_primary(st: RoutingState)
    requires
        !st.multi_output_enabled || !st.has_secondary_output,
    ensures
        spec_route(st) == OutputTarget::Primary,
{
}

/// Mapping windows by the routing rule never puts a second window on the
/// secondary output: a secondary space with at most one window keeps at
/// most one.
pub proof fn law_secondary_holds_at_most_one(st: RoutingState)
    requires
        st.secondary_windows <= 1,
        st.primary_windows < usize::MAX,
    ensures
        spec_after_map(st, spec_route(st)).secondary_windows <= 1,
{
}

/// The secondary output only ever receives a window while the primary
/// output already shows one.
pub proof fn law_secondary_only_after_primary(st: RoutingState)
    requires
        spec_route(st) == OutputTarget::Secondary,
    ensures
        st.primary_windows >= 1,
        st.secondary_windows == 0,
{
}


/// A new toplevel goes to the secondary output whenever multi-output mode
/// is on, a secondary output exists, the primary space shows at least one
/// window (however many) and the secondary space is empty; in every other
/// state it goes to the primary output.
pub proof fn law_route_conditions(st: RoutingState)
    ensures
        st.multi_output_enabled && st.has_secondary_output && st.primary_windows >= 1
            && st.secondary_windows == 0 ==> spec_route(st) == OutputTarget::Secondary,
        !st.multi_output_enabled || !st.has_secondary_output || st.primary_windows == 0
            || st.secondary_windows > 0 ==> spec_route(st) == OutputTarget::Primary,
{
}

/// Once the primary space shows a window, how many it shows does not change
/// where the next toplevel goes.
pub proof fn law_route_ignores_primary_count(a: RoutingState, b: RoutingState)
    requires
        a.multi_output_enabled == b.multi_output_enabled,
        a.has_secondary_output == b.has_secondary_output,
        a.secondary_windows == b.secondary_windows,
        a.primary_windows >= 1,
        b.primary_windows >= 1,
    ensures
        spec_route(a) == spec_route(b),
{
}

/// Mapping a window adds one to the count of the space it went to and
/// leaves everything else as it was.
pub proof fn law_record_mapped_counts(st: RoutingState, target: OutputTarget)
    requires
        st.primary_windows < usize::MAX,
        st.secondary_windows < usize::MAX,
    ensures
        spec_after_map(st, target).multi_output_enabled == st.multi_output_enabled,
        spec_after_map(st, target).has_secondary_output == st.has_secondary_output,
        spec_after_map(st, target).primary_windows == st.primary_windows + (if target
            == OutputTarget::Primary {
            1int
        } else {
            0int
        }),
        spec_after_map(st, target).secondary_windows == st.secondary_windows + (if target
            == OutputTarget::Secondary {
            1int
        } else {
            0int
        }),
{
}

/// What a commit of a pending toplevel reads: whether its initial configure
/// was sent, and whether the client left its maximum size unset (zero by
/// zero).
#[derive(Clone, Copy, Debug, PartialEq, Eq, Structural)]
pub struct PendingToplevel {
    pub initial_configure_sent: bool,
    pub max_size_unset: bool,
}

/// What a commit of a popup reads: whether it is an xdg popup, and whether
/// its initial configure was sent.
#[derive(Clone, Copy, Debug, PartialEq, Eq, Structural)]
pub struct PopupCommit {
    pub is_xdg: bool,
    pub initial_configure_sent: bool,
}

/// What the commit handler reads of the compositor for one committed
/// surface.
#[derive(Clone, Copy, Debug, PartialEq, Eq, Structural)]
pub struct CommitFacts {
    /// A window of the primary space has this surface.
    pub in_primary_space: bool,
    /// A window of the secondary space has this surface.
    pub in_secondary_space: bool,
    /// The surface belongs to a toplevel that waits to be mapped.
    pub pending_toplevel: Option<PendingToplevel>,
    /// The primary output exists.
    pub has_output: bool,
    pub routing: RoutingState,
    /// The surface belongs to a popup.
    pub popup: Option<PopupCommit>,
}

/// What happens to a pending toplevel on commit.
#[derive(Clone, Copy, Debug, PartialEq, Eq, Structural)]
pub enum ToplevelStep {
    /// The surface is no pending toplevel.
    NotPending,
    /// There is no output yet: the toplevel leaves the pending list and the
    /// handler stops.
    Dropped,
    /// Its initial configure goes out, sized to `target` and fullscreen when
    /// `fullscreen`, always activated; it stays pending.
    Configure { target: OutputTarget, fullscreen: bool },
    /// It is mapped at the origin of `target`'s space, counted, and given
    /// keyboard focus.
    MapWindow { target: OutputTarget },
}

/// What happens to a popup on commit.
#[derive(Clone, Copy, Debug, PartialEq, Eq, Structural)]
pub enum PopupStep {
    /// Nothing: no popup, or the commit was handled as a toplevel.
    Nothing,
    /// Its initial configure goes out.
    SendInitialConfigure,
    /// Its initial configure went out earlier; nothing to do.
    AlreadyConfigured,
}

/// The steps of one commit. The buffer handler and the popup manager see
/// every commit before these steps.
#[derive(Clone, Copy, Debug, PartialEq, Eq, Structural)]
pub struct CommitPlan {
    pub commit_primary_window: bool,
    pub commit_secondary_window: bool,
    pub toplevel: ToplevelStep,
    pub popup: PopupStep,
}

/// The steps of a commit, as the compositor takes them.
pub open spec fn spec_plan_commit(f: CommitFacts) -> CommitPlan {
    let toplevel = match f.pending_toplevel {
        None => ToplevelStep::NotPending,
        Some(p) => if !f.has_output {
            ToplevelStep::Dropped
        } else if !p.initial_configure_sent {
            ToplevelStep::Configure { target: spec_route(f.routing), fullscreen: p.max_size_unset }
        } else {
            ToplevelStep::MapWindow { target: spec_route(f.routing) }
        },
    };
    let popup = match (f.pending_toplevel, f.popup) {
        (None, Some(p)) => if p.initial_configure_sent {
            PopupStep::AlreadyConfigured
        } else {
            PopupStep::SendInitialConfigure
        },
        _ => PopupStep::Nothing,
    };
    CommitPlan {
        commit_primary_window: f.in_primary_space,
        commit_secondary_window: f.in_secondary_space,
        toplevel,
        popup,
    }
}

/// Decides the steps of a surface commit: windows of either space get their
/// commit; a pending toplevel is configured first and mapped on the commit
/// after its initial configure; a popup gets its initial configure once.
/// A popup that is no xdg popup cannot be handled.
pub fn plan_commit(f: &CommitFacts) -> (plan: CommitPlan)
    requires
        f.pending_toplevel is None && f.popup is Some ==> f.popup->0.is_xdg,
    ensures
        plan == spec_plan_commit(*f),
{
    let toplevel = match f.pending_toplevel {
        None => ToplevelStep::NotPending,
        Some(p) => {
            if !f.has_output {
                ToplevelStep::Dropped
            } else if !p.initial_configure_sent {
                ToplevelStep::Configure {
                    target: route_new_toplevel(&f.routing),
                    fullscreen: p.max_size_unset,
                }
            } else {
                ToplevelStep::MapWindow { target: route_new_toplevel(&f.routing) }
            }
        },
    };
    let popup = match (f.pending_toplevel, f.popup) {
        (None, Some(p)) => {
            if p.initial_configure_sent {
                PopupStep::AlreadyConfigured
            } else {
                PopupStep::SendInitialConfigure
            }
        },
        _ => PopupStep::Nothing,
    };
    CommitPlan {
        commit_primary_window: f.in_primary_space,
        commit_secondary_window: f.in_secondary_space,
        toplevel,
        popup,
    }
}

/// A toplevel is mapped only on a commit after its initial configure was
/// sent, and only while an output exists; a toplevel whose initial
/// configure is still due is configured, never mapped.
pub proof fn law_map_only_after_configure(f: CommitFacts)
    ensures
        spec_plan_commit(f).toplevel is MapWindow ==> f.has_output && f.pending_toplevel is Some
            && f.pending_toplevel->0.initial_configure_sent,
        f.has_output && f.pending_toplevel is Some && !f.pending_toplevel->0.initial_configure_sent
            ==> spec_plan_commit(f).toplevel is Configure,
{
}

/// A toplevel is configured for and mapped on the output that the routing
/// rule picks.
pub proof fn law_commit_follows_routing(f: CommitFacts)
    ensures
        match spec_plan_commit(f).toplevel {
            ToplevelStep::Configure { target, fullscreen: _ } => target == spec_route(f.routing),
            ToplevelStep::MapWindow { target } => target == spec_route(f.routing),
            _ => true,
        },
{
}

/// Every window of either space that has the committed surface gets the
/// commit, and no other.
pub proof fn law_commit_reaches_windows(f: CommitFacts)
    ensures
        spec_plan_commit(f).commit_primary_window == f.in_primary_space,
        spec_plan_commit(f).commit_secondary_window == f.in_secondary_space,
{
}

/// The initial configure of a pending toplevel is fullscreen exactly when
/// the client left its maximum size unset, in every routing state; it is
/// sized to the output the routing rule picks.
pub proof fn law_configure_fullscreen_follows_max_size(f: CommitFacts, p: PendingToplevel)
    requires
        f.has_output,
        f.pending_toplevel == Some(p),
        !p.initial_configure_sent,
    ensures
        spec_plan_commit(f).toplevel matches ToplevelStep::Configure { target, fullscreen }
            && fullscreen == p.max_size_unset && (target == OutputTarget::Secondary
            <==> (f.routing.multi_output_enabled && f.routing.has_secondary_output
            && f.routing.primary_windows >= 1 && f.routing.secondary_windows == 0)),
{
}

/// A configured pending toplevel is mapped on the output the routing rule
/// picks; without an output a pending toplevel is dropped; a surface that
/// is no pending toplevel has no toplevel step.
pub proof fn law_toplevel_step_cases(f: CommitFacts)
    ensures
        f.pending_toplevel is None ==> spec_plan_commit(f).toplevel == ToplevelStep::NotPending,
        f.pending_toplevel is Some && !f.has_output ==> spec_plan_commit(f).toplevel
            == ToplevelStep::Dropped,
        f.pending_toplevel is Some && f.has_output && f.pending_toplevel->0.initial_configure_sent
            ==> (spec_plan_commit(f).toplevel matches ToplevelStep::MapWindow { target } && (target
            == OutputTarget::Secondary <==> (f.routing.multi_output_enabled
            && f.routing.has_secondary_output && f.routing.primary_windows >= 1
            && f.routing.secondary_windows == 0))),
{
}

/// A popup that is committed (and is no pending toplevel) gets its initial
/// configure exactly when that configure was not sent yet, whatever the
/// routing state; a commit handled as a pending toplevel, or of no popup,
/// does nothing to popups.
pub proof fn law_popup_configured_once(f: CommitFacts)
    ensures
        f.pending_toplevel is None && f.popup is Some ==> (spec_plan_commit(f).popup
            == PopupStep::SendInitialConfigure <==> !f.popup->0.initial_configure_sent),
        f.pending_toplevel is None && f.popup is Some ==> (spec_plan_commit(f).popup
            == PopupStep::AlreadyConfigured <==> f.popup->0.initial_configure_sent),
        f.pending_toplevel is Some || f.popup is None ==> spec_plan_commit(f).popup
            == PopupStep::Nothing,
{
}

/// Whether a configure step asks for fullscreen; `None` for other steps.
pub open spec fn configure_fullscreen(step: ToplevelStep) -> Option<bool> {
    match step {
        ToplevelStep::Configure { target: _, fullscreen } => Some(fullscreen),
        _ => None,
    }
}

/// Two commits that differ only in the routing state have the same window
/// commits, the same popup step, and the same toplevel step up to the
/// output chosen.
pub proof fn law_commit_routing_only_picks_output(a: CommitFacts, b: CommitFacts)
    requires
        a.in_primary_space == b.in_primary_space,
        a.in_secondary_space == b.in_secondary_space,
        a.pending_toplevel == b.pending_toplevel,
        a.has_output == b.has_output,
        a.popup == b.popup,
    ensures
        spec_plan_commit(a).commit_primary_window == spec_plan_commit(b).commit_primary_window,
        spec_plan_commit(a).commit_secondary_window == spec_plan_commit(
            b,
        ).commit_secondary_window,
        spec_plan_commit(a).popup == spec_plan_commit(b).popup,
        spec_plan_commit(a).toplevel is NotPending <==> spec_plan_commit(b).toplevel is NotPending,
        spec_plan_commit(a).toplevel is Dropped <==> spec_plan_commit(b).toplevel is Dropped,
        spec_plan_commit(a).toplevel is MapWindow <==> spec_plan_commit(b).toplevel is MapWindow,
        configure_fullscreen(spec_plan_commit(a).toplevel) == configure_fullscreen(
            spec_plan_commit(b).toplevel,
        ),
{
}

} // verus!
