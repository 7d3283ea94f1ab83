//! Shell initializer logic: the fixed window-initialization sequence.
//!
//! The library decides, from the build mode and from whether the main
//! window was found, which setup actions run and in what order; the
//! binary around it performs each action against the windowing
//! framework and aborts startup on any failure the design calls fatal.

use vstd::prelude::*;

verus! {

/// The build mode, threaded explicitly so both paths stay testable in
/// one binary: development builds attach diagnostics and open the
/// inspection panel, production builds do neither.
#[derive(Clone, Copy, PartialEq, Eq, Structural, Debug)]
pub enum BuildMode {
    Development,
    Production,
}

/// One step of the shell-initialization sequence, to be performed
/// against the windowing framework in plan order.
#[derive(Clone, Copy, PartialEq, Eq, Structural, Debug)]
pub enum SetupAction {
    /// Attach the diagnostic log sink, filtered to informational
    /// severity and above. Failure is fatal to startup.
    AttachLogSink,
    /// Log a non-fatal warning that the main window was not found.
    WarnMissingWindow,
    /// Make the main window visible.
    ShowWindow,
    /// Center the main window on its display.
    CenterWindow,
    /// Give the main window input focus.
    FocusWindow,
    /// Open the developer inspection panel on the main window.
    OpenDevtools,
}

/// Whether an action operates on the main window itself.
pub open spec fn is_window_op(a: SetupAction) -> bool {
    a is ShowWindow || a is CenterWindow || a is FocusWindow
}

/// The exact setup sequence for a build mode and a window-lookup
/// outcome. A missing window is recoverable: the sequence still ends
/// normally, with a warning in place of the window operations.
pub open spec fn setup_sequence(mode: BuildMode, window_present: bool) -> Seq<SetupAction> {
    let sink: Seq<SetupAction> = if mode is Development {
        seq![SetupAction::AttachLogSink]
    } else {
        Seq::empty()
    };
    if window_present {
        let panel: Seq<SetupAction> = if mode is Development {
            seq![SetupAction::OpenDevtools]
        } else {
            Seq::empty()
        };
        sink + seq![SetupAction::ShowWindow, SetupAction::CenterWindow, SetupAction::FocusWindow]
            + panel
    } else {
        sink + seq![SetupAction::WarnMissingWindow]
    }
}

/// Plans the shell initialization: returns the actions to perform, in
/// order, for the given build mode and window-lookup outcome. Total:
/// every outcome has a plan, so a missing window never aborts planning.
pub fn setup_plan(mode: BuildMode, window_present: bool) -> (r: Vec<SetupAction>)
    ensures
        r@ == setup_sequence(mode, window_present),
{
    let mut plan: Vec<SetupAction> = Vec::new();
    if matches!(mode, BuildMode::Development) {
        plan.push(SetupAction::AttachLogSink);
    }
    if window_present {
        plan.push(SetupAction::ShowWindow);
        plan.push(SetupAction::CenterWindow);
        plan.push(SetupAction::FocusWindow);
        if matches!(mode, BuildMode::Development) {
            plan.push(SetupAction::OpenDevtools);
        }
    } else {
        plan.push(SetupAction::WarnMissingWindow);
    }
    proof {
        assert(plan@ =~= setup_sequence(mode, window_present));
    }
    plan
}

/// The window operations of a sequence, in order.
pub open spec fn window_ops(s: Seq<SetupAction>) -> Seq<SetupAction>
    decreases s.len(),
{
    if s.len() == 0 {
        Seq::empty()
    } else if is_window_op(s.first()) {
        seq![s.first()] + window_ops(s.drop_first())
    } else {
        window_ops(s.drop_first())
    }
}

/// The window operations of a concatenation are the concatenation of
/// the window operations of the parts, in order.
proof fn lemma_window_ops_concat(a: Seq<SetupAction>, b: Seq<SetupAction>)
    ensures
        window_ops(a + b) == window_ops(a) + window_ops(b),
    decreases a.len(),
{
    if a.len() == 0 {
        assert(a + b =~= b);
        assert(window_ops(a) + window_ops(b) =~= window_ops(b));
    } else {
        assert((a + b).len() > 0);
        assert((a + b).first() == a.first());
        assert((a + b).drop_first() =~= a.drop_first() + b);
        lemma_window_ops_concat(a.drop_first(), b);
        if is_window_op(a.first()) {
            assert(seq![a.first()] + (window_ops(a.drop_first()) + window_ops(b)) =~= (seq![
                a.first(),
            ] + window_ops(a.drop_first())) + window_ops(b));
        }
    }
}

/// The window operations of a single action: the action itself when it
/// is one, nothing otherwise.
proof fn lemma_window_ops_singleton(x: SetupAction)
    ensures
        window_ops(seq![x]) == if is_window_op(x) {
            seq![x]
        } else {
            Seq::<SetupAction>::empty()
        },
{
    let s = seq![x];
    let e = Seq::<SetupAction>::empty();
    assert(s.len() == 1);
    assert(s.first() == x);
    assert(s.drop_first() =~= e);
    assert(window_ops(e) == e);
    if is_window_op(x) {
        assert(window_ops(s) == seq![x] + e);
        assert(seq![x] + e =~= seq![x]);
    }
}

/// The window operations of the sequence for any mode and lookup
/// outcome, by decomposing it action by action.
proof fn lemma_setup_sequence_window_ops(mode: BuildMode, window_present: bool)
    ensures
        window_ops(setup_sequence(mode, window_present)) == if window_present {
            seq![SetupAction::ShowWindow, SetupAction::CenterWindow, SetupAction::FocusWindow]
        } else {
            Seq::<SetupAction>::empty()
        },
{
    let s = setup_sequence(mode, window_present);
    let sink: Seq<SetupAction> = if mode is Development {
        seq![SetupAction::AttachLogSink]
    } else {
        Seq::empty()
    };
    lemma_window_ops_singleton(SetupAction::AttachLogSink);
    lemma_window_ops_singleton(SetupAction::WarnMissingWindow);
    lemma_window_ops_singleton(SetupAction::ShowWindow);
    lemma_window_ops_singleton(SetupAction::CenterWindow);
    lemma_window_ops_singleton(SetupAction::FocusWindow);
    lemma_window_ops_singleton(SetupAction::OpenDevtools);
    assert(window_ops(Seq::<SetupAction>::empty()) == Seq::<SetupAction>::empty());
    if mode is Development {
        assert(sink =~= seq![SetupAction::AttachLogSink]);
    }
    if window_present {
        let ops = seq![SetupAction::ShowWindow, SetupAction::CenterWindow, SetupAction::FocusWindow];
        let panel: Seq<SetupAction> = if mode is Development {
            seq![SetupAction::OpenDevtools]
        } else {
            Seq::empty()
        };
        if mode is Development {
            assert(panel =~= seq![SetupAction::OpenDevtools]);
        }
        assert(ops =~= seq![SetupAction::ShowWindow] + seq![SetupAction::CenterWindow] + seq![
            SetupAction::FocusWindow,
        ]);
        lemma_window_ops_concat(seq![SetupAction::ShowWindow], seq![SetupAction::CenterWindow]);
        lemma_window_ops_concat(
            seq![SetupAction::ShowWindow] + seq![SetupAction::CenterWindow],
            seq![SetupAction::FocusWindow],
        );
        lemma_window_ops_concat(sink, ops);
        lemma_window_ops_concat(sink + ops, panel);
        assert(window_ops(s) =~= seq![
            SetupAction::ShowWindow,
            SetupAction::CenterWindow,
            SetupAction::FocusWindow,
        ]);
    } else {
        lemma_window_ops_concat(sink, seq![SetupAction::WarnMissingWindow]);
        assert(window_ops(s) =~= Seq::<SetupAction>::empty());
    }
}

/// When the main window exists, the plan's window operations are
/// exactly show, then center, then focus, in that order, in either
/// build mode; and a production build never opens the developer
/// inspection panel.
pub proof fn lemma_present_window_order(mode: BuildMode)
    ensures
        window_ops(setup_sequence(mode, true)) == seq![
            SetupAction::ShowWindow,
            SetupAction::CenterWindow,
            SetupAction::FocusWindow,
        ],
        mode is Production ==> !setup_sequence(mode, true).contains(SetupAction::OpenDevtools),
{
    lemma_setup_sequence_window_ops(mode, true);
    if mode is Production {
        let prod = setup_sequence(BuildMode::Production, true);
        assert(prod =~= seq![
            SetupAction::ShowWindow,
            SetupAction::CenterWindow,
            SetupAction::FocusWindow,
        ]);
        assert forall|i: int| 0 <= i < prod.len() implies prod[i] != SetupAction::OpenDevtools by {}
    }
}

/// When the main window lookup comes back absent, the plan holds no
/// window operation and no developer-inspection step, in either build
/// mode: initialization still completes, only without configuring a
/// window.
pub proof fn lemma_absent_window_no_ops(mode: BuildMode)
    ensures
        window_ops(setup_sequence(mode, false)) == Seq::<SetupAction>::empty(),
        !setup_sequence(mode, false).contains(SetupAction::OpenDevtools),
{
    lemma_setup_sequence_window_ops(mode, false);
    let s = setup_sequence(mode, false);
    assert forall|i: int| 0 <= i < s.len() implies s[i] != SetupAction::OpenDevtools by {
        if mode is Development {
            assert(s =~= seq![SetupAction::AttachLogSink, SetupAction::WarnMissingWindow]);
        } else {
            assert(s =~= seq![SetupAction::WarnMissingWindow]);
        }
    }
}

/// Whether this build auto-starts the backend: only development builds
/// spawn it; production builds assume a bundled, self-starting backend
/// and must not attempt a spawn.
pub fn backend_autostart(mode: BuildMode) -> (r: bool)
    ensures
        r <==> mode is Development,
{
    matches!(mode, BuildMode::Development)
}

} // verus!
