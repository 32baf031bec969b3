use vstd::prelude::*;
use crate::error::ToolkitError;
use crate::frame::FrameView;
use crate::toolkit::{items_plan, stops, tab_plan, InputEvent, Key, ToolkitView};
use crate::widget::{Color, Drawable, FrameAction, Widget};

verus! {

proof fn lemma_all_ok(f: FrameView, outcomes: Seq<Result<(), ToolkitError>>)
    requires
        f.failure is None,
        f.done + outcomes.len() <= f.actions.len(),
        forall|i: int| 0 <= i < outcomes.len() ==> #[trigger] outcomes[i] is Ok,
    ensures
        f.after_all(outcomes) == (FrameView { done: f.done + outcomes.len(), ..f }),
    decreases outcomes.len(),
{
    if outcomes.len() > 0 {
        let rest = outcomes.drop_last();
        assert forall|i: int| 0 <= i < rest.len() implies #[trigger] rest[i] is Ok by {
            assert(rest[i] == outcomes[i]);
        }
        lemma_all_ok(f, rest);
        assert(outcomes.last() == outcomes[outcomes.len() - 1]);
    }
}

/// A frame whose steps all succeed settles with the run flag it was given.
pub proof fn frame_without_failure_reports_run_flag(
    actions: Seq<FrameAction>,
    running: bool,
    outcomes: Seq<Result<(), ToolkitError>>,
)
    requires
        outcomes.len() == actions.len(),
        forall|i: int| 0 <= i < outcomes.len() ==> #[trigger] outcomes[i] is Ok,
    ensures
        FrameView::start(actions, running).after_all(outcomes).is_settled(),
        FrameView::start(actions, running).after_all(outcomes).result() == Ok::<
            bool,
            ToolkitError,
        >(running),
{
    lemma_all_ok(FrameView::start(actions, running), outcomes);
}

/// From a running state, a batch of events none of which is a quit request
/// or an escape key press leaves the toolkit running, and the frame of that
/// tick, once every step succeeds, reports that it should keep running.
pub proof fn quiet_events_keep_running(
    v: ToolkitView,
    events: Seq<InputEvent>,
    outcomes: Seq<Result<(), ToolkitError>>,
)
    requires
        v.run,
        forall|i: int| 0 <= i < events.len() ==> !stops(#[trigger] events[i]),
        outcomes.len() == v.ticked(events).frame_plan().len(),
        forall|i: int| 0 <= i < outcomes.len() ==> #[trigger] outcomes[i] is Ok,
    ensures
        v.ticked(events).run,
        FrameView::start(v.ticked(events).frame_plan(), v.ticked(events).run).after_all(
            outcomes,
        ).result() == Ok::<bool, ToolkitError>(true),
{
    frame_without_failure_reports_run_flag(
        v.ticked(events).frame_plan(),
        v.ticked(events).run,
        outcomes,
    );
}

/// A quit request anywhere in a batch of events stops the toolkit.
pub proof fn quit_stops(v: ToolkitView, events: Seq<InputEvent>, i: int)
    requires
        0 <= i < events.len(),
        events[i] == InputEvent::Quit,
    ensures
        !v.ticked(events).run,
{
    assert(stops(events[i]));
}

/// An escape key press anywhere in a batch of events stops the toolkit.
pub proof fn escape_stops(v: ToolkitView, events: Seq<InputEvent>, i: int)
    requires
        0 <= i < events.len(),
        events[i] == InputEvent::KeyDown(Some(Key::Escape)),
    ensures
        !v.ticked(events).run,
{
    assert(stops(events[i]));
}

/// A key press of any key but escape leaves the run flag as it was.
pub proof fn other_key_keeps_run_flag(v: ToolkitView, key: Option<Key>)
    requires
        key != Some(Key::Escape),
    ensures
        v.ticked(seq![InputEvent::KeyDown(key)]).run == v.run,
{
    assert(!stops(seq![InputEvent::KeyDown(key)][0]));
}

/// After the background alpha is set, the next redraw starts by clearing with
/// RGBA(0, 0, 0, alpha), whatever alpha was set before.
pub proof fn alpha_decides_clear_color(v: ToolkitView, earlier: u8, alpha: u8)
    ensures
        v.with_alpha(alpha).frame_plan()[0] == FrameAction::Clear(
            Color { r: 0, g: 0, b: 0, a: alpha },
        ),
        v.with_alpha(earlier).with_alpha(alpha).frame_plan() == v.with_alpha(
            alpha,
        ).frame_plan(),
{
    assert(v.with_alpha(earlier).with_alpha(alpha) == v.with_alpha(alpha));
}

/// Two tabs added to a toolkit without tabs stand in the order they were
/// added, and the active tab, which nothing moves, is the first of them.
pub proof fn tabs_keep_order(
    v0: ToolkitView,
    v1: ToolkitView,
    v2: ToolkitView,
    x: &'static str,
    y: &'static str,
)
    requires
        v0.tabs.len() == 0,
        v0.tab_pos == 0,
        v0.tab_added(v1, x),
        v1.tab_added(v2, y),
    ensures
        v2.tabs.len() == 2,
        v2.tabs[0].name() == x,
        v2.tabs[1].name() == y,
        v2.tab_pos == 0,
        tab_plan(v2.tabs, v2.tab_pos) == v2.tabs[0].plan(),
{
    assert(v2.tabs.take(1)[0] == v2.tabs[0]);
}

/// With no top-level widget and no tab, a redraw still clears and presents
/// the canvas, and succeeds when those two steps do.
pub proof fn empty_frame_clears_and_presents(
    v: ToolkitView,
    outcomes: Seq<Result<(), ToolkitError>>,
)
    requires
        v.items.len() == 0,
        v.tabs.len() == 0,
        outcomes.len() == 2,
        outcomes[0] is Ok,
        outcomes[1] is Ok,
    ensures
        v.frame_plan() == seq![FrameAction::Clear(v.bg_color), FrameAction::Present],
        FrameView::start(v.frame_plan(), v.run).after_all(outcomes).result() == Ok::<
            bool,
            ToolkitError,
        >(v.run),
{
    assert(items_plan(v.items) =~= Seq::<FrameAction>::empty());
    assert(v.frame_plan() =~= seq![FrameAction::Clear(v.bg_color), FrameAction::Present]);
    assert forall|i: int| 0 <= i < outcomes.len() implies #[trigger] outcomes[i] is Ok by {}
    frame_without_failure_reports_run_flag(v.frame_plan(), v.run, outcomes);
}

proof fn lemma_items_plan_append(a: Seq<Widget>, b: Seq<Widget>)
    ensures
        items_plan(a + b) == items_plan(a) + items_plan(b),
    decreases b.len(),
{
    if b.len() == 0 {
        assert(a + b =~= a);
        assert(items_plan(b) =~= Seq::<FrameAction>::empty());
        assert(items_plan(a) + items_plan(b) =~= items_plan(a));
    } else {
        lemma_items_plan_append(a, b.drop_last());
        assert((a + b).drop_last() =~= a + b.drop_last());
        assert((a + b).last() == b.last());
        assert(items_plan(a + b) =~= items_plan(a) + items_plan(b));
    }
}

/// The steps of the top-level widget at index `n` stand after those of the
/// widgets before it and before those of every widget after it.
pub proof fn item_steps_in_order(v: ToolkitView, n: int)
    requires
        0 <= n < v.items.len(),
    ensures
        v.frame_plan() == seq![FrameAction::Clear(v.bg_color)] + items_plan(v.items.take(n))
            + v.items[n].plan() + items_plan(v.items.skip(n + 1)) + tab_plan(
            v.tabs,
            v.tab_pos,
        ) + seq![FrameAction::Present],
{
    let before = v.items.take(n);
    let after = v.items.skip(n + 1);
    assert(v.items =~= before.push(v.items[n]) + after);
    lemma_items_plan_append(before.push(v.items[n]), after);
    assert(before.push(v.items[n]).drop_last() =~= before);
    assert(v.frame_plan() =~= seq![FrameAction::Clear(v.bg_color)] + items_plan(before)
        + v.items[n].plan() + items_plan(after) + tab_plan(v.tabs, v.tab_pos) + seq![
        FrameAction::Present,
    ]);
}

/// Once a step fails, the frame hands out no further step, whatever is
/// reported afterwards, and reports exactly the error of that step.
pub proof fn failure_stops_frame(
    f: FrameView,
    e: ToolkitError,
    later: Seq<Result<(), ToolkitError>>,
)
    requires
        f.pending() is Some,
    ensures
        f.after(Err(e)).after_all(later) == f.after(Err(e)),
        f.after(Err(e)).is_settled(),
        f.after(Err(e)).result() == Err::<bool, ToolkitError>(e),
    decreases later.len(),
{
    if later.len() > 0 {
        failure_stops_frame(f, e, later.drop_last());
    }
}

} // verus!
