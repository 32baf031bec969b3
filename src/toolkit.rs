use vstd::prelude::*;
use crate::frame::{Frame, FrameView};
use crate::widget::{Button, Color, Drawable, FrameAction, Tab, Widget};

verus! {

/// A key identifier, as far as the toolkit tells keys apart.
#[derive(Clone, Copy, Debug, PartialEq, Eq, Structural)]
pub enum Key {
    Escape,
    Other,
}

/// An input event, as far as the toolkit tells events apart.
#[derive(Clone, Copy, Debug, PartialEq, Eq, Structural)]
pub enum InputEvent {
    /// The application was asked to quit.
    Quit,
    /// A key was pressed; the backend may not identify it.
    KeyDown(Option<Key>),
    /// Any other event: consumed and ignored.
    Other,
}

/// Whether an event stops the toolkit: a quit request or an escape key press.
pub open spec fn stops(e: InputEvent) -> bool {
    e is Quit || e == InputEvent::KeyDown(Some(Key::Escape))
}

/// The run flag after a batch of events: it stays set only if it was set and
/// no event of the batch stops the toolkit.
pub open spec fn run_after(run: bool, events: Seq<InputEvent>) -> bool {
    run && forall|i: int| 0 <= i < events.len() ==> !stops(#[trigger] events[i])
}

proof fn lemma_run_after_push(run: bool, events: Seq<InputEvent>, e: InputEvent)
    ensures
        run_after(run, events.push(e)) == (run_after(run, events) && !stops(e)),
{
    let all = events.push(e);
    assert forall|i: int| 0 <= i < events.len() implies all[i] == events[i] by {}
    assert(all[events.len() as int] == e);
}

/// The steps that draw a list of widgets, one after another.
pub open spec fn items_plan(items: Seq<Widget>) -> Seq<FrameAction>
    decreases items.len(),
{
    if items.len() == 0 {
        Seq::empty()
    } else {
        items_plan(items.drop_last()) + items.last().plan()
    }
}

/// The steps that draw the tab at `pos`; none if there is no such tab.
pub open spec fn tab_plan(tabs: Seq<Tab>, pos: nat) -> Seq<FrameAction> {
    if pos < tabs.len() {
        tabs[pos as int].plan()
    } else {
        Seq::empty()
    }
}

/// The toolkit's state: its tabs, the active tab's index, the top-level
/// widgets, the run flag and the background color.
pub struct ToolkitView {
    pub tabs: Seq<Tab>,
    pub tab_pos: nat,
    pub items: Seq<Widget>,
    pub run: bool,
    pub bg_color: Color,
}

impl ToolkitView {
    /// One redraw: clear with the background color, draw the top-level
    /// widgets in order, draw the active tab if it exists, present.
    pub open spec fn frame_plan(self) -> Seq<FrameAction> {
        seq![FrameAction::Clear(self.bg_color)] + items_plan(self.items) + tab_plan(
            self.tabs,
            self.tab_pos,
        ) + seq![FrameAction::Present]
    }

    /// The state after a batch of events.
    pub open spec fn ticked(self, events: Seq<InputEvent>) -> ToolkitView {
        ToolkitView { run: run_after(self.run, events), ..self }
    }

    /// The state after the background alpha was set to `alpha`.
    pub open spec fn with_alpha(self, alpha: u8) -> ToolkitView {
        ToolkitView { bg_color: Color { r: 0, g: 0, b: 0, a: alpha }, ..self }
    }

    /// The state after a widget was added at the top level.
    pub open spec fn with_item(self, item: Widget) -> ToolkitView {
        ToolkitView { items: self.items.push(item), ..self }
    }

    /// Whether `next` is `self` with one more tab, empty and named `name`,
    /// at the end of the tab list.
    pub open spec fn tab_added(self, next: ToolkitView, name: &'static str) -> bool {
        &&& next == ToolkitView { tabs: next.tabs, ..self }
        &&& next.tabs.len() == self.tabs.len() + 1
        &&& next.tabs.take(self.tabs.len() as int) == self.tabs
        &&& next.tabs.last().name() == name
        &&& next.tabs.last().buttons() == Seq::<Button>::empty()
        &&& next.tabs.last().item_pos() == 0
    }
}

/// The root of the toolkit: its widgets, the background color, and whether
/// it should keep running.
#[derive(Debug)]
pub struct Toolkit {
    tabs: Vec<Tab>,
    tab_pos: usize,
    items: Vec<Widget>,
    run: bool,
    bg_color: Color,
}

impl View for Toolkit {
    type V = ToolkitView;

    closed spec fn view(&self) -> ToolkitView {
        ToolkitView {
            tabs: self.tabs@,
            tab_pos: self.tab_pos as nat,
            items: self.items@,
            run: self.run,
            bg_color: self.bg_color,
        }
    }
}

impl Toolkit {
    /// A running toolkit with no tabs and no widgets, on the background
    /// color RGBA(0, 0, 0, 100).
    pub fn new() -> (tk: Toolkit)
        ensures
            tk@.tabs.len() == 0,
            tk@.tab_pos == 0,
            tk@.items.len() == 0,
            tk@.run,
            tk@.bg_color == (Color { r: 0, g: 0, b: 0, a: 100 }),
    {
        Toolkit {
            tabs: Vec::new(),
            tab_pos: 0,
            items: Vec::new(),
            run: true,
            bg_color: Color::rgba(0, 0, 0, 100),
        }
    }

    /// Takes in a batch of input events and returns the frame that redraws
    /// the toolkit. A quit request or an escape key press clears the run
    /// flag; every other event is consumed with no change. The frame, once
    /// carried out, reports the run flag after the batch.
    pub fn tick(&mut self, events: &Vec<InputEvent>) -> (f: Frame)
        ensures
            final(self)@ == old(self)@.ticked(events@),
            f@ == FrameView::start(final(self)@.frame_plan(), final(self)@.run),
    {
        let mut i: usize = 0;
        while i < events.len()
            invariant
                i <= events@.len(),
                self@ == old(self)@.ticked(events@.take(i as int)),
            decreases events@.len() - i,
        {
            let e = events[i];
            match e {
                InputEvent::Quit => {
                    self.run = false;
                },
                InputEvent::KeyDown(Some(Key::Escape)) => {
                    self.run = false;
                },
                _ => {},
            }
            proof {
                let prev = events@.take(i as int);
                assert(events@.take(i + 1) =~= prev.push(e));
                lemma_run_after_push(old(self)@.run, prev, e);
            }
            i = i + 1;
        }
        assert(events@.take(i as int) =~= events@);
        let plan = self.redraw();
        Frame::new(plan, self.run)
    }

    /// The plan of one redraw.
    fn redraw(&self) -> (r: Vec<FrameAction>)
        ensures
            r@ == self@.frame_plan(),
    {
        let mut out: Vec<FrameAction> = Vec::new();
        out.push(FrameAction::Clear(self.bg_color));
        let mut i: usize = 0;
        while i < self.items.len()
            invariant
                i <= self.items@.len(),
                out@ == seq![FrameAction::Clear(self.bg_color)] + items_plan(
                    self.items@.take(i as int),
                ),
            decreases self.items@.len() - i,
        {
            self.items[i].draw(&mut out);
            assert(self.items@.take(i + 1).drop_last() =~= self.items@.take(i as int));
            i = i + 1;
        }
        assert(self.items@.take(i as int) =~= self.items@);
        if self.tab_pos < self.tabs.len() {
            self.tabs[self.tab_pos].draw(&mut out);
        }
        out.push(FrameAction::Present);
        assert(out@ =~= self@.frame_plan());
        out
    }

    /// Appends an empty tab named `name` to the tab list.
    pub fn add_tab(&mut self, name: &'static str)
        ensures
            old(self)@.tab_added(final(self)@, name),
    {
        let tab = Tab::new(name);
        self.tabs.push(tab);
        assert(self.tabs@.take(old(self).tabs@.len() as int) =~= old(self).tabs@);
    }

    /// Appends a widget to the top-level widgets, drawn after those already
    /// there.
    pub fn add_item(&mut self, item: Widget)
        ensures
            final(self)@ == old(self)@.with_item(item),
    {
        self.items.push(item);
    }

    /// Sets the background color to RGBA(0, 0, 0, `alpha`), used from the
    /// next redraw on.
    pub fn set_alpha(&mut self, alpha: u8)
        ensures
            final(self)@ == old(self)@.with_alpha(alpha),
    {
        self.bg_color = Color::rgba(0, 0, 0, alpha);
    }

    /// Whether the toolkit should keep running.
    pub fn is_running(&self) -> (r: bool)
        ensures
            r == self@.run,
    {
        self.run
    }

    /// The background color.
    pub fn bg_color(&self) -> (r: Color)
        ensures
            r == self@.bg_color,
    {
        self.bg_color
    }

    /// The index of the active tab.
    pub fn tab_pos(&self) -> (r: usize)
        ensures
            r == self@.tab_pos,
    {
        self.tab_pos
    }

    /// The tabs, in the order they were added.
    pub fn tabs(&self) -> (r: &Vec<Tab>)
        ensures
            r@ == self@.tabs,
    {
        &self.tabs
    }
}

} // verus!
