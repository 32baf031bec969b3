use vstd::prelude::*;

verus! {

/// A color as red, green, blue and alpha bytes.
#[derive(Clone, Copy, Debug, PartialEq, Eq, Structural)]
pub struct Color {
    pub r: u8,
    pub g: u8,
    pub b: u8,
    pub a: u8,
}

impl Color {
    pub fn rgba(r: u8, g: u8, b: u8, a: u8) -> (c: Color)
        ensures
            c == (Color { r, g, b, a }),
    {
        Color { r, g, b, a }
    }
}

/// The kinds of button.
#[derive(Clone, Copy, Debug, PartialEq, Eq, Structural)]
pub enum ButtonType {
    Normal,
}

/// A button: its label, its position, and the size of its rendered label.
#[derive(Clone, Copy, Debug)]
pub struct Button {
    name: &'static str,
    x: i32,
    y: i32,
    w: i32,
    h: i32,
    typ: ButtonType,
}

impl Button {
    pub closed spec fn spec_name(&self) -> &'static str {
        self.name
    }

    pub closed spec fn spec_x(&self) -> i32 {
        self.x
    }

    pub closed spec fn spec_y(&self) -> i32 {
        self.y
    }

    pub closed spec fn spec_w(&self) -> i32 {
        self.w
    }

    pub closed spec fn spec_h(&self) -> i32 {
        self.h
    }

    pub closed spec fn spec_typ(&self) -> ButtonType {
        self.typ
    }

    /// A normal button at `(x, y)` whose size is that of its rendered label,
    /// `width` by `height` pixels as the backend reports them, each taken as
    /// an `i32`.
    pub fn new(name: &'static str, x: i32, y: i32, width: u32, height: u32) -> (b: Button)
        ensures
            b.name() == name,
            b.x() == x,
            b.y() == y,
            b.w() == width as i32,
            b.h() == height as i32,
            b.typ() == ButtonType::Normal,
    {
        Button { name, x, y, w: width as i32, h: height as i32, typ: ButtonType::Normal }
    }

    #[verifier::when_used_as_spec(spec_name)]
    pub fn name(&self) -> (r: &'static str)
        ensures
            r == self.name(),
    {
        self.name
    }

    #[verifier::when_used_as_spec(spec_x)]
    pub fn x(&self) -> (r: i32)
        ensures
            r == self.x(),
    {
        self.x
    }

    #[verifier::when_used_as_spec(spec_y)]
    pub fn y(&self) -> (r: i32)
        ensures
            r == self.y(),
    {
        self.y
    }

    #[verifier::when_used_as_spec(spec_w)]
    pub fn w(&self) -> (r: i32)
        ensures
            r == self.w(),
    {
        self.w
    }

    #[verifier::when_used_as_spec(spec_h)]
    pub fn h(&self) -> (r: i32)
        ensures
            r == self.h(),
    {
        self.h
    }

    #[verifier::when_used_as_spec(spec_typ)]
    pub fn typ(&self) -> (r: ButtonType)
        ensures
            r == self.typ(),
    {
        self.typ
    }
}

/// A tab: a name and the buttons it holds, drawn in insertion order.
#[derive(Debug)]
pub struct Tab {
    items: Vec<Button>,
    item_pos: usize,
    name: &'static str,
}

impl Tab {
    pub closed spec fn spec_name(&self) -> &'static str {
        self.name
    }

    /// The buttons of the tab, in the order they are drawn.
    pub closed spec fn buttons(&self) -> Seq<Button> {
        self.items@
    }

    pub closed spec fn spec_item_pos(&self) -> usize {
        self.item_pos
    }

    /// An empty tab named `name`, its cursor at the start.
    pub fn new(name: &'static str) -> (t: Tab)
        ensures
            t.name() == name,
            t.buttons() == Seq::<Button>::empty(),
            t.item_pos() == 0,
    {
        Tab { items: Vec::new(), item_pos: 0, name }
    }

    #[verifier::when_used_as_spec(spec_name)]
    pub fn name(&self) -> (r: &'static str)
        ensures
            r == self.name(),
    {
        self.name
    }

    #[verifier::when_used_as_spec(spec_item_pos)]
    pub fn item_pos(&self) -> (r: usize)
        ensures
            r == self.item_pos(),
    {
        self.item_pos
    }

    /// The number of buttons in the tab.
    pub fn len(&self) -> (r: usize)
        ensures
            r == self.buttons().len(),
    {
        self.items.len()
    }
}

/// One step of a frame, for the front end to carry out on the canvas.
#[derive(Clone, Copy, Debug)]
pub enum FrameAction {
    /// Set the draw color and clear the canvas with it.
    Clear(Color),
    /// Render a button.
    DrawButton(Button),
    /// Flip the canvas to the visible surface.
    Present,
}

/// What can draw itself: drawing appends the steps that render the current
/// visual state to a frame plan.
pub trait Drawable {
    /// The steps that draw this value.
    spec fn plan(&self) -> Seq<FrameAction>;

    fn draw(&self, out: &mut Vec<FrameAction>)
        ensures
            final(out)@ == old(out)@ + self.plan(),
    ;
}

impl Drawable for Button {
    open spec fn plan(&self) -> Seq<FrameAction> {
        seq![FrameAction::DrawButton(*self)]
    }

    fn draw(&self, out: &mut Vec<FrameAction>) {
        out.push(FrameAction::DrawButton(*self));
    }
}

pub open spec fn buttons_plan(buttons: Seq<Button>) -> Seq<FrameAction> {
    buttons.map_values(|b: Button| FrameAction::DrawButton(b))
}

impl Drawable for Tab {
    /// Each button of the tab, in order.
    open spec fn plan(&self) -> Seq<FrameAction> {
        buttons_plan(self.buttons())
    }

    fn draw(&self, out: &mut Vec<FrameAction>) {
        let ghost start = out@;
        let mut i: usize = 0;
        while i < self.items.len()
            invariant
                i <= self.items@.len(),
                out@ == start + buttons_plan(self.items@.take(i as int)),
            decreases self.items@.len() - i,
        {
            self.items[i].draw(out);
            assert(self.items@.take(i + 1) =~= self.items@.take(i as int).push(self.items@[i as int]));
            assert(buttons_plan(self.items@.take(i + 1)) =~= buttons_plan(
                self.items@.take(i as int),
            ).push(FrameAction::DrawButton(self.items@[i as int])));
            i = i + 1;
        }
        assert(self.items@.take(i as int) =~= self.items@);
    }
}

/// A top-level widget of the toolkit.
#[derive(Debug)]
pub enum Widget {
    Button(Button),
    Tab(Tab),
}

impl Drawable for Widget {
    open spec fn plan(&self) -> Seq<FrameAction> {
        match self {
            Widget::Button(b) => b.plan(),
            Widget::Tab(t) => t.plan(),
        }
    }

    fn draw(&self, out: &mut Vec<FrameAction>) {
        match self {
            Widget::Button(b) => b.draw(out),
            Widget::Tab(t) => t.draw(out),
        }
    }
}

} // verus!
