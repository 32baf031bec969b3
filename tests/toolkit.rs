use rtoolkit::{
    Button, ButtonType, Color, Drawable, Frame, FrameAction, InputEvent, Key, Tab, Toolkit,
    ToolkitError, Widget,
};

fn run_frame_ok(mut f: Frame) -> Result<bool, ToolkitError> {
    while f.next_action().is_some() {
        f.report(Ok(()));
    }
    f.finish()
}

#[test]
fn new_toolkit_state() {
    let tk = Toolkit::new();
    assert!(tk.is_running());
    assert_eq!(tk.bg_color(), Color::rgba(0, 0, 0, 100));
    assert_eq!(tk.tab_pos(), 0);
    assert!(tk.tabs().is_empty());
}

#[test]
fn tick_without_events_keeps_running() {
    let mut tk = Toolkit::new();
    let f = tk.tick(&vec![]);
    assert_eq!(run_frame_ok(f).unwrap(), true);
    assert!(tk.is_running());
}

#[test]
fn tick_with_ignored_events_keeps_running() {
    let mut tk = Toolkit::new();
    let events = vec![
        InputEvent::Other,
        InputEvent::KeyDown(Some(Key::Other)),
        InputEvent::KeyDown(None),
        InputEvent::Other,
    ];
    let f = tk.tick(&events);
    assert_eq!(run_frame_ok(f).unwrap(), true);
}

#[test]
fn quit_anywhere_stops() {
    for pos in 0..3 {
        let mut tk = Toolkit::new();
        let mut events = vec![InputEvent::Other, InputEvent::KeyDown(Some(Key::Other))];
        events.insert(pos, InputEvent::Quit);
        let f = tk.tick(&events);
        assert_eq!(run_frame_ok(f).unwrap(), false);
        assert!(!tk.is_running());
    }
}

#[test]
fn escape_anywhere_stops() {
    for pos in 0..3 {
        let mut tk = Toolkit::new();
        let mut events = vec![InputEvent::Other, InputEvent::KeyDown(Some(Key::Other))];
        events.insert(pos, InputEvent::KeyDown(Some(Key::Escape)));
        let f = tk.tick(&events);
        assert_eq!(run_frame_ok(f).unwrap(), false);
    }
}

#[test]
fn stopped_toolkit_still_redraws_and_stays_stopped() {
    let mut tk = Toolkit::new();
    let f = tk.tick(&vec![InputEvent::Quit]);
    assert_eq!(f.actions().len(), 2);
    assert_eq!(run_frame_ok(f).unwrap(), false);
    let f = tk.tick(&vec![InputEvent::Other]);
    assert_eq!(f.actions().len(), 2);
    assert_eq!(run_frame_ok(f).unwrap(), false);
}

#[test]
fn set_alpha_decides_clear_color() {
    let mut tk = Toolkit::new();
    tk.set_alpha(7);
    tk.set_alpha(200);
    let f = tk.tick(&vec![]);
    match f.next_action() {
        Some(FrameAction::Clear(c)) => assert_eq!(c, Color { r: 0, g: 0, b: 0, a: 200 }),
        other => panic!("unexpected {:?}", other),
    }
}

#[test]
fn tabs_added_in_order() {
    let mut tk = Toolkit::new();
    tk.add_tab("X");
    tk.add_tab("Y");
    assert_eq!(tk.tabs().len(), 2);
    assert_eq!(tk.tabs()[0].name(), "X");
    assert_eq!(tk.tabs()[1].name(), "Y");
    assert_eq!(tk.tab_pos(), 0);
    assert_eq!(tk.tabs()[tk.tab_pos()].name(), "X");
    assert_eq!(tk.tabs()[0].len(), 0);
    assert_eq!(tk.tabs()[0].item_pos(), 0);
}

#[test]
fn empty_frame_clears_then_presents() {
    let mut tk = Toolkit::new();
    let f = tk.tick(&vec![]);
    let actions = f.actions();
    assert_eq!(actions.len(), 2);
    assert!(matches!(actions[0], FrameAction::Clear(c) if c == Color::rgba(0, 0, 0, 100)));
    assert!(matches!(actions[1], FrameAction::Present));
    assert_eq!(run_frame_ok(f).unwrap(), true);
}

#[test]
fn items_drawn_in_order_then_present() {
    let mut tk = Toolkit::new();
    tk.add_item(Widget::Button(Button::new("a", 0, 0, 10, 5)));
    tk.add_item(Widget::Tab(Tab::new("empty")));
    tk.add_item(Widget::Button(Button::new("b", 1, 2, 3, 4)));
    tk.add_tab("main");
    let f = tk.tick(&vec![]);
    let names: Vec<&str> = f
        .actions()
        .iter()
        .map(|a| match a {
            FrameAction::Clear(_) => "clear",
            FrameAction::DrawButton(b) => b.name(),
            FrameAction::Present => "present",
        })
        .collect();
    assert_eq!(names, vec!["clear", "a", "b", "present"]);
}

#[test]
fn failing_item_stops_the_frame() {
    let mut tk = Toolkit::new();
    tk.add_item(Widget::Button(Button::new("first", 0, 0, 1, 1)));
    tk.add_item(Widget::Button(Button::new("second", 0, 0, 1, 1)));
    tk.add_item(Widget::Button(Button::new("third", 0, 0, 1, 1)));
    let mut f = tk.tick(&vec![]);
    let mut drawn: Vec<&str> = Vec::new();
    while let Some(a) = f.next_action() {
        let outcome = match a {
            FrameAction::DrawButton(b) => {
                drawn.push(b.name());
                if b.name() == "second" {
                    Err(ToolkitError::from(String::from("draw failed")))
                } else {
                    Ok(())
                }
            }
            _ => Ok(()),
        };
        f.report(outcome);
    }
    assert_eq!(drawn, vec!["first", "second"]);
    assert!(f.is_settled());
    assert!(matches!(f.finish(), Err(ToolkitError::BackendError(ref s)) if s == "draw failed"));
}

#[test]
fn reports_after_failure_are_ignored() {
    let mut f = Frame::new(vec![FrameAction::Present, FrameAction::Present], true);
    f.report(Err(ToolkitError::InvalidText));
    assert!(f.next_action().is_none());
    f.report(Ok(()));
    f.report(Err(ToolkitError::NoTabs));
    assert!(matches!(f.finish(), Err(ToolkitError::InvalidText)));
}

#[test]
fn button_takes_rendered_size() {
    let b = Button::new("ok", 3, -4, 40, 30);
    assert_eq!(b.name(), "ok");
    assert_eq!(b.x(), 3);
    assert_eq!(b.y(), -4);
    assert_eq!(b.w(), 40);
    assert_eq!(b.h(), 30);
    assert_eq!(b.typ(), ButtonType::Normal);
    let big = Button::new("wide", 0, 0, 3_000_000_000, u32::MAX);
    assert_eq!(big.w(), 3_000_000_000u32 as i32);
    assert_eq!(big.h(), -1);
}

#[test]
fn drawing_appends_steps() {
    let mut out = vec![FrameAction::Present];
    Button::new("b", 0, 0, 1, 1).draw(&mut out);
    Tab::new("t").draw(&mut out);
    assert_eq!(out.len(), 2);
    assert!(matches!(out[1], FrameAction::DrawButton(b) if b.name() == "b"));
}
