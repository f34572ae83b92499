use sidebar_resize::{
    hover_style_name, Action, DragResizeController, DragSession, DragState, Event, HoverState,
    Point,
};

fn at(x: i32) -> Option<Point> {
    Some(Point { x, y: 0 })
}

#[test]
fn enter_then_leave_toggles_hover_style() {
    let mut controller = DragResizeController::new();
    assert_eq!(controller.handle(Event::Enter { position: at(1) }), Action::AddHoverStyle);
    assert_eq!(controller.hover_state(), HoverState::Hovering);
    assert!(controller.hover_state().is_hovering());
    assert_eq!(controller.handle(Event::Leave { position: at(9) }), Action::RemoveHoverStyle);
    assert_eq!(controller.hover_state(), HoverState::Idle);
    assert!(!controller.hover_state().is_hovering());
    assert_eq!(controller, DragResizeController::new());
}

#[test]
fn hover_toggles_during_drag_without_touching_it() {
    let mut controller = DragResizeController::new();
    controller.handle(Event::Press { start: at(120) });
    controller.handle(Event::Motion { offset: at(10) });
    let session = DragState::Dragging(DragSession { start_x: 120, current_offset_x: 10 });

    assert_eq!(controller.handle(Event::Enter { position: None }), Action::AddHoverStyle);
    assert_eq!(controller.hover_state(), HoverState::Hovering);
    assert_eq!(controller.drag_state(), session);
    assert_eq!(controller.width().pixels(), 130);

    assert_eq!(controller.handle(Event::Leave { position: None }), Action::RemoveHoverStyle);
    assert_eq!(controller.hover_state(), HoverState::Idle);
    assert_eq!(controller.drag_state(), session);
    assert_eq!(controller.width().pixels(), 130);
}

#[test]
fn drag_goes_on_after_pointer_leaves_separator() {
    let mut controller = DragResizeController::new();
    controller.handle(Event::Enter { position: at(1) });
    controller.handle(Event::Press { start: at(120) });
    controller.handle(Event::Leave { position: at(40) });
    match controller.handle(Event::Motion { offset: at(60) }) {
        Action::ApplyWidth(request) => assert_eq!(request.pixels(), 180),
        other => panic!("expected a width, got {:?}", other),
    }
    assert!(controller.drag_state().is_dragging());
    assert!(!controller.hover_state().is_hovering());
}

#[test]
fn gesture_events_leave_hover_flag_alone() {
    let mut controller = DragResizeController::new();
    controller.handle(Event::Enter { position: at(1) });
    for event in [
        Event::Press { start: at(120) },
        Event::Motion { offset: at(10) },
        Event::Release { offset: at(10) },
        Event::Press { start: at(50) },
        Event::Cancel { offset: None },
    ] {
        controller.handle(event);
        assert_eq!(controller.hover_state(), HoverState::Hovering);
    }
}

#[test]
fn repeated_enter_keeps_hovering() {
    let mut controller = DragResizeController::new();
    assert_eq!(controller.handle(Event::Enter { position: at(1) }), Action::AddHoverStyle);
    assert_eq!(controller.handle(Event::Enter { position: at(2) }), Action::AddHoverStyle);
    assert_eq!(controller.hover_state(), HoverState::Hovering);
    assert_eq!(controller.handle(Event::Leave { position: None }), Action::RemoveHoverStyle);
    assert_eq!(controller.handle(Event::Leave { position: None }), Action::RemoveHoverStyle);
    assert_eq!(controller.hover_state(), HoverState::Idle);
}

#[test]
fn hover_style_has_its_name() {
    assert_eq!(hover_style_name(), "sidebar-separator-hover");
}
