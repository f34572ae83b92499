use sidebar_resize::{hover_style_name, Action, DragResizeController, Event, Point};

/// A stand-in for the widgets: it remembers what it was told to do.
struct Widgets {
    sidebar_width: i32,
    separator_styles: Vec<String>,
    claims: usize,
}

impl Widgets {
    fn new() -> Self {
        Widgets {
            sidebar_width: -1,
            separator_styles: vec![String::from("sidebar-separator")],
            claims: 0,
        }
    }

    fn perform(&mut self, action: Action) {
        match action {
            Action::Nothing => {}
            Action::ClaimSequence => self.claims += 1,
            Action::ApplyWidth(request) => self.sidebar_width = request.saturating_i32(),
            Action::AddHoverStyle => {
                if !self.separator_styles.iter().any(|style| style == hover_style_name()) {
                    self.separator_styles.push(String::from(hover_style_name()));
                }
            }
            Action::RemoveHoverStyle => {
                self.separator_styles.retain(|style| style != hover_style_name());
            }
        }
    }
}

fn at(x: i32) -> Option<Point> {
    Some(Point { x, y: 0 })
}

#[test]
fn host_follows_a_drag_with_hover() {
    let mut controller = DragResizeController::new();
    let mut widgets = Widgets::new();

    widgets.perform(controller.handle(Event::Enter { position: at(1) }));
    assert_eq!(widgets.separator_styles, vec!["sidebar-separator", "sidebar-separator-hover"]);

    widgets.perform(controller.handle(Event::Press { start: at(120) }));
    assert_eq!(widgets.claims, 1);
    assert_eq!(widgets.sidebar_width, -1);

    let mut seen = Vec::new();
    for offset in [0, 10, 25] {
        widgets.perform(controller.handle(Event::Motion { offset: at(offset) }));
        seen.push(widgets.sidebar_width);
    }
    assert_eq!(seen, vec![120, 130, 145]);

    widgets.perform(controller.handle(Event::Leave { position: None }));
    assert_eq!(widgets.separator_styles, vec!["sidebar-separator"]);
    assert_eq!(widgets.sidebar_width, 145);

    widgets.perform(controller.handle(Event::Release { offset: at(25) }));
    assert_eq!(widgets.sidebar_width, 145);
    assert_eq!(widgets.claims, 1);
    assert_eq!(i64::from(widgets.sidebar_width), controller.width().pixels());
}

#[test]
fn host_claims_once_per_session() {
    let mut controller = DragResizeController::new();
    let mut widgets = Widgets::new();
    let events = [
        Event::Press { start: at(100) },
        Event::Press { start: at(101) },
        Event::Motion { offset: at(5) },
        Event::Press { start: at(102) },
        Event::Release { offset: at(5) },
        Event::Press { start: at(200) },
        Event::Press { start: at(201) },
        Event::Cancel { offset: None },
        Event::Cancel { offset: None },
    ];
    for action in controller.handle_all(&events) {
        widgets.perform(action);
    }
    assert_eq!(widgets.claims, 2);
    assert_eq!(widgets.sidebar_width, 105);
}

#[test]
fn host_width_stops_at_the_toolkit_limit() {
    let mut controller = DragResizeController::new();
    let mut widgets = Widgets::new();
    widgets.perform(controller.handle(Event::Press { start: at(i32::MAX) }));
    widgets.perform(controller.handle(Event::Motion { offset: at(i32::MAX) }));
    assert_eq!(controller.width().pixels(), 4_294_967_294);
    assert_eq!(widgets.sidebar_width, i32::MAX);
    widgets.perform(controller.handle(Event::Motion { offset: at(i32::MIN) }));
    assert_eq!(controller.width().pixels(), -1);
    assert_eq!(widgets.sidebar_width, -1);
}
