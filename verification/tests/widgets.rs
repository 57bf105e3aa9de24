use gui_logic::backend::{self, ExitStatus, Exited};
use gui_logic::hover::{Cursor, Event as HoverEvent, Hover, Point, Rectangle};
use gui_logic::process::{Message as ProcessMessage, Process};
use gui_logic::theme::{Button, Color, Container, Theme};
use gui_logic::thing::{update_things, Event as ThingEvent, Message as ThingMessage, Thing};
use gui_logic::ui::{Action, App, Message as UiMessage, WindowEvent};

#[test]
fn process_run_and_exit() {
    let mut p = Process::default();
    assert_eq!(p.update(ProcessMessage::Input("echo hi".to_owned())), None);
    assert_eq!(p.command(), "echo hi");

    let run = p.update(ProcessMessage::Run);
    assert_eq!(run, Some("echo hi".to_owned()));

    p.launched(Ok(Some(12)));
    assert_eq!(p, Process::Running(12, "echo hi".to_owned()));

    let rec = Exited {
        status: ExitStatus::Code(0),
        stdout: "hi\n".to_owned(),
        stderr: "".to_owned(),
    };
    p.exited(Ok(rec.clone()));
    assert_eq!(p, Process::Exited("echo hi".to_owned(), rec));

    assert_eq!(p.update(ProcessMessage::Reset), None);
    assert_eq!(p, Process::Idle("".to_owned()));
}

#[test]
fn process_launch_failure() {
    // A nonexistent binary: the launch error arrives at once, the run moves
    // to its error state, and nothing was ever registered.
    let mut p = Process::default();
    p.update(ProcessMessage::Input("nosuchbinary".to_owned()));
    let run = p.update(ProcessMessage::Run);
    assert_eq!(run, Some("nosuchbinary".to_owned()));

    let mut s = backend::Supervisor::new();
    s.setup();
    p.launched(Err("No such file or directory".to_owned()));
    assert_eq!(
        p,
        Process::Error(
            "nosuchbinary".to_owned(),
            "No such file or directory".to_owned()
        )
    );
    assert!(s.active.is_empty());
}

#[test]
fn process_launch_without_id() {
    let mut p = Process::Idle("sleep 5".to_owned());
    p.launched(Ok(None));
    assert_eq!(
        p,
        Process::Error("sleep 5".to_owned(), "Unknown Error".to_owned())
    );
}

#[test]
fn process_exit_error_message() {
    let mut p = Process::Running(3, "cat".to_owned());
    p.exited(Err("broken pipe".to_owned()));
    assert_eq!(p, Process::Error("cat".to_owned(), "broken pipe".to_owned()));
}

#[test]
fn process_input_ignored_while_running() {
    let mut p = Process::Running(3, "cat".to_owned());
    assert_eq!(p.update(ProcessMessage::Input("ls".to_owned())), None);
    assert_eq!(p, Process::Running(3, "cat".to_owned()));
    assert_eq!(p.update(ProcessMessage::Run), None);
}

#[test]
fn app_routes_messages() {
    let mut app = App::new();
    assert_eq!(
        app.update(UiMessage::Event(WindowEvent::CloseRequested)),
        Action::Nothing
    );

    assert_eq!(
        app.update(UiMessage::Backend(backend::Message::Setup)),
        Action::Nothing
    );
    assert_eq!(
        app,
        App::Running { process: Process::Idle("".to_owned()) }
    );

    app.update(UiMessage::Process(ProcessMessage::Input("true".to_owned())));
    let action = app.update(UiMessage::Process(ProcessMessage::Run));
    assert_eq!(action, Action::Spawn("true".to_owned()));

    app.launched(Ok(Some(8)));
    assert_eq!(
        app,
        App::Running { process: Process::Running(8, "true".to_owned()) }
    );

    let rec = Exited {
        status: ExitStatus::Code(0),
        stdout: "".to_owned(),
        stderr: "".to_owned(),
    };
    assert_eq!(
        app.update(UiMessage::Backend(backend::Message::ProcessExited(
            8,
            Ok(rec.clone())
        ))),
        Action::Nothing
    );
    assert_eq!(
        app,
        App::Running { process: Process::Exited("true".to_owned(), rec) }
    );

    assert_eq!(
        app.update(UiMessage::Event(WindowEvent::CloseRequested)),
        Action::CloseBackend
    );
    assert_eq!(
        app.update(UiMessage::Backend(backend::Message::Closed)),
        Action::CloseWindow
    );
}

#[test]
fn theme_palette() {
    let theme = Theme::default();
    let a = theme.appearance();
    assert_eq!(a.background_color, Color { r: 0x28, g: 0x28, b: 0x28, a: 255 });
    assert_eq!(a.text_color, Color { r: 0xeb, g: 0xdb, b: 0xb2, a: 255 });

    let t = theme.text_appearance();
    assert_eq!(t.color, Some(Color { r: 0xeb, g: 0xdb, b: 0xb2, a: 255 }));
}

#[test]
fn theme_container_styles() {
    let theme = Theme::default();
    let plain = theme.container_appearance(&Container::default());
    assert_eq!(plain.border_width, 0);
    assert_eq!(plain.background, None);

    let bordered = theme.container_appearance(&Container::Bordered);
    assert_eq!(bordered.border_width, 1);
    assert_eq!(bordered.border_radius, 4);
    assert_eq!(bordered.border_color, Color { r: 0x45, g: 0x85, b: 0x88, a: 255 });
}

#[test]
fn theme_button_styles() {
    let theme = Theme::default();
    let primary = theme.active(&Button::default());
    assert_eq!(primary.background, Some(Color { r: 0x28, g: 0x28, b: 0x28, a: 255 }));
    assert_eq!(primary.border_width, 1);
    assert_eq!(primary.border_color, Color { r: 0x45, g: 0x85, b: 0x88, a: 255 });

    let secondary = theme.active(&Button::Secondary);
    assert_eq!(secondary.background, Some(Color { r: 0x3c, g: 0x38, b: 0x36, a: 255 }));
    assert_eq!(secondary.border_width, 0);
}

#[test]
fn hover_tracks_the_pointer() {
    let bounds = Rectangle { x: 10, y: 10, width: 100, height: 50 };
    let mut h = Hover::new();

    let entered = h.on_event(&bounds, Point { x: 10, y: 10 });
    assert_eq!(entered, Some(Cursor::Entered));
    assert!(h.hovered);

    let still_inside = h.on_event(&bounds, Point { x: 109, y: 59 });
    assert_eq!(still_inside, None);

    let left = h.on_event(&bounds, Point { x: 110, y: 30 });
    assert_eq!(left, Some(Cursor::Left));
    assert!(!h.hovered);

    let still_outside = h.on_event(&bounds, Point { x: 0, y: 0 });
    assert_eq!(still_outside, None);
}

#[test]
fn hover_component_update() {
    let mut h = Hover::new();
    assert_eq!(h.update::<u8>(HoverEvent::Change(Cursor::Entered)), None);
    assert!(h.hovered);
    assert_eq!(h.update(HoverEvent::Message(9u8)), Some(9u8));
    assert!(h.hovered);
    assert_eq!(h.update::<u8>(HoverEvent::Change(Cursor::Left)), None);
    assert!(!h.hovered);
}

#[test]
fn thing_counts() {
    let mut t = Thing::default();
    assert_eq!(t.update(ThingMessage::Increment), None);
    assert_eq!(t.count, 1);
    assert_eq!(t.update(ThingMessage::Decrement), None);
    assert_eq!(t.count, 0);
    assert_eq!(t.update(ThingMessage::Decrement), None);
    assert_eq!(t.count, 0);
    assert_eq!(t.update(ThingMessage::Delete), Some(ThingEvent::Delete));
    assert_eq!(t.count, 0);
}

#[test]
fn things_list_update() {
    let mut things = vec![Thing { count: 0 }, Thing { count: 5 }, Thing { count: 9 }];

    update_things(&mut things, 1, ThingMessage::Increment);
    assert_eq!(things[1], Thing { count: 6 });

    update_things(&mut things, 1, ThingMessage::Delete);
    assert_eq!(things, vec![Thing { count: 0 }, Thing { count: 9 }]);

    update_things(&mut things, 5, ThingMessage::Increment);
    assert_eq!(things, vec![Thing { count: 0 }, Thing { count: 9 }]);
}
