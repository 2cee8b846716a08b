use glacier::options::{WindowOptions, DEFAULT_HEIGHT, DEFAULT_WIDTH};
use glacier::runner::{ControlDecision, LoopEvent, LoopRunner, LoopState};
use glacier::window::{ContentRequest, CreateError, SurfaceCommand, SurfaceState, Window};

fn empty_options() -> WindowOptions {
    WindowOptions {
        app_name: None,
        x: None,
        y: None,
        width: None,
        height: None,
        min_width: None,
        min_height: None,
        max_width: None,
        max_height: None,
        resizable: None,
        title: None,
        icon: None,
        show: None,
        frame: None,
        devtools: None,
    }
}

#[test]
fn default_options_fields() {
    let o = WindowOptions::default();
    assert_eq!(o.app_name.as_deref(), Some("Glacier App"));
    assert_eq!(o.title.as_deref(), Some("Glacier App"));
    assert_eq!(o.width, Some(800));
    assert_eq!(o.height, Some(600));
    assert_eq!(o.resizable, Some(true));
    assert!(o.x.is_none());
    assert!(o.y.is_none());
    assert!(o.min_width.is_none());
    assert!(o.min_height.is_none());
    assert!(o.max_width.is_none());
    assert!(o.max_height.is_none());
    assert!(o.icon.is_none());
    assert!(o.show.is_none());
    assert!(o.frame.is_none());
    assert!(o.devtools.is_none());
}

#[test]
fn unset_size_materializes_at_documented_default() {
    let mut w = Window::new(Some(empty_options()));
    let plan = w.create("/tmp").unwrap();
    assert_eq!(plan.width, DEFAULT_WIDTH);
    assert_eq!(plan.height, DEFAULT_HEIGHT);
    assert_eq!(plan.width, 800);
    assert_eq!(plan.height, 600);
}

#[test]
fn no_configuration_materializes_at_documented_default() {
    let mut w = Window::new(None);
    let plan = w.create("/tmp").unwrap();
    assert_eq!(plan.width, 800);
    assert_eq!(plan.height, 600);
    assert_eq!(plan.title, "Glacier App");
    assert!(plan.content.is_none());
    assert!(!plan.devtools);
}

#[test]
fn staging_url_then_html_leaves_html_pending() {
    let mut w = Window::new(None);
    assert!(w.load_url(String::from("https://a.example")).is_none());
    assert!(w.load_html(String::from("<p>b</p>")).is_none());
    let plan = w.create("/tmp").unwrap();
    match plan.content {
        Some(ContentRequest::Html(h)) => assert_eq!(h, "<p>b</p>"),
        _ => panic!("expected the HTML request to be the one pending"),
    }
}

#[test]
fn staging_html_then_url_leaves_url_pending() {
    let mut w = Window::new(None);
    assert!(w.load_html(String::from("<p>b</p>")).is_none());
    assert!(w.load_url(String::from("https://a.example")).is_none());
    let plan = w.create("/tmp").unwrap();
    match plan.content {
        Some(ContentRequest::Url(u)) => assert_eq!(u, "https://a.example"),
        _ => panic!("expected the URL request to be the one pending"),
    }
}

#[test]
fn staged_title_wins_over_constructed_title() {
    let mut opts = empty_options();
    opts.title = Some(String::from("original"));
    let mut w = Window::new(Some(opts));
    assert!(w.set_title(String::from("staged")).is_none());
    let plan = w.create("/tmp").unwrap();
    assert_eq!(plan.title, "staged");
}

#[test]
fn live_load_url_forwards_and_stages_nothing() {
    let mut w = Window::new(None);
    w.create("/tmp").unwrap();
    match w.load_url(String::from("https://a.example")) {
        Some(SurfaceCommand::LoadUrl(u)) => assert_eq!(u, "https://a.example"),
        _ => panic!("expected an immediate navigation command"),
    }
    // The stager was not touched: the window is still plainly live.
    assert!(matches!(w.surface, SurfaceState::Live));
}

#[test]
fn live_load_html_forwards_and_stages_nothing() {
    let mut w = Window::new(None);
    w.create("/tmp").unwrap();
    match w.load_html(String::from("<p>b</p>")) {
        Some(SurfaceCommand::LoadHtml(h)) => assert_eq!(h, "<p>b</p>"),
        _ => panic!("expected an immediate navigation command"),
    }
    assert!(matches!(w.surface, SurfaceState::Live));
}

#[test]
fn live_set_title_forwards_and_updates_configuration() {
    let mut w = Window::new(None);
    w.create("/tmp").unwrap();
    match w.set_title(String::from("later")) {
        Some(SurfaceCommand::SetTitle(t)) => assert_eq!(t, "later"),
        _ => panic!("expected an immediate retitle command"),
    }
    assert_eq!(w.options.title.as_deref(), Some("later"));
}

#[test]
fn storage_context_is_pure_in_app_name() {
    let mut o1 = empty_options();
    o1.app_name = Some(String::from("SameApp"));
    o1.title = Some(String::from("one"));
    let mut o2 = empty_options();
    o2.app_name = Some(String::from("SameApp"));
    o2.width = Some(13);
    let w1 = Window::new(Some(o1));
    let w2 = Window::new(Some(o2));
    assert_eq!(w1.get_web_context_dir("/tmp"), w2.get_web_context_dir("/tmp"));
    assert_eq!(w1.get_web_context_dir("/tmp"), "/tmp/SameApp");
}

#[test]
fn storage_context_inserts_separator() {
    let w = Window::new(None);
    assert_eq!(w.get_web_context_dir("/tmp"), "/tmp/Glacier App");
    assert_eq!(glacier::window::storage_context_dir("/tmp", "X"), "/tmp/X");
}

#[test]
fn storage_context_with_empty_app_name() {
    let mut o = empty_options();
    o.app_name = None;
    let w = Window::new(Some(o));
    assert_eq!(w.get_app_name(), "");
    assert_eq!(w.get_web_context_dir("/tmp"), "/tmp/");
}

#[test]
fn second_create_fails_deterministically() {
    let mut w = Window::new(None);
    assert!(w.create("/tmp").is_ok());
    let second = w.create("/tmp");
    assert_eq!(second.unwrap_err(), CreateError::AlreadyMaterialized);
    let third = w.create("/tmp");
    assert_eq!(third.unwrap_err(), CreateError::AlreadyMaterialized);
}

#[test]
fn explicit_geometry_and_devtools_pass_through() {
    let mut o = empty_options();
    o.width = Some(1024);
    o.height = Some(20);
    o.devtools = Some(true);
    let mut w = Window::new(Some(o));
    let plan = w.create("/tmp").unwrap();
    assert_eq!(plan.width, 1024);
    assert_eq!(plan.height, 20);
    assert!(plan.devtools);
}

#[test]
fn getters_resolve_documented_defaults() {
    let w = Window::new(Some(empty_options()));
    assert_eq!(w.get_width(), 800);
    assert_eq!(w.get_height(), 600);
    assert_eq!(w.get_title(), "");
    assert_eq!(w.get_app_name(), "");
    assert!(!w.get_devtools());
}

#[test]
fn lib_version_is_reported() {
    assert_eq!(Window::get_lib_version(), "0.1.0");
}

#[test]
fn runner_waits_until_close_request() {
    let mut r = LoopRunner::new();
    assert_eq!(r.state, LoopState::NotStarted);
    assert_eq!(r.step(LoopEvent::InitTick), ControlDecision::Wait);
    assert_eq!(r.state, LoopState::Running);
    assert_eq!(r.step(LoopEvent::Other), ControlDecision::Wait);
    assert_eq!(r.state, LoopState::Running);
    assert_eq!(r.step(LoopEvent::CloseRequested), ControlDecision::Exit);
    assert_eq!(r.state, LoopState::Exiting);
}

#[test]
fn runner_drive_stops_at_first_close() {
    let mut r = LoopRunner::new();
    let events = vec![
        LoopEvent::InitTick,
        LoopEvent::Other,
        LoopEvent::CloseRequested,
        LoopEvent::Other,
        LoopEvent::CloseRequested,
    ];
    assert_eq!(r.drive(&events), Some(2));
    assert_eq!(r.state, LoopState::Exiting);
}

#[test]
fn runner_drive_without_close_keeps_running() {
    let mut r = LoopRunner::new();
    let events = vec![LoopEvent::InitTick, LoopEvent::Other, LoopEvent::Other];
    assert_eq!(r.drive(&events), None);
    assert_eq!(r.state, LoopState::Running);
}

#[test]
fn runner_drive_with_no_events_never_starts() {
    let mut r = LoopRunner::new();
    let events: Vec<LoopEvent> = Vec::new();
    assert_eq!(r.drive(&events), None);
    assert_eq!(r.state, LoopState::NotStarted);
}

#[test]
fn end_to_end_scenario() {
    let mut o = empty_options();
    o.title = Some(String::from("T"));
    o.width = Some(640);
    o.height = Some(480);
    let mut w = Window::new(Some(o));
    assert!(w.load_html(String::from("<h1>hi</h1>")).is_none());

    let plan = w.create("/tmp").unwrap();
    assert_eq!(plan.title, "T");
    assert_eq!(plan.width, 640);
    assert_eq!(plan.height, 480);
    match plan.content {
        Some(ContentRequest::Html(h)) => assert_eq!(h, "<h1>hi</h1>"),
        _ => panic!("expected the staged markup in the plan"),
    }

    // The controlled close trigger: the third dispatched event terminates the loop.
    let mut r = LoopRunner::new();
    let events = vec![LoopEvent::InitTick, LoopEvent::Other, LoopEvent::CloseRequested];
    assert_eq!(r.drive(&events), Some(2));
    assert_eq!(r.state, LoopState::Exiting);
}
