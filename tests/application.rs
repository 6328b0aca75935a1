use paneterm::application::{AppAction, Application};
use paneterm::console::Console;
use paneterm::keys::{KeyCode, KeyEvent};
use paneterm::layout::Region;
use paneterm::model::{example_request, ApiPath, Model, Request};

fn request(method: &str, title: &str, url: &str, body: &str) -> Request {
    Request {
        method: method.to_string(),
        title: title.to_string(),
        url: url.to_string(),
        body: body.to_string(),
        query_params: vec![],
    }
}

fn app() -> Application {
    let model = Model::new(vec![
        request("GET", "one", "http://one", "{}"),
        request("POST", "two", "http://two", "{\n}"),
    ]);
    Application::new(100, 30, model)
}

fn key(a: &mut Application, c: &mut Console, code: KeyCode) -> AppAction {
    a.on_key(&KeyEvent::press(code), c)
}

#[test]
fn picking_a_request_opens_it() {
    let mut c = Console::new();
    let mut a = app();
    a.start(&mut c);
    assert_eq!(key(&mut a, &mut c, KeyCode::Enter), AppAction::Continue);
    assert!(a.layout.list_cont.is_active());
    key(&mut a, &mut c, KeyCode::Down);
    assert_eq!(a.options.selected(), 1);
    key(&mut a, &mut c, KeyCode::Enter);
    assert!(a.layout.select_mode);
    assert_eq!(a.current_request_id, Some(1));
    assert_eq!(a.input.get_value(), "http://two");
    assert_eq!(a.editor.get_body(), "{\n}");
    assert_eq!(a.layout.focused(), Region::List);
}

#[test]
fn save_writes_the_edited_request_back() {
    let mut c = Console::new();
    let mut a = app();
    assert_eq!(key(&mut a, &mut c, KeyCode::Char('s')), AppAction::Continue);
    key(&mut a, &mut c, KeyCode::Enter);
    key(&mut a, &mut c, KeyCode::Enter);
    key(&mut a, &mut c, KeyCode::Right);
    key(&mut a, &mut c, KeyCode::Enter);
    for ch in "/x ".chars() {
        key(&mut a, &mut c, KeyCode::Char(ch));
    }
    key(&mut a, &mut c, KeyCode::Esc);
    assert_eq!(key(&mut a, &mut c, KeyCode::Char('s')), AppAction::Save);
    assert_eq!(a.model.requests[0].url, "http://one/x");
    assert_eq!(a.model.requests[0].title, "one");
    assert_eq!(a.model.requests[0].body, "{}");
    assert_eq!(key(&mut a, &mut c, KeyCode::Char('e')), AppAction::Continue);
    assert_eq!(key(&mut a, &mut c, KeyCode::Esc), AppAction::Exit);
}

#[test]
fn render_stale_draws_once() {
    let mut c = Console::new();
    let mut a = app();
    a.render_stale(&mut c);
    assert!(!c.take_commands().is_empty());
    a.render_stale(&mut c);
    assert!(c.take_commands().is_empty());
    a.finish(&mut c);
    assert_eq!(c.take_commands().len(), 2);
}

#[test]
fn import_builds_one_request_per_path() {
    let servers = vec!["http://a".to_string(), "http://b".to_string()];
    let paths = vec![
        ApiPath {
            path: "/pets".to_string(),
            get_params: Some(vec!["limit".to_string()]),
            has_post: false,
            has_put: false,
        },
        ApiPath { path: "/x".to_string(), get_params: Some(vec![]), has_post: true, has_put: true },
        ApiPath { path: "/y".to_string(), get_params: None, has_post: true, has_put: false },
        ApiPath { path: "/z".to_string(), get_params: None, has_post: false, has_put: false },
    ];
    let m = Model::import_from_openapi(&servers, &paths);
    let r = &m.requests;
    assert_eq!(r.len(), 4);
    assert_eq!((r[0].method.as_str(), r[0].url.as_str()), ("GET", "http://b/pets"));
    assert!(r[0].query_params.is_empty());
    assert_eq!((r[1].method.as_str(), r[1].url.as_str()), ("PUT", "http://b/x"));
    assert_eq!(r[2].method, "POST");
    assert_eq!(r[3].method, "");
    let none = Model::import_from_openapi(&vec![], &paths);
    assert_eq!(none.requests[0].url, "/pets");
}

#[test]
fn example_request_fields() {
    let r = example_request("hellooo");
    assert_eq!(r.method, "POST");
    assert_eq!(r.title, "Create request");
    assert_eq!(r.url, "http://google.com");
    assert_eq!(r.body, "hellooo");
}

#[test]
fn escape_in_interaction_redraws_and_hides_the_cursor() {
    let mut c = Console::new();
    let mut a = app();
    key(&mut a, &mut c, KeyCode::Right);
    key(&mut a, &mut c, KeyCode::Enter);
    c.take_commands();
    key(&mut a, &mut c, KeyCode::Char('q'));
    assert!(c.take_commands().is_empty());
    assert_eq!(a.editor.get_body(), "");
    assert_eq!(key(&mut a, &mut c, KeyCode::Esc), AppAction::Continue);
    let cmds = c.take_commands();
    assert_eq!(cmds.last(), Some(&paneterm::console::Command::HideCursor));
    assert!(cmds.contains(&paneterm::console::Command::Print("┌".to_string())));
    assert!(a.layout.input_cont.is_selected());
    assert_eq!(a.input.get_value(), "q");
}
