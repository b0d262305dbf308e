use file_explorer::entry::{ChildProbe, FileSystemEntry, PathProbe};
use file_explorer::handlers::{files, root, settings, Action, Event, HeaderName, Response, Stage, Status};
use file_explorer::ui::page;

fn bytes(text: &str) -> Vec<u8> {
    text.as_bytes().to_vec()
}

fn found(absolute: &str, name: &str, is_dir: bool) -> PathProbe {
    PathProbe {
        absolute: Some(bytes(absolute)),
        exists: true,
        file_name: Some(bytes(name)),
        is_dir,
    }
}

fn child(path: &str, name: &str, is_dir: bool) -> Option<ChildProbe> {
    Some(ChildProbe { name: bytes(name), path: bytes(path), is_dir: Some(is_dir) })
}

fn response_of(stage: &Stage) -> Response {
    match stage.action() {
        Action::Respond(response) => response,
        other => panic!("the request is not over: {other:?}"),
    }
}

fn not_found() -> Response {
    Response {
        status: Status::NotFound,
        header: HeaderName::ContentType,
        value: "text/html".to_string(),
        body: "Not Found".to_string(),
    }
}

#[test]
fn root_redirects_to_files() {
    let response = root();
    assert_eq!(response.status, Status::TemporaryRedirect);
    assert_eq!(response.status.code(), 307);
    assert_eq!(response.header, HeaderName::Location);
    assert_eq!(response.value, "/files/");
    assert_eq!(response.body, "Redirecting...");
}

#[test]
fn status_codes() {
    assert_eq!(Status::Success.code(), 200);
    assert_eq!(Status::TemporaryRedirect.code(), 307);
    assert_eq!(Status::NotFound.code(), 404);
}

#[test]
fn settings_page() {
    let response = settings();
    assert_eq!(response.status, Status::Success);
    assert_eq!(response.header, HeaderName::ContentType);
    assert_eq!(response.value, "text/html");
    assert_eq!(response.body, page("<h1>Settings</h1>"));
    assert!(response.body.contains("<div id=\"content\" class=\"p-4 sm:ml-64\"><h1>Settings</h1></div>"));
}

#[test]
fn request_without_a_path_looks_up_the_working_root() {
    let stage = files(None);
    assert_eq!(stage, Stage::Resolving { path: String::new() });
    assert_eq!(stage.action(), Action::Probe(".".to_string()));
}

#[test]
fn request_looks_up_its_path_without_the_trailing_separator() {
    assert_eq!(files(Some("docs/".to_string())).action(), Action::Probe("docs".to_string()));
    assert_eq!(files(Some("docs".to_string())).action(), Action::Probe("docs".to_string()));
    assert_eq!(files(Some("/".to_string())).action(), Action::Probe(".".to_string()));
}

#[test]
fn listing_of_the_root() {
    let stage = files(None);
    assert_eq!(stage.action(), Action::Probe(".".to_string()));

    let stage = stage.advance(Event::Probed(found("/srv", "srv", true)));
    assert_eq!(stage.action(), Action::Enumerate(bytes("/srv")));

    let stage = stage.advance(Event::Enumerated(Some(vec![
        child("/srv/docs", "docs", true),
        child("/srv/readme.txt", "readme.txt", false),
    ])));
    let response = response_of(&stage);
    assert_eq!(response.status.code(), 200);
    assert_eq!(response.header, HeaderName::ContentType);
    assert_eq!(response.value, "text/html");
    assert!(response.body.contains("<a href=\"/files/docs\">docs</a>"));
    assert!(response.body.contains("<a href=\"/files/readme.txt\">readme.txt</a>"));
    assert!(response.body.contains(
        "<span class=\"icon w-4 h-4 pr-2\"><i class=\"fa-regular fa-folder\"></i></span><a href=\"/files/docs\">"
    ));
    assert!(response.body.contains(
        "<span class=\"icon w-4 h-4 pr-2\"><i class=\"fa-regular fa-file\"></i></span><a href=\"/files/readme.txt\">"
    ));
    assert!(response.body.starts_with("<html><head><title>File Explorer</title>"));
    assert!(response.body.ends_with("</ul></div></div></body></html>"));
}

#[test]
fn listing_is_the_page_around_the_list() {
    let stage = files(Some("docs".to_string()))
        .advance(Event::Probed(found("/srv/docs", "docs", true)))
        .advance(Event::Enumerated(Some(vec![child("/srv/docs/a.md", "a.md", false)])));
    let list = file_explorer::render::render_list(
        &"docs".to_string(),
        &vec![FileSystemEntry { name: bytes("a.md"), path: bytes("/srv/docs/a.md"), is_dir: false }],
    );
    assert_eq!(stage, Stage::Rendered { html: page(&format!("<div>{list}</div>")) });
    assert!(list.contains("<a href=\"/files/docs/a.md\">a.md</a>"));
}

#[test]
fn item_of_a_text_file() {
    let stage = files(Some("readme.txt".to_string()));
    assert_eq!(stage.action(), Action::Probe("readme.txt".to_string()));

    let stage = stage.advance(Event::Probed(found("/srv/readme.txt", "readme.txt", false)));
    assert_eq!(stage.action(), Action::Read(bytes("/srv/readme.txt")));

    let stage = stage.advance(Event::Read(Some(bytes("hello"))));
    let response = response_of(&stage);
    assert_eq!(response.status.code(), 200);
    assert_eq!(response.value, "text/html");
    assert!(response
        .body
        .contains("<p class=\"container whitespace-pre-wrap h-full pt-4\">hello</p><p class=\"container\"></p>"));
    assert!(response.body.contains(
        "<div><h1 class=\"font-bold text-xl\"><i class=\"fa-regular fa-file pr-4\"></i>readme.txt</h1><script>"
    ));
}

#[test]
fn item_of_a_binary_file() {
    let stage = files(Some("blob".to_string()))
        .advance(Event::Probed(found("/srv/blob", "blob", false)))
        .advance(Event::Read(Some(vec![0xff, 0x00])));
    let response = response_of(&stage);
    assert_eq!(response.status.code(), 200);
    assert!(response
        .body
        .contains("<p class=\"container whitespace-pre-wrap h-full pt-4\">Binary...</p>"));
}

#[test]
fn item_of_an_unreadable_file() {
    let stage = files(Some("locked".to_string()))
        .advance(Event::Probed(found("/srv/locked", "locked", false)))
        .advance(Event::Read(None));
    let response = response_of(&stage);
    assert_eq!(response.status.code(), 200);
    assert!(response.body.contains(">Binary...</p>"));
}

#[test]
fn missing_path_is_not_found() {
    let stage = files(Some("missing".to_string()));
    assert_eq!(stage.action(), Action::Probe("missing".to_string()));
    let stage = stage.advance(Event::Probed(PathProbe {
        absolute: Some(bytes("/srv/missing")),
        exists: false,
        file_name: Some(bytes("missing")),
        is_dir: false,
    }));
    assert_eq!(stage, Stage::NotFound);
    let response = response_of(&stage);
    assert_eq!(response.status.code(), 404);
    assert_eq!(response.body, "Not Found");
    assert_eq!(response, not_found());
}

#[test]
fn invalid_path_is_not_found() {
    let stage = files(Some("x".to_string())).advance(Event::Probed(PathProbe {
        absolute: None,
        exists: false,
        file_name: None,
        is_dir: false,
    }));
    assert_eq!(response_of(&stage), not_found());
}

#[test]
fn unreadable_directory_is_not_found() {
    let stage = files(Some("secret".to_string()))
        .advance(Event::Probed(found("/srv/secret", "secret", true)))
        .advance(Event::Enumerated(None));
    assert_eq!(stage, Stage::NotFound);
    assert_eq!(response_of(&stage), not_found());
}

#[test]
fn unexpected_event_changes_nothing() {
    let resolving = files(Some("a".to_string()));
    assert_eq!(resolving.clone().advance(Event::Read(Some(bytes("x")))), resolving);
    assert_eq!(resolving.clone().advance(Event::Enumerated(Some(vec![]))), resolving);

    let listing = resolving.clone().advance(Event::Probed(found("/srv/a", "a", true)));
    assert_eq!(listing.clone().advance(Event::Read(None)), listing);
    assert_eq!(listing.clone().advance(Event::Probed(found("/srv/b", "b", false))), listing);

    let item = resolving.advance(Event::Probed(found("/srv/a", "a", false)));
    assert_eq!(item.clone().advance(Event::Enumerated(None)), item);
}

#[test]
fn finished_request_stays_finished() {
    let rendered = files(Some("a".to_string()))
        .advance(Event::Probed(found("/srv/a", "a", false)))
        .advance(Event::Read(Some(bytes("x"))));
    assert!(matches!(rendered, Stage::Rendered { .. }));
    assert_eq!(rendered.clone().advance(Event::Read(Some(bytes("y")))), rendered);
    assert_eq!(rendered.clone().advance(Event::Probed(found("/srv/b", "b", true))), rendered);
    assert_eq!(Stage::NotFound.advance(Event::Probed(found("/srv/a", "a", false))), Stage::NotFound);
    assert_eq!(Stage::NotFound.advance(Event::Enumerated(Some(vec![]))), Stage::NotFound);
}

#[test]
fn item_stage_with_a_directory_has_nothing_to_show() {
    let stage = Stage::Item {
        path: "docs".to_string(),
        entry: FileSystemEntry { name: bytes("docs"), path: bytes("/srv/docs"), is_dir: true },
    };
    assert_eq!(stage.advance(Event::Read(Some(bytes("x")))), Stage::NotFound);
}

#[test]
fn listing_with_trailing_separator_keeps_the_requested_path() {
    let stage = files(Some("docs/".to_string()))
        .advance(Event::Probed(found("/srv/docs", "docs", true)))
        .advance(Event::Enumerated(Some(vec![child("/srv/docs/a", "a", false)])));
    let response = response_of(&stage);
    assert!(response.body.contains("</i>docs/</h1>"));
    assert!(response.body.contains("<a href=\"/files/docs//a\">a</a>"));
}
