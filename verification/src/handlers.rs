//! What the server answers: the fixed responses, and the course of a request
//! for an entry, from its path to the response.
//!
//! A request for an entry needs the filesystem up to three times. The course
//! of such a request is a [`Stage`]; each stage names the one thing that its
//! driver has to do next, as an [`Action`], and moves on when it is told the
//! outcome, as an [`Event`]. Nothing is kept from one request to the next.

use crate::entry::{
    request_target, resolved, target_of, ChildProbe, EntryView, FileSystemEntry, PathProbe,
};
use crate::render::{view_html, TestRenderable, FILES_PREFIX};
use crate::select::{list_files, result_view, selected, ListingView};
use crate::ui::{page, page_html};
use vstd::prelude::*;
use vstd::string::*;

verus! {

/// The body sent along with the redirect.
pub const REDIRECT_BODY: &'static str = "Redirecting...";

/// The content type of every page, and of the not-found response.
pub const HTML_TYPE: &'static str = "text/html";

/// The body of the not-found response.
pub const NOT_FOUND_BODY: &'static str = "Not Found";

/// The content of the settings page.
pub const SETTINGS_CONTENT: &'static str = "<h1>Settings</h1>";

/// The opening of the block that holds a view.
pub const VIEW_OPEN: &'static str = "<div>";

/// The closing of the block that holds a view.
pub const VIEW_CLOSE: &'static str = "</div>";

/// The status of a response.
#[derive(Debug, Clone, Copy, PartialEq, Eq, Structural)]
pub enum Status {
    Success,
    TemporaryRedirect,
    NotFound,
}

impl Status {
    /// The status code, as a number.
    pub open spec fn code_of(self) -> u16 {
        match self {
            Status::Success => 200,
            Status::TemporaryRedirect => 307,
            Status::NotFound => 404,
        }
    }

    /// The status code sent on the wire.
    pub fn code(self) -> (code: u16)
        ensures
            code == self.code_of(),
    {
        match self {
            Status::Success => 200,
            Status::TemporaryRedirect => 307,
            Status::NotFound => 404,
        }
    }
}

/// The header that a response sets.
#[derive(Debug, Clone, Copy, PartialEq, Eq, Structural)]
pub enum HeaderName {
    ContentType,
    Location,
}

/// A complete response: a status, one header and the body.
#[derive(Debug, Clone, PartialEq, Eq)]
pub struct Response {
    pub status: Status,
    pub header: HeaderName,
    pub value: String,
    pub body: String,
}

/// The mathematical value of a [`Response`].
pub struct ResponseView {
    pub status: Status,
    pub header: HeaderName,
    pub value: Seq<char>,
    pub body: Seq<char>,
}

impl View for Response {
    type V = ResponseView;

    open spec fn view(&self) -> ResponseView {
        ResponseView {
            status: self.status,
            header: self.header,
            value: self.value@,
            body: self.body@,
        }
    }
}

/// The answer to a request for the site's root: a temporary redirect to the
/// address under which entries are browsed.
pub open spec fn redirect_response() -> ResponseView {
    ResponseView {
        status: Status::TemporaryRedirect,
        header: HeaderName::Location,
        value: FILES_PREFIX@,
        body: REDIRECT_BODY@,
    }
}

/// A page, served as HTML.
pub open spec fn html_response(html: Seq<char>) -> ResponseView {
    ResponseView {
        status: Status::Success,
        header: HeaderName::ContentType,
        value: HTML_TYPE@,
        body: html,
    }
}

/// The answer where nothing can be shown.
pub open spec fn not_found_response() -> ResponseView {
    ResponseView {
        status: Status::NotFound,
        header: HeaderName::ContentType,
        value: HTML_TYPE@,
        body: NOT_FOUND_BODY@,
    }
}

/// Answers a request for the site's root.
pub fn root() -> (response: Response)
    ensures
        response@ == redirect_response(),
{
    Response {
        status: Status::TemporaryRedirect,
        header: HeaderName::Location,
        value: FILES_PREFIX.to_owned(),
        body: REDIRECT_BODY.to_owned(),
    }
}

/// Answers a request for the settings page.
pub fn settings() -> (response: Response)
    ensures
        response@ == html_response(page_html(SETTINGS_CONTENT@)),
{
    Response {
        status: Status::Success,
        header: HeaderName::ContentType,
        value: HTML_TYPE.to_owned(),
        body: page(SETTINGS_CONTENT),
    }
}

/// How far a request for an entry has come.
#[derive(Debug, Clone, PartialEq, Eq)]
pub enum Stage {
    /// The request path is known; the location it names is yet to be looked up.
    Resolving { path: String },
    /// The path resolved to a directory, which is yet to be enumerated.
    Listing { path: String, entry: FileSystemEntry },
    /// The path resolved to a file, which is yet to be read.
    Item { path: String, entry: FileSystemEntry },
    /// The page is rendered.
    Rendered { html: String },
    /// There is nothing to show.
    NotFound,
}

/// The mathematical value of a [`Stage`].
pub enum StageView {
    Resolving { path: Seq<char> },
    Listing { path: Seq<char>, entry: EntryView },
    Item { path: Seq<char>, entry: EntryView },
    Rendered { html: Seq<char> },
    NotFound,
}

impl View for Stage {
    type V = StageView;

    open spec fn view(&self) -> StageView {
        match *self {
            Stage::Resolving { path } => StageView::Resolving { path: path@ },
            Stage::Listing { path, entry } => StageView::Listing { path: path@, entry: entry@ },
            Stage::Item { path, entry } => StageView::Item { path: path@, entry: entry@ },
            Stage::Rendered { html } => StageView::Rendered { html: html@ },
            Stage::NotFound => StageView::NotFound,
        }
    }
}

/// What the driver of a request found out for it.
#[derive(Debug, Clone, PartialEq, Eq)]
pub enum Event {
    /// What was observed at the location looked up.
    Probed(PathProbe),
    /// The children enumerated, each as far as it could be read; nothing
    /// where the directory could not be enumerated at all.
    Enumerated(Option<Vec<Option<ChildProbe>>>),
    /// The bytes read; nothing where the file could not be read.
    Read(Option<Vec<u8>>),
}

/// What the driver of a request has to do next.
#[derive(Debug, Clone, PartialEq, Eq)]
pub enum Action {
    /// Look this location up and report a [`Event::Probed`].
    Probe(String),
    /// Enumerate the directory at this path and report a [`Event::Enumerated`].
    Enumerate(Vec<u8>),
    /// Read the file at this path and report a [`Event::Read`].
    Read(Vec<u8>),
    /// Send this response; the request is over.
    Respond(Response),
}

/// The mathematical value of an [`Action`].
pub enum ActionView {
    Probe(Seq<char>),
    Enumerate(Seq<u8>),
    Read(Seq<u8>),
    Respond(ResponseView),
}

impl View for Action {
    type V = ActionView;

    open spec fn view(&self) -> ActionView {
        match *self {
            Action::Probe(target) => ActionView::Probe(target@),
            Action::Enumerate(path) => ActionView::Enumerate(path@),
            Action::Read(path) => ActionView::Read(path@),
            Action::Respond(response) => ActionView::Respond(response@),
        }
    }
}

/// The path that a request names: the empty path where it names none.
pub open spec fn request_path(path: Option<String>) -> Seq<char> {
    match path {
        Some(path) => path@,
        None => Seq::empty(),
    }
}

/// The page that shows a view: the view, in a block of its own, in the page
/// shell.
pub open spec fn files_html(path: Seq<char>, result: ListingView, read: Option<Vec<u8>>) -> Seq<
    char,
> {
    page_html(VIEW_OPEN@ + view_html(path, result, read) + VIEW_CLOSE@)
}

/// The stage that ends a request with the view selected for `entry`, or with
/// nothing to show where none is selected.
pub open spec fn rendered(
    path: Seq<char>,
    entry: EntryView,
    enumeration: Option<Vec<Option<ChildProbe>>>,
    read: Option<Vec<u8>>,
) -> StageView {
    match selected(Ok(entry), enumeration) {
        Some(result) => StageView::Rendered { html: files_html(path, result, read) },
        None => StageView::NotFound,
    }
}

impl StageView {
    /// The action that a stage waits for.
    ///
    /// A resolving request has its target looked up; a directory is
    /// enumerated and a file read, each at its resolved location; a finished
    /// request is answered, with the page or with the not-found response.
    pub open spec fn action(self) -> ActionView {
        match self {
            StageView::Resolving { path } => ActionView::Probe(target_of(path)),
            StageView::Listing { entry, .. } => ActionView::Enumerate(entry.path),
            StageView::Item { entry, .. } => ActionView::Read(entry.path),
            StageView::Rendered { html } => ActionView::Respond(html_response(html)),
            StageView::NotFound => ActionView::Respond(not_found_response()),
        }
    }

    /// The stage after an event.
    ///
    /// A probe resolves the request: to a directory, to a file, or to nothing,
    /// whatever the reason. An enumeration ends the request for a directory
    /// with its listing, a read ends the request for a file with its item
    /// view. An event that the stage does not wait for changes nothing.
    pub open spec fn advance(self, event: Event) -> StageView {
        match (self, event) {
            (StageView::Resolving { path }, Event::Probed(probe)) => match resolved(probe) {
                Ok(entry) => if entry.is_dir {
                    StageView::Listing { path, entry }
                } else {
                    StageView::Item { path, entry }
                },
                Err(_) => StageView::NotFound,
            },
            (StageView::Listing { path, entry }, Event::Enumerated(enumeration)) => rendered(
                path,
                entry,
                enumeration,
                None,
            ),
            (StageView::Item { path, entry }, Event::Read(read)) => rendered(
                path,
                entry,
                None,
                read,
            ),
            _ => self,
        }
    }

    /// Whether the request is over.
    pub open spec fn finished(self) -> bool {
        self is Rendered || self is NotFound
    }
}

/// Takes up a request for the entry at `path`, or for the working root where
/// the request names no path.
pub fn files(path: Option<String>) -> (stage: Stage)
    ensures
        stage@ == (StageView::Resolving { path: request_path(path) }),
{
    match path {
        Some(path) => Stage::Resolving { path },
        None => Stage::Resolving { path: String::new() },
    }
}

fn render_view(
    path: String,
    entry: FileSystemEntry,
    enumeration: &Option<Vec<Option<ChildProbe>>>,
    read: Option<Vec<u8>>,
) -> (stage: Stage)
    ensures
        stage@ == rendered(path@, entry@, *enumeration, read),
{
    match list_files(Ok(entry), enumeration) {
        Some(result) => {
            let mut content = String::new();
            content.append(VIEW_OPEN);
            TestRenderable(&path, &result, read).render_to(&mut content);
            content.append(VIEW_CLOSE);
            assert(content@ =~= VIEW_OPEN@ + view_html(path@, result_view(result), read)
                + VIEW_CLOSE@);
            Stage::Rendered { html: page(content.as_str()) }
        },
        None => Stage::NotFound,
    }
}

impl Stage {
    /// Says what has to be done next for the request.
    pub fn action(&self) -> (action: Action)
        ensures
            action@ == self@.action(),
    {
        match self {
            Stage::Resolving { path } => Action::Probe(request_target(path.as_str())),
            Stage::Listing { entry, .. } => Action::Enumerate(entry.path.clone()),
            Stage::Item { entry, .. } => Action::Read(entry.path.clone()),
            Stage::Rendered { html } => Action::Respond(
                Response {
                    status: Status::Success,
                    header: HeaderName::ContentType,
                    value: HTML_TYPE.to_owned(),
                    body: html.clone(),
                },
            ),
            Stage::NotFound => Action::Respond(
                Response {
                    status: Status::NotFound,
                    header: HeaderName::ContentType,
                    value: HTML_TYPE.to_owned(),
                    body: NOT_FOUND_BODY.to_owned(),
                },
            ),
        }
    }

    /// Moves the request on by what was found out for it.
    pub fn advance(self, event: Event) -> (next: Stage)
        ensures
            next@ == self@.advance(event),
    {
        match (self, event) {
            (Stage::Resolving { path }, Event::Probed(probe)) => {
                match FileSystemEntry::from_path(&probe) {
                    Ok(entry) => if entry.is_dir {
                        Stage::Listing { path, entry }
                    } else {
                        Stage::Item { path, entry }
                    },
                    Err(_) => Stage::NotFound,
                }
            },
            (Stage::Listing { path, entry }, Event::Enumerated(enumeration)) => render_view(
                path,
                entry,
                &enumeration,
                None,
            ),
            (Stage::Item { path, entry }, Event::Read(read)) => render_view(
                path,
                entry,
                &None,
                read,
            ),
            (stage, _) => stage,
        }
    }
}

/// A finished request stays as it is: no event changes a rendered page or the
/// not-found outcome, and its action is the response.
pub proof fn lemma_finished_is_final(stage: StageView, event: Event)
    requires
        stage.finished(),
    ensures
        stage.advance(event) == stage,
        stage.action() is Respond,
{
}

/// Every request ends after the probe and at most one more observation: the
/// probe finishes it, or leaves a directory to enumerate or a file to read,
/// and the outcome of that finishes it.
pub proof fn lemma_request_ends(
    path: Seq<char>,
    probe: PathProbe,
    enumeration: Option<Vec<Option<ChildProbe>>>,
    read: Option<Vec<u8>>,
)
    ensures
        ({
            let probed = (StageView::Resolving { path }).advance(Event::Probed(probe));
            match probed {
                StageView::Listing { entry, .. } => entry.is_dir && probed.advance(
                    Event::Enumerated(enumeration),
                ).finished(),
                StageView::Item { entry, .. } => !entry.is_dir && probed.advance(
                    Event::Read(read),
                ) is Rendered,
                _ => probed is NotFound,
            }
        }),
{
}

/// Whatever happens to a request, it is answered with a page or with the
/// not-found response, and with either as HTML; no other failure is shown.
pub proof fn lemma_outcomes(stage: StageView)
    ensures
        stage.action() matches ActionView::Respond(response) ==> {
            &&& response.status == Status::Success || response.status == Status::NotFound
            &&& response.header == HeaderName::ContentType
            &&& response.value == HTML_TYPE@
        },
{
}

/// A path that does not resolve is answered with the not-found response,
/// whether the path was invalid or nothing exists at its location.
pub proof fn lemma_unresolved_is_not_found(path: Seq<char>, probe: PathProbe)
    requires
        resolved(probe) is Err,
    ensures
        (StageView::Resolving { path }).advance(Event::Probed(probe)) == StageView::NotFound,
        StageView::NotFound.action() == ActionView::Respond(not_found_response()),
{
}

} // verus!
