//! The two views and their markup: the listing of a directory and the
//! content of a single file, shown in the code editor.

use crate::entry::{content_of, views, EntryView, FileSystemEntry};
use crate::select::{result_view, ListingResult, ListingView};
use crate::text::{
    escaped, lossy_text, render_text, to_string_lossy, trim_leading_separators,
    without_leading_separators,
};
use either::Either;
use vstd::prelude::*;
use vstd::string::*;
use vstd::utf8::valid_utf8;

verus! {

/// The script that starts the editor over the text of the page's container.
pub const EDITOR_SCRIPT: &'static str =
    "<script>\n                htmx.onLoad(function (target) {\n                    let container = target.querySelector(\"p.container\");\n                    let value = container.innerText;\n                    container.innerText = \"\";\n                    window.editor = monaco.editor.create(container, {\n                        value,\n                        automaticLayout: true,\n                        useShadowDOM: true,\n                    });\n                });\n            </script>\n            ";

/// The opening of the container that holds the text for the editor.
pub const EDITOR_TEXT_OPEN: &'static str =
    "<p class=\"container whitespace-pre-wrap h-full pt-4\">";

/// The closing of that container.
pub const EDITOR_TEXT_CLOSE: &'static str = "</p>";

/// The empty container that ends the item view.
pub const EDITOR_CONTAINER: &'static str = "<p class=\"container\"></p>";

/// What is shown in place of a file's text when the file has none.
pub const BINARY_PLACEHOLDER: &'static str = "Binary...";

/// The opening of the heading of the item view, with the file icon.
pub const ITEM_HEADING_OPEN: &'static str =
    "<h1 class=\"font-bold text-xl\"><i class=\"fa-regular fa-file pr-4\"></i>";

/// The opening of the heading of the listing view, with the folder icon.
pub const LIST_HEADING_OPEN: &'static str =
    "<h1 class=\"font-bold text-xl\"><i class=\"fa-regular fa-folder pr-4\"></i>";

/// The closing of either heading.
pub const HEADING_CLOSE: &'static str = "</h1>";

/// The opening of the list of rows.
pub const LIST_OPEN: &'static str = "<ul hx-boost=\"true\">";

/// The closing of the list of rows.
pub const LIST_CLOSE: &'static str = "</ul>";

/// The opening of a row, up to its icon.
pub const ROW_OPEN: &'static str = "<li class=\"item\"><span class=\"icon w-4 h-4 pr-2\">";

/// The icon of a directory.
pub const FOLDER_ICON: &'static str = "<i class=\"fa-regular fa-folder\"></i>";

/// The icon of a file.
pub const FILE_ICON: &'static str = "<i class=\"fa-regular fa-file\"></i>";

/// What stands between a row's icon and the address of its link.
pub const LINK_OPEN: &'static str = "</span><a href=\"";

/// What stands between the address of a link and its text.
pub const LINK_MIDDLE: &'static str = "\">";

/// The closing of a row.
pub const ROW_CLOSE: &'static str = "</a></li>";

/// The prefix of every address under which entries are browsed.
pub const FILES_PREFIX: &'static str = "/files/";

/// The separator of path segments.
pub const SEPARATOR: &'static str = "/";

/// A text handed to the editor.
pub struct MonacoRenderable(pub String);

impl MonacoRenderable {
    /// The markup of the editor over a text: the start-up script, then the
    /// escaped text in the container that the script reads it from.
    pub open spec fn html(self) -> Seq<char> {
        editor_html(self.0@)
    }

    /// Appends the editor to `output`.
    pub fn render_to(self, output: &mut String)
        ensures
            final(output)@ == old(output)@ + self.html(),
    {
        output.append(EDITOR_SCRIPT);
        output.append(EDITOR_TEXT_OPEN);
        render_text(self.0.as_str(), output);
        output.append(EDITOR_TEXT_CLOSE);
        assert(output@ =~= old(output)@ + self.html());
    }
}

/// The markup of the editor over `text`.
pub open spec fn editor_html(text: Seq<char>) -> Seq<char> {
    EDITOR_SCRIPT@ + EDITOR_TEXT_OPEN@ + escaped(text) + EDITOR_TEXT_CLOSE@
}

/// The text shown for a file: its content, or the placeholder where it has
/// none.
pub open spec fn shown_text(entry: EntryView, read: Option<Vec<u8>>) -> Seq<char> {
    match content_of(entry, read) {
        Some(text) => text,
        None => BINARY_PLACEHOLDER@,
    }
}

/// The markup of the item view of a file called `name` that shows `shown`: a
/// heading with the escaped name, the editor over the shown text, and the
/// editor's container.
pub open spec fn item_markup(name: Seq<char>, shown: Seq<char>) -> Seq<char> {
    ITEM_HEADING_OPEN@ + escaped(name) + HEADING_CLOSE@ + editor_html(shown) + EDITOR_CONTAINER@
}

/// The markup of the item view of an entry: its name as text, lossily where
/// it is none, and its content or the placeholder.
pub open spec fn item_html(entry: EntryView, read: Option<Vec<u8>>) -> Seq<char> {
    item_markup(lossy_text(entry.name), shown_text(entry, read))
}

/// Renders the item view of a file called `name` that shows `shown`.
pub fn render_item_with(name: &str, shown: String) -> (html: String)
    ensures
        html@ == item_markup(name@, shown@),
{
    let mut html = String::new();
    html.append(ITEM_HEADING_OPEN);
    render_text(name, &mut html);
    html.append(HEADING_CLOSE);
    MonacoRenderable(shown).render_to(&mut html);
    html.append(EDITOR_CONTAINER);
    assert(html@ =~= item_markup(name@, shown@));
    html
}

/// Renders the item view of `item`, given what was read of it.
pub fn render_item(item: &FileSystemEntry, read: Option<Vec<u8>>) -> (html: String)
    ensures
        html@ == item_html(item@, read),
{
    let name = to_string_lossy(item.name.as_slice());
    let shown = match item.read_content(read) {
        Some(content) => content,
        None => BINARY_PLACEHOLDER.to_owned(),
    };
    render_item_with(name.as_str(), shown)
}

/// The address that a child's link points to: the prefix, the current path
/// where there is one, a separator, and the child's name without its leading
/// separators.
pub open spec fn link_target(path: Seq<char>, name: Seq<char>) -> Seq<char> {
    if path.len() == 0 {
        FILES_PREFIX@ + without_leading_separators(name)
    } else {
        FILES_PREFIX@ + path + SEPARATOR@ + without_leading_separators(name)
    }
}

/// Builds the address that the link of the child `name` points to.
pub fn link_to(path: &str, name: &str) -> (link: String)
    ensures
        link@ == link_target(path@, name@),
{
    let mut link = String::new();
    link.append(FILES_PREFIX);
    if !path.is_empty() {
        link.append(path);
        link.append(SEPARATOR);
    }
    link.append(trim_leading_separators(name));
    assert(link@ =~= link_target(path@, name@));
    link
}

/// The icon of a row.
pub open spec fn icon_html(is_dir: bool) -> Seq<char> {
    if is_dir {
        FOLDER_ICON@
    } else {
        FILE_ICON@
    }
}

/// The markup of one row of a listing: the icon of the child's kind, then
/// the child's name, linked to its address.
pub open spec fn row_markup(path: Seq<char>, name: Seq<char>, is_dir: bool) -> Seq<char> {
    ROW_OPEN@ + icon_html(is_dir) + LINK_OPEN@ + escaped(link_target(path, name)) + LINK_MIDDLE@
        + escaped(name) + ROW_CLOSE@
}

/// The row of an entry: its name as text, lossily where it is none.
pub open spec fn row_html(path: Seq<char>, entry: EntryView) -> Seq<char> {
    row_markup(path, lossy_text(entry.name), entry.is_dir)
}

/// The rows of a listing, one for each entry, in order.
pub open spec fn rows_html(path: Seq<char>, entries: Seq<EntryView>) -> Seq<char>
    decreases entries.len(),
{
    if entries.len() == 0 {
        Seq::empty()
    } else {
        rows_html(path, entries.drop_last()) + row_html(path, entries.last())
    }
}

/// The markup of the listing view: a heading with the current path, then the
/// rows.
pub open spec fn list_html(path: Seq<char>, entries: Seq<EntryView>) -> Seq<char> {
    LIST_HEADING_OPEN@ + escaped(path) + HEADING_CLOSE@ + LIST_OPEN@ + rows_html(path, entries)
        + LIST_CLOSE@
}

/// Appends the row of the child called `name` to `output`.
pub fn render_row(path: &str, name: &str, is_dir: bool, output: &mut String)
    ensures
        final(output)@ == old(output)@ + row_markup(path@, name@, is_dir),
{
    output.append(ROW_OPEN);
    if is_dir {
        output.append(FOLDER_ICON);
    } else {
        output.append(FILE_ICON);
    }
    output.append(LINK_OPEN);
    let link = link_to(path, name);
    render_text(link.as_str(), output);
    output.append(LINK_MIDDLE);
    render_text(name, output);
    output.append(ROW_CLOSE);
    assert(output@ =~= old(output)@ + row_markup(path@, name@, is_dir));
}

/// Renders the listing view of the directory at `path` with children `items`.
pub fn render_list(path: &String, items: &Vec<FileSystemEntry>) -> (html: String)
    ensures
        html@ == list_html(path@, views(items@)),
{
    let mut html = String::new();
    html.append(LIST_HEADING_OPEN);
    render_text(path.as_str(), &mut html);
    html.append(HEADING_CLOSE);
    html.append(LIST_OPEN);
    let ghost opening = html@;
    let mut i: usize = 0;
    assert(views(items@).take(0) =~= Seq::empty());
    assert(html@ =~= opening + rows_html(path@, views(items@).take(0)));
    while i < items.len()
        invariant
            i <= items.len(),
            html@ == opening + rows_html(path@, views(items@).take(i as int)),
        decreases items.len() - i,
    {
        let ghost before = html@;
        let name = to_string_lossy(items[i].name.as_slice());
        render_row(path.as_str(), name.as_str(), items[i].is_dir, &mut html);
        proof {
            let seen = views(items@).take(i + 1);
            assert(seen.drop_last() =~= views(items@).take(i as int));
            assert(seen.last() == items@[i as int]@);
            assert(html@ =~= opening + rows_html(path@, seen));
        }
        i += 1;
    }
    assert(views(items@).take(i as int) =~= views(items@));
    html.append(LIST_CLOSE);
    assert(html@ =~= list_html(path@, views(items@)));
    html
}

/// The markup of a view: the listing of a directory, or the item view of a
/// file with what was read of it.
pub open spec fn view_html(path: Seq<char>, result: ListingView, read: Option<Vec<u8>>) -> Seq<
    char,
> {
    match result {
        Either::Left(entries) => list_html(path, entries),
        Either::Right(entry) => item_html(entry, read),
    }
}

/// A view about to be rendered: the current path, what it resolved to and,
/// for a file, what was read of it.
pub struct TestRenderable<'a>(pub &'a String, pub &'a ListingResult, pub Option<Vec<u8>>);

impl TestRenderable<'_> {
    /// The markup of the view.
    pub open spec fn html(self) -> Seq<char> {
        view_html(self.0@, result_view(*self.1), self.2)
    }

    /// Appends the view to `output`.
    pub fn render_to(self, output: &mut String)
        ensures
            final(output)@ == old(output)@ + self.html(),
    {
        match self.1 {
            Either::Left(entries) => {
                let list = render_list(self.0, entries);
                output.append(list.as_str());
            },
            Either::Right(entry) => {
                let item = render_item(entry, self.2);
                output.append(item.as_str());
            },
        }
    }
}

/// Link construction is idempotent against doubled separators: a separator in
/// front of a child's name changes nothing in the address of its link.
pub proof fn lemma_link_ignores_leading_separator(path: Seq<char>, name: Seq<char>)
    ensures
        link_target(path, seq!['/'] + name) == link_target(path, name),
{
    assert((seq!['/'] + name).drop_first() =~= name);
}

/// The name in a link never starts with a separator, so none is doubled
/// where the name is joined to the path.
pub proof fn lemma_link_name_has_no_leading_separator(name: Seq<char>)
    ensures
        without_leading_separators(name).len() > 0 ==> without_leading_separators(name).first()
            != '/',
    decreases name.len(),
{
    if name.len() > 0 && name.first() == '/' {
        lemma_link_name_has_no_leading_separator(name.drop_first());
    }
}

/// A file without text is shown as the placeholder: where reading failed or
/// the bytes read are not well-formed UTF-8, the item view holds the
/// placeholder in place of a content.
pub proof fn lemma_binary_placeholder(entry: EntryView, read: Option<Vec<u8>>)
    requires
        read matches Some(bytes) ==> !valid_utf8(bytes@),
    ensures
        shown_text(entry, read) == BINARY_PLACEHOLDER@,
        item_html(entry, read) == item_markup(lossy_text(entry.name), BINARY_PLACEHOLDER@),
{
}

} // verus!
