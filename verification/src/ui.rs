//! The page shell: the fixed head and navigation around any view.

use crate::packages::{
    FONTAWESOME_PACKAGE, HTMX_PACKAGE, MONACO_BASE, MONACO_EDITOR_PACKAGE, MONACO_LOADER_PACKAGE,
    MONACO_STYLESHEET, TAILWIND_PACKAGE,
};
use crate::text::{escaped, render_text};
use vstd::prelude::*;
use vstd::string::*;

verus! {

/// The script that configures the editor's loader, up to the address.
pub const REQUIRE_OPEN: &'static str = "<script>\n\tvar require = { paths: { vs: \"";

/// The rest of that script.
pub const REQUIRE_CLOSE: &'static str = "\" } };\n</script>";

/// The opening of the page, with its title.
pub const HEAD_OPEN: &'static str = "<html><head><title>File Explorer</title>";

/// The opening of a script element, up to its address.
pub const SCRIPT_OPEN: &'static str = "<script src=\"";

/// The rest of a script element.
pub const SCRIPT_CLOSE: &'static str = "\"></script>";

/// The opening of a stylesheet link, up to its address.
pub const STYLESHEET_OPEN: &'static str = "<link rel=\"stylesheet\" href=\"";

/// The rest of a stylesheet link.
pub const STYLESHEET_CLOSE: &'static str = "\">";

/// The end of the head, the sidebar with its two links, and the opening of the
/// content area.
pub const BODY_OPEN: &'static str =
    "</head><body><aside id=\"sidebar\" class=\"fixed top-0 left-0 z-40 w-64 h-screen transition-transform sm:translate-x-0\"><div class=\"h-full px-3 py-4 overflow-y-auto bg-gray-50 dark:bg-gray-800\"><ul class=\"space-y-2 font-medium\"><li><a href=\"/files/\" class=\"flex items-center p-2 text-gray-900 rounded-lg dark:text-white hover:bg-gray-100 dark:hover:bg-gray-700 group\"><i class=\"fa-regular fa-file\"></i><span class=\"ms-3\">Files</span></a></li><li><a href=\"/settings/\" class=\"flex items-center p-2 text-gray-900 rounded-lg dark:text-white hover:bg-gray-100 dark:hover:bg-gray-700 group\"><i class=\"fa-solid fa-gear\"></i><span class=\"flex-1 ms-3 whitespace-nowrap\">Settings</span></a></li></ul></div></aside><div id=\"content\" class=\"p-4 sm:ml-64\">";

/// The closing of the content area and of the page.
pub const BODY_CLOSE: &'static str = "</div></body></html>";

/// The script that tells the editor's loader where its modules are.
pub struct MonacoRequire(pub &'static str);

impl MonacoRequire {
    /// The markup of the script: the address stands in it as it is.
    pub open spec fn html(self) -> Seq<char> {
        REQUIRE_OPEN@ + self.0@ + REQUIRE_CLOSE@
    }

    /// Appends the script to `output`.
    pub fn render_to(self, output: &mut String)
        ensures
            final(output)@ == old(output)@ + self.html(),
    {
        output.append(REQUIRE_OPEN);
        output.append(self.0);
        output.append(REQUIRE_CLOSE);
        assert(output@ =~= old(output)@ + self.html());
    }
}

/// A script element that loads `address`.
pub open spec fn script_html(address: Seq<char>) -> Seq<char> {
    SCRIPT_OPEN@ + escaped(address) + SCRIPT_CLOSE@
}

/// A link element that applies the stylesheet at `address`.
pub open spec fn stylesheet_html(address: Seq<char>) -> Seq<char> {
    STYLESHEET_OPEN@ + escaped(address) + STYLESHEET_CLOSE@
}

/// The head of every page: the title, the editor's loader and the assets.
pub open spec fn head_html() -> Seq<char> {
    HEAD_OPEN@ + MonacoRequire(MONACO_BASE).html() + script_html(MONACO_LOADER_PACKAGE@)
        + script_html(MONACO_EDITOR_PACKAGE@) + script_html(HTMX_PACKAGE@) + script_html(
        TAILWIND_PACKAGE@,
    ) + stylesheet_html(FONTAWESOME_PACKAGE@) + stylesheet_html(MONACO_STYLESHEET@)
}

/// The page around `content`: the head, the sidebar with its two links, then
/// the content as it is, in the content area.
pub open spec fn page_html(content: Seq<char>) -> Seq<char> {
    head_html() + BODY_OPEN@ + content + BODY_CLOSE@
}

fn render_script(address: &str, output: &mut String)
    ensures
        final(output)@ == old(output)@ + script_html(address@),
{
    output.append(SCRIPT_OPEN);
    render_text(address, output);
    output.append(SCRIPT_CLOSE);
    assert(output@ =~= old(output)@ + script_html(address@));
}

fn render_stylesheet(address: &str, output: &mut String)
    ensures
        final(output)@ == old(output)@ + stylesheet_html(address@),
{
    output.append(STYLESHEET_OPEN);
    render_text(address, output);
    output.append(STYLESHEET_CLOSE);
    assert(output@ =~= old(output)@ + stylesheet_html(address@));
}

/// Wraps `content`, which is markup already, in the page shell.
pub fn page(content: &str) -> (html: String)
    ensures
        html@ == page_html(content@),
{
    let mut html = String::new();
    html.append(HEAD_OPEN);
    MonacoRequire(MONACO_BASE).render_to(&mut html);
    render_script(MONACO_LOADER_PACKAGE, &mut html);
    render_script(MONACO_EDITOR_PACKAGE, &mut html);
    render_script(HTMX_PACKAGE, &mut html);
    render_script(TAILWIND_PACKAGE, &mut html);
    render_stylesheet(FONTAWESOME_PACKAGE, &mut html);
    render_stylesheet(MONACO_STYLESHEET, &mut html);
    assert(html@ =~= head_html());
    html.append(BODY_OPEN);
    html.append(content);
    html.append(BODY_CLOSE);
    html
}

} // verus!
