//! Where the page shell loads its third-party assets from.

use vstd::prelude::*;

verus! {

/// The directory of the code editor's modules, handed to its loader.
pub const MONACO_BASE: &'static str =
    "https://cdnjs.cloudflare.com/ajax/libs/monaco-editor/0.26.1/min/vs";

/// The code editor's module loader.
pub const MONACO_LOADER_PACKAGE: &'static str =
    "https://cdnjs.cloudflare.com/ajax/libs/monaco-editor/0.26.1/min/vs/loader.js";

/// The code editor itself.
pub const MONACO_EDITOR_PACKAGE: &'static str =
    "https://cdnjs.cloudflare.com/ajax/libs/monaco-editor/0.26.1/min/vs/editor/editor.main.js";

/// The code editor's stylesheet.
pub const MONACO_STYLESHEET: &'static str =
    "https://cdnjs.cloudflare.com/ajax/libs/monaco-editor/0.26.1/min/vs/editor/editor.main.css";

/// The library that swaps page fragments in place.
pub const HTMX_PACKAGE: &'static str = "https://unpkg.com/htmx.org@2.0.4";

/// The utility stylesheet, built in the browser.
pub const TAILWIND_PACKAGE: &'static str = "https://unpkg.com/@tailwindcss/browser@4.0.12";

/// The icon font.
pub const FONTAWESOME_PACKAGE: &'static str =
    "https://cdnjs.cloudflare.com/ajax/libs/font-awesome/6.7.2/css/all.min.css";

} // verus!
