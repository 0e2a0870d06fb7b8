//! Popover section categories for the action catalog.

use vstd::prelude::*;

verus! {

/// Grouping for popover section headers.
#[derive(Clone, Copy, Debug, PartialEq, Eq, Hash, Structural)]
pub enum Category {
    /// Cut, copy, paste, undo, redo, select-all, find, save.
    Editing,
    /// Browser navigation: tabs, page reload, back/forward.
    Browser,
    /// Playback and volume controls.
    Media,
    /// Physical mouse clicks.
    Mouse,
    /// DPI cycle and SmartShift.
    Dpi,
    /// Scroll direction shortcuts.
    Scroll,
    /// Window/app navigation.
    Navigation,
    /// Lock screen, show desktop, system-level actions.
    System,
}

/// The English label of a category.
pub open spec fn category_label(c: Category) -> Seq<char> {
    match c {
        Category::Editing => "Editing"@,
        Category::Browser => "Browser"@,
        Category::Media => "Media"@,
        Category::Mouse => "Mouse"@,
        Category::Dpi => "DPI"@,
        Category::Scroll => "Scroll"@,
        Category::Navigation => "Navigation"@,
        Category::System => "System"@,
    }
}

/// The catalog key of a category's localized header.
pub open spec fn category_key(c: Category) -> Seq<char> {
    match c {
        Category::Editing => "actions.editing"@,
        Category::Browser => "actions.browser"@,
        Category::Media => "actions.media"@,
        Category::Mouse => "device.mouse"@,
        Category::Dpi => "pointer.dpi"@,
        Category::Scroll => "pointer.scroll"@,
        Category::Navigation => "actions.navigation"@,
        Category::System => "actions.system"@,
    }
}

impl Category {
    /// Human-readable English label for logs and non-localized contexts.
    pub fn label(self) -> (s: &'static str)
        ensures
            s@ == category_label(self),
    {
        match self {
            Category::Editing => "Editing",
            Category::Browser => "Browser",
            Category::Media => "Media",
            Category::Mouse => "Mouse",
            Category::Dpi => "DPI",
            Category::Scroll => "Scroll",
            Category::Navigation => "Navigation",
            Category::System => "System",
        }
    }

    /// Stable catalog key for the localized popover section header.
    pub fn translation_key(self) -> (s: &'static str)
        ensures
            s@ == category_key(self),
    {
        match self {
            Category::Editing => "actions.editing",
            Category::Browser => "actions.browser",
            Category::Media => "actions.media",
            Category::Mouse => "device.mouse",
            Category::Dpi => "pointer.dpi",
            Category::Scroll => "pointer.scroll",
            Category::Navigation => "actions.navigation",
            Category::System => "actions.system",
        }
    }
}

} // verus!
