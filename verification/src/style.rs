//! The reusable button component of the styling demos: a label with a
//! variant, a size and a disabled flag, assembled through a builder.

use vstd::prelude::*;

verus! {

/// The visual kind of a button.
#[derive(Clone, Copy, Debug, PartialEq, Eq, Structural)]
pub enum ButtonVariant {
    /// The emphasised default.
    Primary,
    /// A muted alternative.
    Secondary,
    /// A border with no fill.
    Outline,
    /// Text only, no fill and no border.
    Plain,
    /// For destructive actions.
    Danger,
}

/// The size of a button.
#[derive(Clone, Copy, Debug, PartialEq, Eq, Structural)]
pub enum ButtonSize {
    /// Compact.
    Small,
    /// The default.
    Medium,
    /// Prominent.
    Large,
}

/// The layout arrangement the demo can show.
#[derive(Clone, Copy, Debug, PartialEq, Eq, Structural)]
pub enum LayoutMode {
    /// Children in a row.
    Row,
    /// Children in a column.
    Column,
    /// A wrapping row.
    Wrap,
    /// A grid.
    Grid,
}

/// The root view of the styling demos: the chosen layout arrangement and
/// whether debug borders are drawn.
pub struct StylingApp {
    /// Which arrangement the layout section shows.
    pub layout_mode: LayoutMode,
    /// Whether debug borders are drawn around every section.
    pub show_debug: bool,
}

impl StylingApp {
    /// Starts on the row arrangement with debug borders off.
    pub fn new() -> (app: Self)
        ensures
            app.layout_mode == LayoutMode::Row,
            !app.show_debug,
    {
        StylingApp { layout_mode: LayoutMode::Row, show_debug: false }
    }

    /// A click on one of the layout buttons chooses its arrangement.
    pub fn choose_layout(&mut self, mode: LayoutMode)
        ensures
            final(self).layout_mode == mode,
            final(self).show_debug == old(self).show_debug,
    {
        self.layout_mode = mode;
    }

    /// A click on the debug toolbar flips the debug borders.
    pub fn toggle_debug(&mut self)
        ensures
            final(self).show_debug == !old(self).show_debug,
            final(self).layout_mode == old(self).layout_mode,
    {
        self.show_debug = !self.show_debug;
    }
}

/// A styled button before it is turned into visual nodes.
pub struct StyledButton {
    /// The text on the button.
    pub label: String,
    /// Its visual kind; primary unless chosen otherwise.
    pub variant: ButtonVariant,
    /// Its size; medium unless chosen otherwise.
    pub size: ButtonSize,
    /// Whether it ignores clicks.
    pub disabled: bool,
}

impl StyledButton {
    /// A primary, medium, enabled button with the given label.
    pub fn new(label: String) -> (b: Self)
        ensures
            b.label == label,
            b.variant == ButtonVariant::Primary,
            b.size == ButtonSize::Medium,
            !b.disabled,
    {
        StyledButton {
            label,
            variant: ButtonVariant::Primary,
            size: ButtonSize::Medium,
            disabled: false,
        }
    }

    /// Chooses the variant.
    pub fn variant(self, variant: ButtonVariant) -> (b: Self)
        ensures
            b.label == self.label,
            b.variant == variant,
            b.size == self.size,
            b.disabled == self.disabled,
    {
        StyledButton { variant, ..self }
    }

    /// Chooses the size.
    pub fn size(self, size: ButtonSize) -> (b: Self)
        ensures
            b.label == self.label,
            b.variant == self.variant,
            b.size == size,
            b.disabled == self.disabled,
    {
        StyledButton { size, ..self }
    }

    /// Chooses whether the button is disabled.
    pub fn disabled(self, disabled: bool) -> (b: Self)
        ensures
            b.label == self.label,
            b.variant == self.variant,
            b.size == self.size,
            b.disabled == disabled,
    {
        StyledButton { disabled, ..self }
    }
}

} // verus!
