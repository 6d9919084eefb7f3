//! What the core hands back to the outside.
use vstd::prelude::*;
use crate::record::{Handle, Role, Style};

verus! {

/// The kind of widget that draws a view.
#[derive(Clone, Copy, Debug, PartialEq, Eq, Structural)]
pub enum Widget {
    /// A box that only holds other widgets.
    Row,
    /// A box that takes presses.
    Button,
    /// A piece of fixed text.
    Label,
    /// A line of text that can be opened for typing.
    Editor,
}

/// What the engine asks of whoever draws the views. Effects are handed out in
/// the order in which they are to be performed.
#[derive(Debug, PartialEq, Eq)]
pub enum Effect {
    /// Make the widget of a new view, showing `content` in `style`.
    CreateView {
        view: Handle,
        widget: Widget,
        role: Role,
        model: Handle,
        content: Option<String>,
        style: Style,
    },
    /// Hang `child` under `parent`.
    Link { parent: Handle, child: Handle },
    SetText { view: Handle, text: String },
    SetStyle { view: Handle, style: Style },
    SetReadOnly { view: Handle, read_only: bool },
    DestroyView { view: Handle },
    RequestFocus { target: Option<Handle> },
}

/// What went wrong.
#[derive(Clone, Copy, Debug, PartialEq, Eq, Structural)]
pub enum Fault {
    /// An action named a handle under which no record of the right kind exists.
    StaleHandle(Handle),
    /// A container that must exist exactly once was never registered.
    MissingSingleton,
}

} // verus!
