//! The records of the store: models, views, and what is said of them.
use vstd::prelude::*;

verus! {

/// A stable reference to one slot of the record store. A handle is handed out
/// once and never again, so a stale handle can only ever name a vacant slot.
pub type Handle = usize;

/// What a view record shows of the model it mirrors.
#[derive(Clone, Copy, Debug, PartialEq, Eq, Structural)]
pub enum Role {
    /// The row that holds the other views of one todo item.
    TodoRootView,
    /// The check button of a todo item, and the glyph inside it.
    TodoCheckmarkView,
    /// The editable text of a todo item.
    TodoTextView,
    /// The delete button of a todo item.
    TodoDeleterView,
    /// The text field in which a new todo item is composed.
    TodoInput,
    /// A view that displays nothing of its model and only lives and dies with it.
    Plain,
}

/// The style token of a view.
#[derive(Clone, Copy, Debug, PartialEq, Eq, Structural)]
pub enum Style {
    Normal,
    Completed,
}

/// Canonical state of one todo item, with its one-tick pulses.
#[derive(Debug, PartialEq, Eq)]
pub struct TodoModel {
    pub text: String,
    pub checked: bool,
    pub editing: bool,
    /// Set when the record is created, consumed when its views are built.
    pub fresh: bool,
    /// Set when `text` is written, consumed by propagation.
    pub text_changed: bool,
    /// Set when `checked` is written, consumed by propagation.
    pub checked_changed: bool,
    /// Set when `editing` is written, consumed by propagation.
    pub editing_changed: bool,
}

/// Canonical state of the composition buffer, with its one-tick pulses.
#[derive(Debug, PartialEq, Eq)]
pub struct InputModel {
    pub text: String,
    pub editing: bool,
    pub fresh: bool,
    pub text_changed: bool,
    pub editing_changed: bool,
}

/// A display-facing projection of exactly one model record.
#[derive(Debug, PartialEq, Eq)]
pub struct ViewRecord {
    pub role: Role,
    /// The back-reference: set when the view is made and never reassigned.
    pub model: Handle,
    /// The text on display; `None` for a view that displays no text.
    pub text: Option<String>,
    pub style: Style,
    /// Whether the view currently accepts text input.
    pub editable: bool,
}

/// A record is a model or a view, by construction never both and never neither.
#[derive(Debug, PartialEq, Eq)]
pub enum Record {
    Todo(TodoModel),
    Input(InputModel),
    View(ViewRecord),
}

/// The contents of the store: slot `h` holds the record of handle `h`, or
/// nothing once that record is destroyed (or where a handle was only reserved).
pub type Slots = Seq<Option<Record>>;

pub open spec fn is_model(r: Record) -> bool {
    r is Todo || r is Input
}

pub open spec fn is_view(r: Record) -> bool {
    r is View
}

/// The two tags are disjoint and cover every record.
pub proof fn tag_discipline(r: Record)
    ensures
        is_model(r) != is_view(r),
{
}

/// Handle `h` names a record that exists.
pub open spec fn live(s: Slots, h: int) -> bool {
    0 <= h < s.len() && s[h].is_some()
}

pub open spec fn todo_at(s: Slots, h: int) -> bool {
    live(s, h) && s[h]->0 is Todo
}

pub open spec fn input_at(s: Slots, h: int) -> bool {
    live(s, h) && s[h]->0 is Input
}

pub open spec fn view_at(s: Slots, h: int) -> bool {
    live(s, h) && s[h]->0 is View
}

pub open spec fn model_at(s: Slots, h: int) -> bool {
    todo_at(s, h) || input_at(s, h)
}

pub open spec fn the_todo(s: Slots, h: int) -> TodoModel
    recommends
        todo_at(s, h),
{
    s[h]->0->Todo_0
}

pub open spec fn the_input(s: Slots, h: int) -> InputModel
    recommends
        input_at(s, h),
{
    s[h]->0->Input_0
}

pub open spec fn the_view(s: Slots, h: int) -> ViewRecord
    recommends
        view_at(s, h),
{
    s[h]->0->View_0
}

/// Every view that is editable in `t` was already editable in `s`.
pub open spec fn no_new_editable(s: Slots, t: Slots) -> bool {
    forall|v: int|
        view_at(t, v) && (#[trigger] the_view(t, v)).editable ==> view_at(s, v) && the_view(
            s,
            v,
        ).editable
}

pub open spec fn only_models(records: Seq<Record>) -> bool {
    forall|j: int| 0 <= j < records.len() ==> is_model(#[trigger] records[j])
}

/// The style that stands for a `checked` flag.
pub open spec fn checked_style(checked: bool) -> Style {
    if checked {
        Style::Completed
    } else {
        Style::Normal
    }
}

/// The style that stands for a `checked` flag.
pub fn display_checked(checked: bool) -> (style: Style)
    ensures
        style == checked_style(checked),
{
    if checked {
        Style::Completed
    } else {
        Style::Normal
    }
}

/// A copy of a text on display.
pub fn clone_text(text: &Option<String>) -> (r: Option<String>)
    ensures
        r == *text,
{
    match text {
        Some(t) => Some(t.clone()),
        None => None,
    }
}

impl TodoModel {
    /// A todo item as `Create` makes it: unchecked, not being edited, fresh.
    pub open spec fn created(text: String) -> TodoModel {
        TodoModel {
            text,
            checked: false,
            editing: false,
            fresh: true,
            text_changed: false,
            checked_changed: false,
            editing_changed: false,
        }
    }

    pub fn new(text: String) -> (m: TodoModel)
        ensures
            m == TodoModel::created(text),
    {
        TodoModel {
            text,
            checked: false,
            editing: false,
            fresh: true,
            text_changed: false,
            checked_changed: false,
            editing_changed: false,
        }
    }

    pub fn duplicate(&self) -> (m: TodoModel)
        ensures
            m == *self,
    {
        TodoModel {
            text: self.text.clone(),
            checked: self.checked,
            editing: self.editing,
            fresh: self.fresh,
            text_changed: self.text_changed,
            checked_changed: self.checked_changed,
            editing_changed: self.editing_changed,
        }
    }

    /// No pulse of this record is pending.
    pub open spec fn quiet(self) -> bool {
        !self.fresh && !self.text_changed && !self.checked_changed && !self.editing_changed
    }
}

impl InputModel {
    /// The composition buffer as `Create` makes it: not being edited, fresh.
    pub open spec fn created(text: String) -> InputModel {
        InputModel { text, editing: false, fresh: true, text_changed: false, editing_changed: false }
    }

    pub fn new(text: String) -> (m: InputModel)
        ensures
            m == InputModel::created(text),
    {
        InputModel { text, editing: false, fresh: true, text_changed: false, editing_changed: false }
    }

    pub fn duplicate(&self) -> (m: InputModel)
        ensures
            m == *self,
    {
        InputModel {
            text: self.text.clone(),
            editing: self.editing,
            fresh: self.fresh,
            text_changed: self.text_changed,
            editing_changed: self.editing_changed,
        }
    }

    pub open spec fn quiet(self) -> bool {
        !self.fresh && !self.text_changed && !self.editing_changed
    }
}

impl ViewRecord {
    /// A view as it is first built: read-only, with the given content.
    pub open spec fn built(
        role: Role,
        model: Handle,
        text: Option<String>,
        style: Style,
    ) -> ViewRecord {
        ViewRecord { role, model, text, style, editable: false }
    }

    pub fn new(role: Role, model: Handle, text: Option<String>, style: Style) -> (v: ViewRecord)
        ensures
            v == ViewRecord::built(role, model, text, style),
    {
        ViewRecord { role, model, text, style, editable: false }
    }

    pub fn duplicate(&self) -> (v: ViewRecord)
        ensures
            v == *self,
    {
        ViewRecord {
            role: self.role,
            model: self.model,
            text: clone_text(&self.text),
            style: self.style,
            editable: self.editable,
        }
    }

    /// This view with another `editable` flag.
    pub fn with_editable(&self, editable: bool) -> (v: ViewRecord)
        ensures
            v == (ViewRecord { editable, ..*self }),
    {
        ViewRecord {
            role: self.role,
            model: self.model,
            text: clone_text(&self.text),
            style: self.style,
            editable,
        }
    }

    /// This view with another text on display.
    pub fn with_text(&self, text: String) -> (v: ViewRecord)
        ensures
            v == (ViewRecord { text: Some(text), ..*self }),
    {
        ViewRecord {
            role: self.role,
            model: self.model,
            text: Some(text),
            style: self.style,
            editable: self.editable,
        }
    }

    /// This view in another style.
    pub fn with_style(&self, style: Style) -> (v: ViewRecord)
        ensures
            v == (ViewRecord { style, ..*self }),
    {
        ViewRecord {
            role: self.role,
            model: self.model,
            text: clone_text(&self.text),
            style,
            editable: self.editable,
        }
    }

    /// Only a text view or the input view can ever accept typing.
    pub open spec fn can_edit(self) -> bool {
        self.role == Role::TodoTextView || self.role == Role::TodoInput
    }
}

impl Record {
    pub fn duplicate(&self) -> (r: Record)
        ensures
            r == *self,
    {
        match self {
            Record::Todo(t) => Record::Todo(t.duplicate()),
            Record::Input(i) => Record::Input(i.duplicate()),
            Record::View(v) => Record::View(v.duplicate()),
        }
    }
}

} // verus!
