//! The embedded editor, the script values that carry it, and the component
//! through which the compositor reaches it.
use vstd::prelude::*;

use crate::editor::{
    first_text, Buffer, Component, Context, Editor, Event, EventResult, FromConfiguration, Jobs,
};
use crate::geometry::{CursorKind, Position, Rect};

verus! {

/// A secondary editor and the view that renders it and dispatches input to it.
///
/// The editor is present whenever no call is using it; while a call has it
/// lent out, the slot is empty and every other call is turned away.
pub struct SteelEditor<V> {
    editor: Option<Editor>,
    editor_view: V,
}

/// Why a script value could not be used where it was given.
#[derive(Clone, Copy, Debug, PartialEq, Eq, Structural)]
pub enum BridgeError {
    /// The value is not an editor configuration.
    NotAConfiguration,
    /// The value is not an embedded editor.
    NotAnEditor,
}

/// A value of the scripting runtime, as far as this bridge reads it: an
/// editor configuration, an embedded editor, or anything else.
pub enum SteelVal<C, V> {
    Configuration(C),
    Editor(SteelEditor<V>),
    Other,
}

impl<V> SteelEditor<V> {
    /// The editor, or `None` while a call has it lent out.
    pub closed spec fn spec_editor(&self) -> Option<Editor> {
        self.editor
    }

    /// The view bound to the editor.
    pub closed spec fn spec_view(&self) -> V {
        self.editor_view
    }

    /// Whether the editor is in its slot, i.e. no call is using it.
    pub open spec fn is_available(&self) -> bool {
        self.spec_editor() is Some
    }

    /// An embedded editor made of `editor` and `view`, ready for use.
    pub fn from_parts(editor: Editor, view: V) -> (r: SteelEditor<V>)
        ensures
            r.spec_editor() == Some(editor),
            r.spec_view() == view,
    {
        SteelEditor { editor: Some(editor), editor_view: view }
    }

    /// The text of the first open document of the embedded editor; `None`
    /// while the editor is lent out or when it has no document open.
    pub fn get_text(&self) -> (r: Option<String>)
        ensures
            r is Some <==> (self.is_available() && first_text(self.spec_editor()->0) is Some),
            r is Some ==> r->0@ == first_text(self.spec_editor()->0)->0,
    {
        match &self.editor {
            Some(editor) => editor.first_document_text(),
            None => None,
        }
    }

    /// Lends the editor out for one call: takes it from its slot and wraps it
    /// in a fresh context with no scroll offset and an empty job queue.
    /// Returns `None`, and changes nothing, when the editor is already lent
    /// out.
    pub fn begin_dispatch(&mut self) -> (r: Option<Context>)
        ensures
            !old(self).is_available() ==> r is None && *final(self) == *old(self),
            old(self).is_available() ==> {
                &&& r is Some
                &&& r->0.editor == old(self).spec_editor()->0
                &&& r->0.scroll is None
                &&& r->0.jobs.queue@ == Seq::<crate::editor::Job>::empty()
                &&& final(self).spec_editor() is None
                &&& final(self).spec_view() == old(self).spec_view()
            },
    {
        match self.editor.take() {
            Some(editor) => Some(Context { editor, scroll: None, jobs: Jobs::new() }),
            None => None,
        }
    }

    /// Puts the editor of `ctx` back into its slot after a call; whatever
    /// jobs the call scheduled on `ctx` are dropped with it.
    pub fn end_dispatch(&mut self, ctx: Context)
        requires
            !old(self).is_available(),
        ensures
            final(self).spec_editor() == Some(ctx.editor),
            final(self).spec_view() == old(self).spec_view(),
    {
        self.editor = Some(ctx.editor);
    }
}

/// The component that the compositor mounts for an embedded editor: the
/// editor's handle and the fixed area it is drawn in.
pub struct SteelEditorComponent<V> {
    pub component: SteelEditor<V>,
    pub area: Rect,
}

impl<V> SteelEditor<V> {
    /// Mounts the embedded editor that `value` holds as a component drawn in
    /// `area`; fails when `value` holds no embedded editor.
    pub fn new<C>(value: SteelVal<C, V>, area: Rect) -> (r: Result<SteelEditorComponent<V>, BridgeError>)
        ensures
            match value {
                SteelVal::Editor(e) => r == Ok::<SteelEditorComponent<V>, BridgeError>(
                    SteelEditorComponent { component: e, area },
                ),
                _ => r == Err::<SteelEditorComponent<V>, BridgeError>(BridgeError::NotAnEditor),
            },
    {
        match value {
            SteelVal::Editor(e) => Ok(SteelEditorComponent { component: e, area }),
            _ => Err(BridgeError::NotAnEditor),
        }
    }
}

/// Builds an embedded editor from a configuration value: an editor over
/// `area` with one new empty document, and a view bound to the
/// configuration's keymap. Fails when `config` is not a configuration.
pub fn make_editor<C, V: FromConfiguration<C>>(config: &SteelVal<C, V>, area: Rect) -> (r: Result<
    SteelEditor<V>,
    BridgeError,
>)
    ensures
        config is Configuration <==> r is Ok,
        !(config is Configuration) ==> r == Err::<SteelEditor<V>, BridgeError>(
            BridgeError::NotAConfiguration,
        ),
        r is Ok ==> {
            let e = r->Ok_0.spec_editor();
            &&& e is Some
            &&& e->0.area == area
            &&& e->0.documents@.len() == 1
            &&& e->0.focus == Some(0usize)
            &&& first_text(e->0) == Some(Seq::<char>::empty())
        },
{
    match config {
        SteelVal::Configuration(c) => {
            let mut editor = Editor::new(area);
            editor.new_file();
            let editor_view = V::from_configuration(c);
            Ok(SteelEditor::from_parts(editor, editor_view))
        },
        _ => Err(BridgeError::NotAConfiguration),
    }
}

impl<V: Component> SteelEditorComponent<V> {
    /// Renders the embedded editor into `frame` within the component's own
    /// area. The host's context is left as it was: the embedded view works on
    /// a context of its own, whose jobs are dropped at the end of the call.
    /// When the editor is lent out, nothing is drawn and nothing changes.
    pub fn render(&mut self, area: Rect, frame: &mut Buffer, outer: &mut Context)
        ensures
            *final(outer) == *old(outer),
            final(self).area == old(self).area,
            !old(self).component.is_available() ==> *final(self) == *old(self) && *final(frame)
                == *old(frame),
            old(self).component.is_available() ==> final(self).component.is_available(),
    {
        match self.component.begin_dispatch() {
            Some(ctx) => {
                let mut ctx = ctx;
                self.component.editor_view.render(self.area, frame, &mut ctx);
                self.component.end_dispatch(ctx);
            },
            None => {},
        }
    }

    /// Hands an input event to the embedded view and returns its answer. The
    /// host's context is left as it was, and jobs the view schedules are
    /// dropped. When the editor is lent out, the event is ignored with no
    /// follow-up and nothing changes.
    pub fn handle_event(&mut self, event: &Event, outer: &mut Context) -> (r: EventResult)
        ensures
            *final(outer) == *old(outer),
            final(self).area == old(self).area,
            !old(self).component.is_available() ==> *final(self) == *old(self) && r
                == EventResult::Ignored(None),
            old(self).component.is_available() ==> final(self).component.is_available(),
    {
        match self.component.begin_dispatch() {
            Some(ctx) => {
                let mut ctx = ctx;
                let res = self.component.editor_view.handle_event(event, &mut ctx);
                self.component.end_dispatch(ctx);
                res
            },
            None => EventResult::Ignored(None),
        }
    }

    /// Where the embedded view puts the cursor within `area`, and its shape.
    /// The host's editor is left as it was. When the editor is lent out, the
    /// answer is no position and a block cursor, and nothing changes.
    pub fn cursor(&mut self, area: Rect, outer: &mut Editor) -> (r: (Option<Position>, CursorKind))
        ensures
            *final(outer) == *old(outer),
            final(self).area == old(self).area,
            !old(self).component.is_available() ==> *final(self) == *old(self) && r == (
            None::<Position>, CursorKind::Block),
            old(self).component.is_available() ==> final(self).component.is_available(),
    {
        match self.component.begin_dispatch() {
            Some(ctx) => {
                let mut ctx = ctx;
                let res = self.component.editor_view.cursor(area, &mut ctx.editor);
                self.component.end_dispatch(ctx);
                res
            },
            None => (None, CursorKind::Block),
        }
    }
}

} // verus!
