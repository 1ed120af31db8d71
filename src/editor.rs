//! The editor state, the call context and the component capability that the
//! compositor drives.
use vstd::prelude::*;

use crate::geometry::{CursorKind, Position, Rect};

verus! {

/// One open document.
#[derive(Debug)]
pub struct Document {
    pub text: String,
}

/// An editor instance: its display area, its open documents in the order in
/// which they were opened (so the first is the one with the lowest id), and
/// which of them holds the cursor.
#[derive(Debug)]
pub struct Editor {
    pub area: Rect,
    pub documents: Vec<Document>,
    pub focus: Option<usize>,
}

/// The text of the first open document, if any document is open.
pub open spec fn first_text(e: Editor) -> Option<Seq<char>> {
    if e.documents@.len() > 0 {
        Some(e.documents@[0].text@)
    } else {
        None
    }
}

impl Editor {
    /// An editor over `area` with no document open.
    pub fn new(area: Rect) -> (r: Editor)
        ensures
            r.area == area,
            r.documents@.len() == 0,
            r.focus is None,
    {
        Editor { area, documents: Vec::new(), focus: None }
    }

    /// Opens a new empty document and moves the cursor into it.
    pub fn new_file(&mut self)
        ensures
            final(self).area == old(self).area,
            final(self).documents@.len() == old(self).documents@.len() + 1,
            forall|i: int|
                0 <= i < old(self).documents@.len() ==> #[trigger] final(self).documents@[i]
                    == old(self).documents@[i],
            final(self).documents@.last().text@ == Seq::<char>::empty(),
            final(self).focus == Some(old(self).documents@.len() as usize),
    {
        let n = self.documents.len();
        self.documents.push(Document { text: String::new() });
        self.focus = Some(n);
    }

    /// The text of the first open document.
    pub fn first_document_text(&self) -> (r: Option<String>)
        ensures
            r is Some <==> first_text(*self) is Some,
            r is Some ==> r->0@ == first_text(*self)->0,
    {
        if self.documents.len() > 0 {
            Some(self.documents[0].text.clone())
        } else {
            None
        }
    }
}

/// A unit of deferred work, named by the id its scheduler gave it.
#[derive(Clone, Copy, Debug, PartialEq, Eq, Structural)]
pub struct Job {
    pub id: u64,
}

/// A queue of scheduled jobs, oldest first.
#[derive(Debug)]
pub struct Jobs {
    pub queue: Vec<Job>,
}

impl Jobs {
    /// An empty queue.
    pub fn new() -> (r: Jobs)
        ensures
            r.queue@ == Seq::<Job>::empty(),
    {
        Jobs { queue: Vec::new() }
    }

    /// Schedules `job` after those already queued.
    pub fn add(&mut self, job: Job)
        ensures
            final(self).queue@ == old(self).queue@.push(job),
    {
        self.queue.push(job);
    }
}

/// What a component is given on each render or input call: the editor it
/// works on, an optional scroll offset and the queue for jobs it schedules.
#[derive(Debug)]
pub struct Context {
    pub editor: Editor,
    pub scroll: Option<usize>,
    pub jobs: Jobs,
}

/// A terminal input event.
#[derive(Debug, PartialEq, Eq)]
pub enum Event {
    Key(char),
    Paste(String),
    Resize(u16, u16),
    FocusGained,
    FocusLost,
}

/// The answer of a component to an input event, with an optional follow-up
/// job for the compositor.
#[derive(Clone, Copy, Debug, PartialEq, Eq, Structural)]
pub enum EventResult {
    Consumed(Option<Job>),
    Ignored(Option<Job>),
}

/// The drawing surface of one frame: its area and one character per cell,
/// row by row.
#[derive(Debug)]
pub struct Buffer {
    pub area: Rect,
    pub content: Vec<char>,
}

/// The capability that every component mounted in the compositor has.
pub trait Component {
    /// Draws the component into `frame` within `area`.
    fn render(&mut self, area: Rect, frame: &mut Buffer, ctx: &mut Context);

    /// Reacts to an input event.
    fn handle_event(&mut self, event: &Event, ctx: &mut Context) -> EventResult;

    /// Where the cursor stands within `area`, if anywhere, and its shape.
    fn cursor(&mut self, area: Rect, editor: &mut Editor) -> (Option<Position>, CursorKind);
}

/// Builds a component from a shared configuration, bound to the keymap that
/// the configuration holds.
pub trait FromConfiguration<C>: Sized {
    fn from_configuration(config: &C) -> Self;
}

} // verus!
