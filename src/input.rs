use vstd::prelude::*;

verus! {

/// What the input mailbox holds, as seen by contracts.
pub struct CaptureView {
    /// A submission listener has been registered.
    pub armed: bool,
    /// A submission arrived and has not been taken yet.
    pub dirty: bool,
    /// The current text of the input field.
    pub field: Seq<char>,
}

/// The mailbox after a submission notification: it only counts once armed.
pub open spec fn notified(c: CaptureView) -> CaptureView {
    CaptureView { dirty: c.armed || c.dirty, ..c }
}

/// The mailbox after `take`, and what `take` hands out.
pub open spec fn taken(c: CaptureView) -> (CaptureView, Option<Seq<char>>) {
    if c.dirty {
        (CaptureView { dirty: false, field: Seq::empty(), ..c }, Some(c.field))
    } else {
        (c, None)
    }
}

/// The text of an optional string.
pub open spec fn opt_text(o: Option<String>) -> Option<Seq<char>> {
    match o {
        Some(s) => Some(s@),
        None => None,
    }
}

/// Single-slot mailbox between the submission notification of the input form
/// and the polling loop: a dirty flag and the input field it reads lazily.
pub struct InputCapture {
    armed: bool,
    dirty: bool,
    field: String,
}

impl View for InputCapture {
    type V = CaptureView;

    closed spec fn view(&self) -> CaptureView {
        CaptureView { armed: self.armed, dirty: self.dirty, field: self.field@ }
    }
}

impl InputCapture {
    /// A mailbox with no listener, no pending submission and an empty field.
    pub fn new() -> (r: InputCapture)
        ensures
            r@ == (CaptureView { armed: false, dirty: false, field: Seq::empty() }),
    {
        InputCapture { armed: false, dirty: false, field: String::new() }
    }

    /// Registers interest in submissions and clears the dirty flag.
    pub fn arm(&mut self)
        ensures
            final(self)@ == (CaptureView { armed: true, dirty: false, ..old(self)@ }),
    {
        self.armed = true;
        self.dirty = false;
    }

    /// A submission notification: marks the mailbox dirty once armed.
    pub fn notify(&mut self)
        ensures
            final(self)@ == notified(old(self)@),
    {
        if self.armed {
            self.dirty = true;
        }
    }

    /// The user changed the text of the input field.
    pub fn edit(&mut self, text: String)
        ensures
            final(self)@ == (CaptureView { field: text@, ..old(self)@ }),
    {
        self.field = text;
    }

    /// Whether a submission listener has been registered.
    pub fn is_armed(&self) -> (r: bool)
        ensures
            r == self@.armed,
    {
        self.armed
    }

    /// Whether a submission waits to be taken.
    pub fn is_dirty(&self) -> (r: bool)
        ensures
            r == self@.dirty,
    {
        self.dirty
    }

    /// The current text of the input field.
    pub fn field(&self) -> (r: &str)
        ensures
            r@ == self@.field,
    {
        self.field.as_str()
    }

    /// Hands out the pending submission, if any: reads the field, clears it
    /// and clears the dirty flag in one step.
    pub fn take(&mut self) -> (r: Option<String>)
        ensures
            final(self)@ == taken(old(self)@).0,
            opt_text(r) == taken(old(self)@).1,
    {
        if self.dirty {
            self.dirty = false;
            let value = self.field.clone();
            self.field = String::new();
            Some(value)
        } else {
            None
        }
    }
}

/// A submission made on an armed mailbox is handed out by the next `take`,
/// with the field's text at that moment, and a second `take` with no
/// submission in between hands out nothing.
pub proof fn lemma_take_once_per_submission(c: CaptureView)
    requires
        c.armed,
    ensures
        taken(notified(c)).1 == Some(c.field),
        taken(taken(notified(c)).0).1 == None::<Seq<char>>,
        taken(taken(notified(c)).0).0 == taken(notified(c)).0,
{
}

/// With no submission pending, `take` hands out nothing and changes nothing.
pub proof fn lemma_take_without_submission(c: CaptureView)
    requires
        !c.dirty,
    ensures
        taken(c) == (c, None::<Seq<char>>),
{
}

/// Edits made between a submission and the next `take` are what it hands
/// out: the text is read when taken, not when submitted.
pub proof fn lemma_take_reads_latest(c: CaptureView, text: Seq<char>)
    requires
        c.armed,
    ensures
        taken(CaptureView { field: text, ..notified(c) }).1 == Some(text),
{
}

/// Before the mailbox is armed, submissions are not seen.
pub proof fn lemma_unarmed_ignores(c: CaptureView)
    requires
        !c.armed,
        !c.dirty,
    ensures
        taken(notified(c)).1 == None::<Seq<char>>,
{
}

/// Several submissions before one `take` are handed out once: a second
/// notification leaves the mailbox as the first one did.
pub proof fn lemma_submissions_coalesce(c: CaptureView)
    ensures
        notified(notified(c)) == notified(c),
        taken(taken(notified(notified(c))).0).1 == None::<Seq<char>>,
{
}

} // verus!
