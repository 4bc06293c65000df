//! The text-input editor: a buffer of Unicode scalar values and a cursor that
//! counts scalar values, never bytes.

use vstd::prelude::*;
use vstd::string::*;
use vstd::utf8::*;

verus! {

/// What an editor is, mathematically: its text as a sequence of scalar values
/// and the number of scalar values that stand before the cursor.
pub struct EditorView {
    pub text: Seq<char>,
    pub cursor: nat,
}

/// One editing step, as the laws about sequences of steps name it.
pub enum EditOp {
    Insert(char),
    DeleteBeforeCursor,
    MoveLeft,
    MoveRight,
    Clear,
}

impl EditorView {
    /// The cursor stands inside the text or right behind it.
    pub open spec fn wf(self) -> bool {
        self.cursor <= self.text.len()
    }

    pub open spec fn empty() -> EditorView {
        EditorView { text: Seq::empty(), cursor: 0 }
    }

    /// `c` goes in at the cursor, and the cursor steps over it.
    pub open spec fn insert(self, c: char) -> EditorView {
        EditorView { text: self.text.insert(self.cursor as int, c), cursor: self.cursor + 1 }
    }

    /// The scalar value before the cursor leaves, and the cursor steps back;
    /// at the start of the text nothing changes.
    pub open spec fn delete_before_cursor(self) -> EditorView {
        if self.cursor > 0 {
            EditorView {
                text: self.text.remove(self.cursor - 1),
                cursor: (self.cursor - 1) as nat,
            }
        } else {
            self
        }
    }

    pub open spec fn move_left(self) -> EditorView {
        EditorView { text: self.text, cursor: if self.cursor > 0 { (self.cursor - 1) as nat } else { 0 } }
    }

    pub open spec fn move_right(self) -> EditorView {
        EditorView {
            text: self.text,
            cursor: if self.cursor < self.text.len() { self.cursor + 1 } else { self.text.len() },
        }
    }

    /// Length in bytes of the UTF-8 encoding of the text before the cursor.
    pub open spec fn byte_offset(self) -> nat {
        encode_utf8(self.text.subrange(0, self.cursor as int)).len()
    }

    pub open spec fn apply(self, op: EditOp) -> EditorView {
        match op {
            EditOp::Insert(c) => self.insert(c),
            EditOp::DeleteBeforeCursor => self.delete_before_cursor(),
            EditOp::MoveLeft => self.move_left(),
            EditOp::MoveRight => self.move_right(),
            EditOp::Clear => EditorView::empty(),
        }
    }

    /// The state after the steps of `ops`, taken first to last.
    pub open spec fn apply_all(self, ops: Seq<EditOp>) -> EditorView
        decreases ops.len(),
    {
        if ops.len() == 0 {
            self
        } else {
            self.apply_all(ops.drop_last()).apply(ops.last())
        }
    }
}

proof fn lemma_steps_keep_cursor_in_text(state: EditorView, ops: Seq<EditOp>)
    requires
        state.wf(),
    ensures
        state.apply_all(ops).wf(),
    decreases ops.len(),
{
    if ops.len() > 0 {
        lemma_steps_keep_cursor_in_text(state, ops.drop_last());
    }
}

/// Whatever steps are taken from a state whose cursor stands within the text,
/// and however many, the cursor stands within the text after each of them.
pub proof fn lemma_cursor_stays_in_text(state: EditorView, ops: Seq<EditOp>)
    requires
        state.wf(),
    ensures
        forall|k: int| 0 <= k <= ops.len() ==> (#[trigger] state.apply_all(ops.take(k))).wf(),
{
    assert forall|k: int| 0 <= k <= ops.len() implies (#[trigger] state.apply_all(
        ops.take(k),
    )).wf() by {
        lemma_steps_keep_cursor_in_text(state, ops.take(k));
    }
}

/// A scalar value typed at the end of the text, or one place before it, and
/// one step to the right afterwards leave the cursor at the end of the text:
/// the cursor has moved by places, not by the bytes of the encoding.
pub proof fn lemma_insert_then_right_reaches_end(state: EditorView, c: char)
    requires
        state.wf(),
        state.text.len() <= state.cursor + 1,
    ensures
        state.insert(c).move_right().cursor == state.insert(c).move_right().text.len(),
        state.insert(c).move_right().text.len() == state.text.len() + 1,
{
}

/// The editor itself: the buffer and the cursor, in scalar values.
pub struct TextEditor {
    buffer: String,
    cursor: usize,
}

impl View for TextEditor {
    type V = EditorView;

    closed spec fn view(&self) -> EditorView {
        EditorView { text: self.buffer@, cursor: self.cursor as nat }
    }
}

/// `String::push`: the string afterwards is the string before with `c` as
/// one more scalar value at its end.
#[verifier::external_body]
fn push_char(s: &mut String, c: char)
    ensures
        final(s)@ == old(s)@.push(c),
{
    s.push(c);
}

impl TextEditor {
    pub open spec fn wf(&self) -> bool {
        self@.wf()
    }

    pub fn new() -> (editor: TextEditor)
        ensures
            editor@ == EditorView::empty(),
            editor.wf(),
    {
        TextEditor { buffer: String::new(), cursor: 0 }
    }

    /// Number of scalar values in the buffer.
    pub fn len(&self) -> (n: usize)
        ensures
            n == self@.text.len(),
    {
        self.buffer.as_str().unicode_len()
    }

    pub fn is_empty(&self) -> (b: bool)
        ensures
            b == (self@.text.len() == 0),
    {
        self.buffer.as_str().is_empty()
    }

    pub fn cursor(&self) -> (c: usize)
        ensures
            c == self@.cursor,
    {
        self.cursor
    }

    pub fn content(&self) -> (s: &str)
        ensures
            s@ == self@.text,
    {
        self.buffer.as_str()
    }

    pub fn move_left(&mut self)
        requires
            old(self).wf(),
        ensures
            final(self)@ == old(self)@.move_left(),
            final(self).wf(),
    {
        if self.cursor > 0 {
            self.cursor = self.cursor - 1;
        }
    }

    pub fn move_right(&mut self)
        requires
            old(self).wf(),
        ensures
            final(self)@ == old(self)@.move_right(),
            final(self).wf(),
    {
        let len = self.len();
        if self.cursor < len {
            self.cursor = self.cursor + 1;
        }
    }

    pub fn insert(&mut self, c: char)
        requires
            old(self).wf(),
        ensures
            final(self)@ == old(self)@.insert(c),
            final(self).wf(),
    {
        let len = self.len();
        let head = self.buffer.as_str().substring_char(0, self.cursor);
        let tail = self.buffer.as_str().substring_char(self.cursor, len);
        let mut text = String::from_str(head);
        push_char(&mut text, c);
        text.append(tail);
        self.buffer = text;
        self.move_right();
    }

    pub fn delete_before_cursor(&mut self)
        requires
            old(self).wf(),
        ensures
            final(self)@ == old(self)@.delete_before_cursor(),
            final(self).wf(),
    {
        if self.cursor > 0 {
            let len = self.len();
            let head = self.buffer.as_str().substring_char(0, self.cursor - 1);
            let tail = self.buffer.as_str().substring_char(self.cursor, len);
            let mut text = String::from_str(head);
            text.append(tail);
            self.buffer = text;
            self.cursor = self.cursor - 1;
        }
    }

    pub fn clear(&mut self)
        ensures
            final(self)@ == EditorView::empty(),
            final(self).wf(),
    {
        self.buffer = String::new();
        self.cursor = 0;
    }

    /// Where the cursor stands in the UTF-8 encoding of the buffer.
    pub fn byte_offset_of_cursor(&self) -> (offset: usize)
        requires
            self.wf(),
        ensures
            offset == self@.byte_offset(),
    {
        self.buffer.as_str().substring_char(0, self.cursor).as_bytes().len()
    }
}

} // verus!
