//! The line under edit: its characters and a cursor counted from the end.

use vstd::prelude::*;
use crate::text::string_of;

verus! {

/// Whether `c` is a control character (Unicode category `Cc`): it has no glyph
/// and may not stand in a line.
pub open spec fn is_control(c: char) -> bool {
    c as u32 <= 0x1f || 0x7f <= c as u32 <= 0x9f
}

/// Tells whether `c` is a control character.
pub fn char_is_control(c: char) -> (r: bool)
    ensures
        r == is_control(c),
{
    let code: u32 = c as u32;
    code <= 0x1f || (0x7f <= code && code <= 0x9f)
}

/// The mathematical value of a [`LineBuffer`].
pub struct LineView {
    /// The characters, left to right as displayed.
    pub text: Seq<char>,
    /// How many characters lie to the right of the cursor.
    pub cursor_from_end: nat,
}

impl LineView {
    /// The cursor lies within the text, and every character can be displayed.
    pub open spec fn wf(self) -> bool {
        &&& self.cursor_from_end <= self.text.len()
        &&& forall|i: int| 0 <= i < self.text.len() ==> !is_control(#[trigger] self.text[i])
    }

    /// The empty line, cursor at its end.
    pub open spec fn empty() -> LineView {
        LineView { text: Seq::empty(), cursor_from_end: 0 }
    }

    /// What stands left of the cursor.
    pub open spec fn left(self) -> Seq<char> {
        self.text.take(self.text.len() - self.cursor_from_end)
    }

    /// What stands right of the cursor.
    pub open spec fn right(self) -> Seq<char> {
        self.text.skip(self.text.len() - self.cursor_from_end)
    }

    /// Whether `c` can go into the line: it can be displayed, and the line
    /// has room for one more character.
    pub open spec fn accepts(self, c: char) -> bool {
        !is_control(c) && self.text.len() + 1 < usize::MAX
    }

    /// `c` goes in just left of the cursor; the tail and its length stay.
    pub open spec fn insert_char(self, c: char) -> LineView {
        LineView { text: self.left().push(c) + self.right(), cursor_from_end: self.cursor_from_end }
    }

    /// Whether a character stands left of the cursor.
    pub open spec fn can_delete_before(self) -> bool {
        self.cursor_from_end < self.text.len()
    }

    /// Whether a character stands right of the cursor.
    pub open spec fn can_delete_at(self) -> bool {
        self.cursor_from_end > 0
    }

    /// The character left of the cursor leaves, if there is one.
    pub open spec fn delete_before_cursor(self) -> LineView {
        if self.can_delete_before() {
            LineView {
                text: self.left().drop_last() + self.right(),
                cursor_from_end: self.cursor_from_end,
            }
        } else {
            self
        }
    }

    /// The character right of the cursor leaves, if there is one, and the tail
    /// is one shorter.
    pub open spec fn delete_at_cursor(self) -> LineView {
        if self.can_delete_at() {
            LineView {
                text: self.left() + self.right().drop_first(),
                cursor_from_end: (self.cursor_from_end - 1) as nat,
            }
        } else {
            self
        }
    }

    /// The cursor goes one to the left, unless it is at the start.
    pub open spec fn move_left(self) -> LineView {
        if self.cursor_from_end < self.text.len() {
            LineView { text: self.text, cursor_from_end: self.cursor_from_end + 1 }
        } else {
            self
        }
    }

    /// The cursor goes one to the right, unless it is at the end.
    pub open spec fn move_right(self) -> LineView {
        if self.cursor_from_end > 0 {
            LineView { text: self.text, cursor_from_end: (self.cursor_from_end - 1) as nat }
        } else {
            self
        }
    }

    /// The line after the characters of `typed` have been inserted one by one,
    /// in order.
    pub open spec fn insert_all(self, typed: Seq<char>) -> LineView
        decreases typed.len(),
    {
        if typed.len() == 0 {
            self
        } else {
            self.insert_all(typed.drop_last()).insert_char(typed.last())
        }
    }
}

/// Typing with the cursor at the end of the line is plain appending: the line
/// then holds what it held, followed by the typed characters in order, and the
/// cursor is still at the end.
pub proof fn lemma_typing_at_end_appends(line: LineView, typed: Seq<char>)
    requires
        line.cursor_from_end == 0,
    ensures
        line.insert_all(typed) == (LineView { text: line.text + typed, cursor_from_end: 0 }),
    decreases typed.len(),
{
    if typed.len() == 0 {
        assert(line.text + typed =~= line.text);
    } else {
        let before = line.insert_all(typed.drop_last());
        lemma_typing_at_end_appends(line, typed.drop_last());
        assert(before.left() =~= before.text);
        assert(before.right() =~= Seq::<char>::empty());
        assert(before.insert_char(typed.last()).text =~= line.text + typed);
    }
}

/// Typing into an empty line gives exactly the typed characters.
pub proof fn lemma_typing_from_empty(typed: Seq<char>)
    ensures
        LineView::empty().insert_all(typed) == (LineView { text: typed, cursor_from_end: 0 }),
{
    lemma_typing_at_end_appends(LineView::empty(), typed);
    assert(Seq::<char>::empty() + typed =~= typed);
}

/// An edit keeps a well-formed line well formed. A removal shortens the line
/// by one when something could be removed, an insertion lengthens it by one,
/// and a move leaves the text alone.
pub proof fn lemma_edits_keep_wf(line: LineView, c: char)
    requires
        line.wf(),
    ensures
        !is_control(c) ==> line.insert_char(c).wf(),
        line.insert_char(c).text.len() == line.text.len() + 1,
        line.delete_before_cursor().wf(),
        line.can_delete_before() ==> line.delete_before_cursor().text.len() + 1 == line.text.len(),
        line.delete_at_cursor().wf(),
        line.can_delete_at() ==> line.delete_at_cursor().text.len() + 1 == line.text.len(),
        line.move_left().wf(),
        line.move_right().wf(),
{
}

/// Left then right, or right then left, brings the cursor back to where it
/// was, provided the first move was not stopped at an end of the line. A move
/// that is stopped changes nothing, however often it is repeated.
pub proof fn lemma_moves_undo_each_other(line: LineView)
    requires
        line.wf(),
    ensures
        line.cursor_from_end < line.text.len() ==> line.move_left().move_right() == line,
        line.cursor_from_end > 0 ==> line.move_right().move_left() == line,
        line.cursor_from_end == line.text.len() ==> line.move_left() == line,
        line.cursor_from_end == 0 ==> line.move_right() == line,
        line.move_left().cursor_from_end == line.text.len() ==> line.move_left().move_left()
            == line.move_left(),
        line.move_right().cursor_from_end == 0 ==> line.move_right().move_right()
            == line.move_right(),
{
}

/// Backspace on the empty line leaves it empty, with the cursor at its end.
pub proof fn lemma_backspace_on_empty()
    ensures
        LineView::empty().delete_before_cursor() == LineView::empty(),
{
}

/// Backspace with the cursor at the start of the line changes nothing, and
/// forward delete with the cursor at its end changes nothing.
pub proof fn lemma_delete_at_boundary(line: LineView)
    requires
        line.wf(),
    ensures
        line.cursor_from_end == line.text.len() ==> line.delete_before_cursor() == line,
        line.cursor_from_end == 0 ==> line.delete_at_cursor() == line,
{
}

/// An inserted character can be taken out again, wherever the cursor stands.
/// Backspace right after the insertion restores text and cursor. So does
/// forward delete at the place of the insertion, which the cursor reaches by
/// one move to the left.
pub proof fn lemma_insert_then_delete_restores(line: LineView, c: char)
    requires
        line.wf(),
    ensures
        line.insert_char(c).delete_before_cursor() == line,
        line.insert_char(c).move_left().delete_at_cursor() == line,
{
    let inserted = line.insert_char(c);
    assert(inserted.left() =~= line.left().push(c));
    assert(inserted.right() =~= line.right());
    assert(line.left().push(c).drop_last() =~= line.left());
    assert(line.left() + line.right() =~= line.text);
    assert(inserted.delete_before_cursor().text =~= line.text);

    let stepped = inserted.move_left();
    assert(stepped.left() =~= line.left());
    assert(stepped.right() =~= seq![c] + line.right());
    assert(stepped.right().drop_first() =~= line.right());
    assert(stepped.delete_at_cursor().text =~= line.text);
}

/// An editable line of text with a cursor measured from its end.
#[derive(Debug)]
pub struct LineBuffer {
    text: Vec<char>,
    cursor_from_end: usize,
}

impl View for LineBuffer {
    type V = LineView;

    closed spec fn view(&self) -> LineView {
        LineView { text: self.text@, cursor_from_end: self.cursor_from_end as nat }
    }
}

impl LineBuffer {
    /// The buffer's invariant: its value is well formed, and the line is
    /// shorter than `usize::MAX`, so that a count one past its length exists.
    pub open spec fn wf(&self) -> bool {
        &&& self@.wf()
        &&& self@.text.len() < usize::MAX
    }

    /// An empty buffer.
    pub fn new() -> (b: LineBuffer)
        ensures
            b.wf(),
            b@ == LineView::empty(),
    {
        LineBuffer { text: Vec::new(), cursor_from_end: 0 }
    }

    /// The number of characters in the line.
    pub fn len(&self) -> (n: usize)
        ensures
            n == self@.text.len(),
    {
        self.text.len()
    }

    /// Whether the line holds no character.
    pub fn is_empty(&self) -> (e: bool)
        ensures
            e == (self@.text.len() == 0),
    {
        self.text.len() == 0
    }

    /// The number of characters right of the cursor.
    pub fn cursor_from_end(&self) -> (n: usize)
        ensures
            n == self@.cursor_from_end,
    {
        self.cursor_from_end
    }

    /// The whole line as a string.
    pub fn text(&self) -> (s: String)
        requires
            self.wf(),
        ensures
            s@ == self@.text,
    {
        let s = string_of(&self.text, 0, self.text.len());
        assert(self.text@.subrange(0, self.text@.len() as int) =~= self.text@);
        s
    }

    /// What stands right of the cursor, as a string.
    pub fn tail(&self) -> (s: String)
        requires
            self.wf(),
        ensures
            s@ == self@.right(),
    {
        string_of(&self.text, self.text.len() - self.cursor_from_end, self.text.len())
    }

    /// Puts `c` in just left of the cursor, and tells whether it did: a
    /// character that the line does not accept is left out. The cursor keeps
    /// its distance from the end.
    pub fn insert_char(&mut self, c: char) -> (accepted: bool)
        requires
            old(self).wf(),
        ensures
            final(self).wf(),
            accepted == old(self)@.accepts(c),
            final(self)@ == if accepted {
                old(self)@.insert_char(c)
            } else {
                old(self)@
            },
    {
        if char_is_control(c) || self.text.len() >= usize::MAX - 1 {
            return false;
        }
        let at: usize = self.text.len() - self.cursor_from_end;
        self.text.insert(at, c);
        assert(self.text@ =~= old(self)@.left().push(c) + old(self)@.right());
        true
    }

    /// Backspace: removes the character left of the cursor, if there is one,
    /// and tells whether it did. The cursor keeps its distance from the end.
    pub fn delete_before_cursor(&mut self) -> (changed: bool)
        requires
            old(self).wf(),
        ensures
            final(self).wf(),
            final(self)@ == old(self)@.delete_before_cursor(),
            changed == old(self)@.can_delete_before(),
    {
        if self.cursor_from_end == self.text.len() {
            return false;
        }
        let at: usize = self.text.len() - self.cursor_from_end - 1;
        self.text.remove(at);
        assert(self.text@ =~= old(self)@.left().drop_last() + old(self)@.right());
        true
    }

    /// Forward delete: removes the character right of the cursor, if there is
    /// one, and tells whether it did. The tail is then one shorter.
    pub fn delete_at_cursor(&mut self) -> (changed: bool)
        requires
            old(self).wf(),
        ensures
            final(self).wf(),
            final(self)@ == old(self)@.delete_at_cursor(),
            changed == old(self)@.can_delete_at(),
    {
        if self.cursor_from_end == 0 {
            return false;
        }
        let at: usize = self.text.len() - self.cursor_from_end;
        self.text.remove(at);
        self.cursor_from_end = self.cursor_from_end - 1;
        assert(self.text@ =~= old(self)@.left() + old(self)@.right().drop_first());
        true
    }

    /// Moves the cursor one character to the left and tells whether it moved;
    /// at the start of the line it stays.
    pub fn move_left(&mut self) -> (moved: bool)
        requires
            old(self).wf(),
        ensures
            final(self).wf(),
            final(self)@ == old(self)@.move_left(),
            moved == (old(self)@.cursor_from_end < old(self)@.text.len()),
    {
        if self.cursor_from_end < self.text.len() {
            self.cursor_from_end = self.cursor_from_end + 1;
            true
        } else {
            false
        }
    }

    /// Moves the cursor one character to the right and tells whether it moved;
    /// at the end of the line it stays.
    pub fn move_right(&mut self) -> (moved: bool)
        requires
            old(self).wf(),
        ensures
            final(self).wf(),
            final(self)@ == old(self)@.move_right(),
            moved == (old(self)@.cursor_from_end > 0),
    {
        if self.cursor_from_end > 0 {
            self.cursor_from_end = self.cursor_from_end - 1;
            true
        } else {
            false
        }
    }

    /// Empties the line and puts the cursor at its end.
    pub fn reset(&mut self)
        ensures
            final(self).wf(),
            final(self)@ == LineView::empty(),
    {
        self.text.clear();
        self.cursor_from_end = 0;
    }
}

} // verus!
