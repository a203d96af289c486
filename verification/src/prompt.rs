//! A single-line text input with a caret.

use vstd::prelude::*;
use vstd::string::*;
use vstd::utf8::*;

verus! {

/// The text typed into a prompt and the caret between two of its characters.
#[derive(Debug)]
pub struct PromptInput {
    text: String,
    cursor: usize,
}

impl PromptInput {
    /// The caret never leaves the text.
    #[verifier::type_invariant]
    spec fn caret_in_text(self) -> bool {
        self.cursor <= self.text@.len()
    }

    /// The typed text.
    pub closed spec fn text(self) -> Seq<char> {
        self.text@
    }

    /// The number of characters left of the caret.
    pub closed spec fn caret(self) -> nat {
        self.cursor as nat
    }

    /// An empty input.
    pub fn new() -> (r: Self)
        ensures
            r.text() == Seq::<char>::empty(),
            r.caret() == 0,
    {
        PromptInput { text: String::new(), cursor: 0 }
    }

    /// An input that holds `text`, with the caret at its end.
    pub fn with_text(text: &str) -> (r: Self)
        ensures
            r.text() == text@,
            r.caret() == text@.len(),
    {
        let cursor: usize = text.unicode_len();
        PromptInput { text: text.to_owned(), cursor }
    }

    /// The same text and caret in a new input.
    pub fn duplicate(&self) -> (r: Self)
        ensures
            r.text() == self.text(),
            r.caret() == self.caret(),
            r == *self,
    {
        proof {
            use_type_invariant(self);
        }
        PromptInput { text: self.text.clone(), cursor: self.cursor }
    }

    /// The typed text.
    pub fn query(&self) -> (r: &str)
        ensures
            r@ == self.text(),
    {
        self.text.as_str()
    }

    /// Whether nothing has been typed.
    pub fn is_empty(&self) -> (r: bool)
        ensures
            r == (self.text().len() == 0),
    {
        self.text.as_str().is_empty()
    }

    /// The caret as a byte offset into the UTF-8 form of the text.
    pub fn cursor(&self) -> (r: usize)
        ensures
            self.caret() <= self.text().len(),
            r == encode_utf8(self.text().take(self.caret() as int)).len(),
    {
        proof {
            use_type_invariant(self);
        }
        let head = self.text.as_str().substring_char(0, self.cursor);
        head.as_bytes().len()
    }

    /// Appends a character and moves the caret to the end.
    pub fn push(&mut self, c: char)
        ensures
            final(self).text() == old(self).text().push(c),
            final(self).caret() == final(self).text().len(),
    {
        let mut text = self.text.clone();
        text.push(c);
        let cursor: usize = text.as_str().unicode_len();
        *self = PromptInput { text, cursor };
    }

    /// Inserts a character at the caret and moves the caret past it.
    pub fn insert(&mut self, c: char)
        ensures
            old(self).caret() <= old(self).text().len(),
            final(self).text() == old(self).text().insert(old(self).caret() as int, c),
            final(self).caret() == old(self).caret() + 1,
    {
        proof {
            use_type_invariant(&*self);
        }
        let len: usize = self.text.as_str().unicode_len();
        let mut text = self.text.as_str().substring_char(0, self.cursor).to_owned();
        text.push(c);
        text.append(self.text.as_str().substring_char(self.cursor, len));
        assert(text@ =~= self.text@.insert(self.cursor as int, c));
        let total: usize = text.as_str().unicode_len();
        assert(self.cursor < total);
        let cursor: usize = self.cursor + 1;
        *self = PromptInput { text, cursor };
    }

    /// Removes the character left of the caret, if there is one.
    pub fn backspace(&mut self)
        ensures
            old(self).caret() == 0 ==> *final(self) == *old(self),
            old(self).caret() > 0 ==> {
                &&& old(self).caret() <= old(self).text().len()
                &&& final(self).text() == old(self).text().remove(old(self).caret() - 1)
                &&& final(self).caret() == old(self).caret() - 1
            },
    {
        proof {
            use_type_invariant(&*self);
        }
        if self.cursor > 0 {
            let len: usize = self.text.as_str().unicode_len();
            let cursor: usize = self.cursor - 1;
            let mut text = self.text.as_str().substring_char(0, cursor).to_owned();
            text.append(self.text.as_str().substring_char(self.cursor, len));
            assert(text@ =~= self.text@.remove(cursor as int));
            *self = PromptInput { text, cursor };
        }
    }

    /// Removes the character right of the caret, if there is one.
    pub fn delete(&mut self)
        ensures
            old(self).caret() <= old(self).text().len(),
            old(self).caret() == old(self).text().len() ==> *final(self) == *old(self),
            old(self).caret() < old(self).text().len() ==> final(self).text() == old(
                self,
            ).text().remove(old(self).caret() as int),
            final(self).caret() == old(self).caret(),
    {
        proof {
            use_type_invariant(&*self);
        }
        let len: usize = self.text.as_str().unicode_len();
        if self.cursor < len {
            let mut text = self.text.as_str().substring_char(0, self.cursor).to_owned();
            text.append(self.text.as_str().substring_char(self.cursor + 1, len));
            assert(text@ =~= self.text@.remove(self.cursor as int));
            let cursor: usize = self.cursor;
            *self = PromptInput { text, cursor };
        }
    }

    /// Moves the caret one character left, stopping at the start.
    pub fn move_left(&mut self)
        ensures
            final(self).text() == old(self).text(),
            final(self).caret() == if old(self).caret() == 0 {
                0
            } else {
                (old(self).caret() - 1) as nat
            },
    {
        proof {
            use_type_invariant(&*self);
        }
        if self.cursor > 0 {
            self.cursor = self.cursor - 1;
        }
    }

    /// Moves the caret one character right, stopping at the end.
    pub fn move_right(&mut self)
        ensures
            final(self).text() == old(self).text(),
            final(self).caret() == if old(self).caret() < old(self).text().len() {
                old(self).caret() + 1
            } else {
                old(self).caret()
            },
    {
        proof {
            use_type_invariant(&*self);
        }
        let len: usize = self.text.as_str().unicode_len();
        if self.cursor < len {
            self.cursor = self.cursor + 1;
        }
    }

    /// Moves the caret to the start.
    pub fn move_home(&mut self)
        ensures
            final(self).text() == old(self).text(),
            final(self).caret() == 0,
    {
        self.cursor = 0;
    }

    /// Moves the caret to the end.
    pub fn move_end(&mut self)
        ensures
            final(self).text() == old(self).text(),
            final(self).caret() == old(self).text().len(),
    {
        let cursor: usize = self.text.as_str().unicode_len();
        self.cursor = cursor;
    }
}

/// A change of an input.
#[derive(Debug, Clone, Copy, PartialEq, Eq, Structural)]
pub enum Edit {
    Insert(char),
    Backspace,
    Delete,
    Left,
    Right,
    Home,
    End,
}

impl Edit {
    /// The text and the caret after the change.
    pub open spec fn of(self, text: Seq<char>, caret: nat) -> (Seq<char>, nat) {
        match self {
            Edit::Insert(c) => (text.insert(caret as int, c), caret + 1),
            Edit::Backspace => if caret == 0 {
                (text, caret)
            } else {
                (text.remove(caret - 1), (caret - 1) as nat)
            },
            Edit::Delete => if caret < text.len() {
                (text.remove(caret as int), caret)
            } else {
                (text, caret)
            },
            Edit::Left => (
                text,
                if caret == 0 {
                    0
                } else {
                    (caret - 1) as nat
                },
            ),
            Edit::Right => (
                text,
                if caret < text.len() {
                    caret + 1
                } else {
                    caret
                },
            ),
            Edit::Home => (text, 0),
            Edit::End => (text, text.len()),
        }
    }
}

impl PromptInput {
    /// Changes the input.
    pub fn apply(&mut self, edit: Edit)
        ensures
            (final(self).text(), final(self).caret()) == edit.of(old(self).text(), old(self).caret()),
    {
        match edit {
            Edit::Insert(c) => self.insert(c),
            Edit::Backspace => self.backspace(),
            Edit::Delete => self.delete(),
            Edit::Left => self.move_left(),
            Edit::Right => self.move_right(),
            Edit::Home => self.move_home(),
            Edit::End => self.move_end(),
        }
    }
}

/// Typing a character and deleting it with backspace leaves the text and the caret as they were.
pub proof fn backspace_undoes_insert(text: Seq<char>, caret: int, c: char)
    requires
        0 <= caret <= text.len(),
    ensures
        text.insert(caret, c).remove(caret) == text,
{
    assert(text.insert(caret, c).remove(caret) =~= text);
}

} // verus!
