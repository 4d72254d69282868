//! The filter text editor: a character buffer with a cursor, supporting
//! insertion, deletion, word-wise movement and line-wise deletion. The
//! cursor never leaves the buffer.

use vstd::prelude::*;
use crate::text::push_char;

verus! {

/// Whether keystrokes edit the filter text or act on the list.
#[derive(Clone, Copy, PartialEq, Eq, Structural)]
pub enum InputMode {
    Normal,
    Editing,
}

/// A word-separating character.
pub open spec fn is_space(c: char) -> bool {
    c == ' ' || c == '\t'
}

pub fn char_is_space(c: char) -> (r: bool)
    ensures
        r == is_space(c),
{
    c == ' ' || c == '\t'
}

/// Index reached from `i` by walking left over spaces.
pub open spec fn skip_spaces_back(s: Seq<char>, i: int) -> int
    decreases i,
{
    if 0 < i <= s.len() && is_space(s[i - 1]) {
        skip_spaces_back(s, i - 1)
    } else {
        i
    }
}

/// Index reached from `i` by walking left over non-spaces.
pub open spec fn skip_word_back(s: Seq<char>, i: int) -> int
    decreases i,
{
    if 0 < i <= s.len() && !is_space(s[i - 1]) {
        skip_word_back(s, i - 1)
    } else {
        i
    }
}

/// Start of the word ending at or before `i`: spaces, then a word, walked
/// over leftwards.
pub open spec fn prev_word_index(s: Seq<char>, i: int) -> int {
    skip_word_back(s, skip_spaces_back(s, i))
}

/// Index reached from `i` by walking right over non-spaces.
pub open spec fn skip_word_fwd(s: Seq<char>, i: int) -> int
    decreases s.len() - i,
{
    if 0 <= i < s.len() && !is_space(s[i]) {
        skip_word_fwd(s, i + 1)
    } else {
        i
    }
}

/// Index reached from `i` by walking right over spaces.
pub open spec fn skip_spaces_fwd(s: Seq<char>, i: int) -> int
    decreases s.len() - i,
{
    if 0 <= i < s.len() && is_space(s[i]) {
        skip_spaces_fwd(s, i + 1)
    } else {
        i
    }
}

/// Start of the word after the one the cursor stands in: a word, then
/// spaces, walked over rightwards.
pub open spec fn next_word_index(s: Seq<char>, i: int) -> int {
    skip_spaces_fwd(s, skip_word_fwd(s, i))
}

proof fn lemma_skip_back_bounds(s: Seq<char>, i: int)
    requires
        0 <= i <= s.len(),
    ensures
        0 <= skip_spaces_back(s, i) <= i,
        0 <= skip_word_back(s, i) <= i,
        0 <= prev_word_index(s, i) <= i,
    decreases i,
{
    if 0 < i {
        lemma_skip_back_bounds(s, i - 1);
    }
}

/// The filter's input line and cursor.
pub struct FilterInput {
    pub chars: Vec<char>,
    pub character_index: usize,
    pub input_mode: InputMode,
}

impl FilterInput {
    /// The cursor always stands inside the buffer or just past its end.
    pub open spec fn wf(self) -> bool {
        self.character_index <= self.chars@.len()
    }

    pub fn new() -> (r: FilterInput)
        ensures
            r.chars@.len() == 0,
            r.character_index == 0,
            r.input_mode == InputMode::Normal,
            r.wf(),
    {
        FilterInput { chars: Vec::new(), character_index: 0, input_mode: InputMode::Normal }
    }

    /// The current text, for display and for filtering.
    pub fn text(&self) -> (r: String)
        ensures
            r@ == self.chars@,
    {
        let mut out = String::new();
        let n = self.chars.len();
        let mut i: usize = 0;
        while i < n
            invariant
                0 <= i <= n,
                n == self.chars@.len(),
                out@ == self.chars@.take(i as int),
            decreases n - i,
        {
            push_char(&mut out, self.chars[i]);
            proof {
                assert(self.chars@.take(i + 1) =~= self.chars@.take(i as int).push(
                    self.chars@[i as int],
                ));
            }
            i = i + 1;
        }
        proof {
            assert(self.chars@.take(n as int) =~= self.chars@);
        }
        out
    }

    pub fn move_cursor_left(&mut self)
        ensures
            final(self).chars == old(self).chars,
            final(self).input_mode == old(self).input_mode,
            final(self).character_index == (if old(self).character_index > 0 {
                old(self).character_index - 1
            } else {
                0int
            }),
            old(self).wf() ==> final(self).wf(),
    {
        if self.character_index > 0 {
            self.character_index = self.character_index - 1;
        }
    }

    pub fn move_cursor_right(&mut self)
        requires
            old(self).wf(),
        ensures
            final(self).chars == old(self).chars,
            final(self).input_mode == old(self).input_mode,
            final(self).character_index == (if old(self).character_index < old(
                self,
            ).chars@.len() {
                old(self).character_index + 1
            } else {
                old(self).character_index as int
            }),
            final(self).wf(),
    {
        if self.character_index < self.chars.len() {
            self.character_index = self.character_index + 1;
        }
    }

    /// Inserts one character at the cursor and moves the cursor past it.
    pub fn enter_char(&mut self, c: char)
        requires
            old(self).wf(),
        ensures
            final(self).chars@ == old(self).chars@.insert(old(self).character_index as int, c),
            final(self).character_index == old(self).character_index + 1,
            final(self).input_mode == old(self).input_mode,
            final(self).wf(),
    {
        self.chars.insert(self.character_index, c);
        let n = self.chars.len();
        proof {
            assert(self.character_index < n);
        }
        self.character_index = self.character_index + 1;
    }

    /// Deletes the character left of the cursor, if there is one.
    pub fn delete_char(&mut self)
        requires
            old(self).wf(),
        ensures
            final(self).input_mode == old(self).input_mode,
            old(self).character_index == 0 ==> *final(self) == *old(self),
            old(self).character_index > 0 ==> {
                &&& final(self).chars@ == old(self).chars@.remove(
                    old(self).character_index - 1,
                )
                &&& final(self).character_index == old(self).character_index - 1
            },
            final(self).wf(),
    {
        if self.character_index != 0 {
            self.chars.remove(self.character_index - 1);
            self.character_index = self.character_index - 1;
        }
    }

    /// Deletes everything left of the cursor.
    pub fn delete_to_start(&mut self)
        requires
            old(self).wf(),
        ensures
            final(self).chars@ == old(self).chars@.skip(old(self).character_index as int),
            final(self).character_index == 0,
            final(self).input_mode == old(self).input_mode,
            final(self).wf(),
    {
        let tail = self.chars.split_off(self.character_index);
        self.chars = tail;
        self.character_index = 0;
        proof {
            assert(self.chars@ =~= old(self).chars@.skip(old(self).character_index as int));
        }
    }

    /// Deletes everything at and right of the cursor.
    pub fn delete_from_cursor(&mut self)
        requires
            old(self).wf(),
        ensures
            final(self).chars@ == old(self).chars@.take(old(self).character_index as int),
            final(self).character_index == old(self).character_index,
            final(self).input_mode == old(self).input_mode,
            final(self).wf(),
    {
        self.chars.truncate(self.character_index);
        proof {
            assert(self.chars@ =~= old(self).chars@.take(old(self).character_index as int));
        }
    }

    /// Moves the cursor to the start of the word it stands after.
    pub fn move_cursor_prev_word(&mut self)
        requires
            old(self).wf(),
        ensures
            final(self).chars == old(self).chars,
            final(self).input_mode == old(self).input_mode,
            final(self).character_index == prev_word_index(
                old(self).chars@,
                old(self).character_index as int,
            ),
            final(self).wf(),
    {
        let idx = self.find_prev_word_index();
        self.character_index = idx;
    }

    /// Deletes the word left of the cursor (with the spaces between it and
    /// the cursor) and leaves the cursor at its start.
    pub fn delete_prev_word(&mut self)
        requires
            old(self).wf(),
        ensures
            final(self).chars@ == old(self).chars@.take(
                prev_word_index(old(self).chars@, old(self).character_index as int),
            ) + old(self).chars@.skip(old(self).character_index as int),
            final(self).character_index == prev_word_index(
                old(self).chars@,
                old(self).character_index as int,
            ),
            final(self).input_mode == old(self).input_mode,
            final(self).wf(),
    {
        let idx = self.find_prev_word_index();
        let mut tail = self.chars.split_off(self.character_index);
        self.chars.truncate(idx);
        self.chars.append(&mut tail);
        self.character_index = idx;
        proof {
            assert(old(self).chars@.subrange(0, old(self).character_index as int).subrange(
                0,
                idx as int,
            ) =~= old(self).chars@.take(idx as int));
            assert(self.chars@ =~= old(self).chars@.take(idx as int) + old(self).chars@.skip(
                old(self).character_index as int,
            ));
        }
    }

    /// Moves the cursor to the start of the next word.
    pub fn move_cursor_next_word(&mut self)
        requires
            old(self).wf(),
        ensures
            final(self).chars == old(self).chars,
            final(self).input_mode == old(self).input_mode,
            final(self).character_index == next_word_index(
                old(self).chars@,
                old(self).character_index as int,
            ),
            final(self).wf(),
    {
        let ghost s = self.chars@;
        let n = self.chars.len();
        let mut idx = self.character_index;
        while idx < n && !char_is_space(self.chars[idx])
            invariant
                0 <= idx <= n,
                n == s.len(),
                self.chars@ == s,
                skip_word_fwd(s, old(self).character_index as int) == skip_word_fwd(s, idx as int),
            decreases n - idx,
        {
            idx = idx + 1;
        }
        while idx < n && char_is_space(self.chars[idx])
            invariant
                0 <= idx <= n,
                n == s.len(),
                self.chars@ == s,
                skip_word_fwd(s, old(self).character_index as int) < idx + 1,
                skip_spaces_fwd(s, skip_word_fwd(s, old(self).character_index as int))
                    == skip_spaces_fwd(s, idx as int),
            decreases n - idx,
        {
            idx = idx + 1;
        }
        self.character_index = idx;
    }

    /// Computes the start of the word left of the cursor.
    fn find_prev_word_index(&self) -> (idx: usize)
        requires
            self.wf(),
        ensures
            idx == prev_word_index(self.chars@, self.character_index as int),
            idx <= self.character_index,
    {
        let ghost s = self.chars@;
        let mut idx = self.character_index;
        proof {
            lemma_skip_back_bounds(s, idx as int);
        }
        while idx > 0 && char_is_space(self.chars[idx - 1])
            invariant
                0 <= idx <= self.character_index <= s.len(),
                s == self.chars@,
                skip_spaces_back(s, self.character_index as int) == skip_spaces_back(
                    s,
                    idx as int,
                ),
            decreases idx,
        {
            idx = idx - 1;
        }
        while idx > 0 && !char_is_space(self.chars[idx - 1])
            invariant
                0 <= idx <= self.character_index <= s.len(),
                s == self.chars@,
                skip_spaces_back(s, self.character_index as int) >= idx,
                skip_word_back(s, skip_spaces_back(s, self.character_index as int))
                    == skip_word_back(s, idx as int),
            decreases idx,
        {
            idx = idx - 1;
        }
        idx
    }

    /// Clamps a cursor position into the buffer.
    pub fn clamp_cursor(&self, pos: usize) -> (r: usize)
        ensures
            r == (if pos <= self.chars@.len() {
                pos as int
            } else {
                self.chars@.len() as int
            }),
    {
        let n = self.chars.len();
        if pos <= n {
            pos
        } else {
            n
        }
    }
}

} // verus!
