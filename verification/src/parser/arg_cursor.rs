//! A cursor over the words of a command line.

use vstd::prelude::*;
use vstd::string::StrSliceExecFns;
use crate::utils::strings::strs;

verus! {

/// Whether the word `s` is a flag: it begins with a hyphen.
pub open spec fn is_flag(s: Seq<char>) -> bool {
    s.len() > 0 && s[0] == '-'
}

/// Whether the word `s` is a flag.
pub fn word_is_flag(s: &str) -> (r: bool)
    ensures
        r == is_flag(s@),
{
    !s.is_empty() && s.get_char(0) == '-'
}

/// A cursor over the words of a command line, which hands them out one by
/// one from the first.
#[derive(Debug)]
pub struct ArgCursor {
    pub words: Vec<String>,
    pub pos: usize,
}

impl ArgCursor {
    /// The words that were not handed out yet.
    pub open spec fn remaining(&self) -> Seq<Seq<char>> {
        if self.pos <= self.words@.len() {
            strs(self.words@).skip(self.pos as int)
        } else {
            Seq::empty()
        }
    }

    /// A cursor before the first of `words`.
    pub fn new(words: Vec<String>) -> (cursor: Self)
        ensures
            cursor.remaining() == strs(words@),
    {
        let cursor = ArgCursor { words, pos: 0 };
        assert(cursor.remaining() =~= strs(words@));
        cursor
    }

    /// Hands out the next word.
    pub fn next(&mut self) -> (r: Option<String>)
        ensures
            match r {
                Some(word) => old(self).remaining().len() > 0 && word@ == old(self).remaining()[0]
                    && final(self).remaining() == old(self).remaining().skip(1),
                None => old(self).remaining().len() == 0 && final(self).remaining().len() == 0,
            },
    {
        if self.pos < self.words.len() {
            let word = self.words[self.pos].clone();
            self.pos = self.pos + 1;
            assert(self.remaining() =~= old(self).remaining().skip(1));
            Some(word)
        } else {
            None
        }
    }

    /// The next word, which stays in the cursor.
    pub fn peek(&mut self) -> (r: Option<&String>)
        ensures
            final(self).remaining() == old(self).remaining(),
            match r {
                Some(word) => old(self).remaining().len() > 0 && word@ == old(self).remaining()[0],
                None => old(self).remaining().len() == 0,
            },
    {
        if self.pos < self.words.len() {
            Some(&self.words[self.pos])
        } else {
            None
        }
    }

    /// Whether a word is left and is a flag.
    pub fn is_next_flag(&mut self) -> (r: bool)
        ensures
            final(self).remaining() == old(self).remaining(),
            r == (old(self).remaining().len() > 0 && is_flag(old(self).remaining()[0])),
    {
        if self.pos < self.words.len() {
            word_is_flag(self.words[self.pos].as_str())
        } else {
            false
        }
    }

    /// Hands out the next word unless it is a flag.
    pub fn next_if_value(&mut self) -> (r: Option<String>)
        ensures
            match r {
                Some(word) => old(self).remaining().len() > 0 && !is_flag(old(self).remaining()[0])
                    && word@ == old(self).remaining()[0] && final(self).remaining() == old(
                    self,
                ).remaining().skip(1),
                None => (old(self).remaining().len() == 0 || is_flag(old(self).remaining()[0]))
                    && final(self).remaining() == old(self).remaining(),
            },
    {
        if self.is_next_flag() {
            None
        } else {
            self.next()
        }
    }
}

} // verus!
