//! The state that a scan of one file carries from line to line.

use vstd::prelude::*;
use crate::langs::lang_def::LangDef;
use super::text::{trim, trim_bytes};

verus! {

/// What a line inherits from the lines before it: whether it begins inside a
/// block comment, and whether it begins inside a multi-line doc-string.
#[derive(Debug, Clone, Copy, PartialEq, Eq, Structural)]
pub struct LexCtx {
    pub in_block_comment: bool,
    pub in_string: bool,
}

impl Default for LexCtx {
    fn default() -> (ctx: LexCtx)
        ensures
            ctx == (LexCtx { in_block_comment: false, in_string: false }),
    {
        LexCtx { in_block_comment: false, in_string: false }
    }
}

/// One physical line with what is needed to classify it.
#[derive(Debug)]
pub struct LineCtx<'a> {
    pub raw: &'a [u8],
    pub trimmed: &'a [u8],
    pub ctx: &'a mut LexCtx,
    pub lang: &'a LangDef,
}

impl<'a> LineCtx<'a> {
    /// A line of `lang` in the state `ctx`; its trimmed text is `raw` without
    /// the white space at both ends.
    pub fn new(raw: &'a [u8], ctx: &'a mut LexCtx, lang: &'a LangDef) -> (line: Self)
        ensures
            line.raw@ == raw@,
            line.trimmed@ == trim(raw@),
            line.trimmed@.len() <= raw@.len(),
            line.lang == lang,
            *line.ctx == *old(ctx),
            *final(line.ctx) == *final(ctx),
    {
        let trimmed: &[u8] = trim_bytes(raw);
        LineCtx { raw, trimmed, ctx, lang }
    }

    /// The line as it was read.
    pub fn raw(&self) -> (r: &[u8])
        ensures
            r@ == self.raw@,
    {
        self.raw
    }

    /// The line without the white space at both ends.
    pub fn trimmed(&self) -> (r: &[u8])
        ensures
            r@ == self.trimmed@,
    {
        self.trimmed
    }

    /// The state that the line was reached in, open to change.
    pub fn ctx(&mut self) -> (r: &mut LexCtx)
        ensures
            *r == *old(self).ctx,
            *final(self).ctx == *final(r),
            final(self).raw == old(self).raw,
            final(self).trimmed == old(self).trimmed,
            final(self).lang == old(self).lang,
    {
        self.ctx
    }

    /// The rules of the line's language.
    pub fn lang(&self) -> (r: &LangDef)
        ensures
            r == self.lang,
    {
        self.lang
    }
}

/// Extent of an open function body in a language that delimits bodies with
/// braces.
#[derive(Debug, Clone, Copy, PartialEq, Eq, Structural)]
pub struct FnCtx {
    pub in_function: bool,
    pub prev: isize,
    pub depth: isize,
}

impl Default for FnCtx {
    fn default() -> (ctx: FnCtx)
        ensures
            ctx == (FnCtx { in_function: false, prev: 0, depth: 0 }),
    {
        FnCtx { in_function: false, prev: 0, depth: 0 }
    }
}

/// Brace depth after the braces of `code` were counted from `depth` on: an
/// opening brace adds one, a closing brace takes one off a depth above zero.
pub open spec fn brace_depth(code: Seq<u8>, depth: int) -> int
    decreases code.len(),
{
    if code.len() == 0 {
        depth
    } else {
        let before = brace_depth(code.drop_last(), depth);
        if code.last() == 0x7B {
            before + 1
        } else if code.last() == 0x7D {
            if before > 0 {
                before - 1
            } else {
                before
            }
        } else {
            before
        }
    }
}

/// Counting braces moves the depth by no more than the length of the code,
/// and never below zero from a depth that is not below zero.
pub proof fn lemma_brace_depth(code: Seq<u8>, depth: int)
    ensures
        brace_depth(code, depth) <= depth + code.len(),
        depth >= 0 ==> brace_depth(code, depth) >= 0,
        depth < 0 ==> brace_depth(code, depth) >= depth,
    decreases code.len(),
{
    if code.len() > 0 {
        lemma_brace_depth(code.drop_last(), depth);
    }
}

/// The extent of a function body as mathematical values.
pub struct Extent {
    pub in_function: bool,
    pub prev: int,
    pub depth: int,
}

impl Extent {
    /// No function is open.
    pub open spec fn start() -> Extent {
        Extent { in_function: false, prev: 0, depth: 0 }
    }

    /// The extent at the start of the next line: an open function whose
    /// depth went back to zero on the line before is closed.
    pub open spec fn begin_line(self) -> Extent {
        Extent { in_function: self.in_function && self.prev != 0, prev: self.prev, depth: self.depth }
    }

    /// The extent after the code `code` of one line, where `matched` says
    /// whether the code holds a function signature. A signature outside a
    /// function opens one at depth zero; the braces of the code are counted
    /// in either case.
    pub open spec fn update(self, code: Seq<u8>, matched: bool) -> Extent {
        let entered = !self.in_function && matched;
        let depth = brace_depth(code, if entered { 0 } else { self.depth });
        Extent { in_function: self.in_function || matched, prev: depth, depth }
    }
}

impl View for FnCtx {
    type V = Extent;

    open spec fn view(&self) -> Extent {
        Extent { in_function: self.in_function, prev: self.prev as int, depth: self.depth as int }
    }
}

impl FnCtx {
    /// Closes, at the start of a line, a function whose depth went back to
    /// zero on the line before.
    pub fn begin_line(&mut self)
        ensures
            final(self)@ == old(self)@.begin_line(),
    {
        if self.in_function && self.prev == 0 {
            self.in_function = false;
        }
    }

    /// Takes in the code of one line, where `matched` says whether the code
    /// holds a function signature.
    pub fn update(&mut self, code: &[u8], matched: bool)
        requires
            code@.len() <= isize::MAX,
            old(self).depth + code@.len() <= isize::MAX,
        ensures
            final(self)@ == old(self)@.update(code@, matched),
    {
        if !self.in_function {
            if matched {
                self.in_function = true;
                self.depth = 0;
            }
        }
        let ghost from = self.depth as int;
        let n: usize = code.len();
        let mut i: usize = 0;
        assert(code@.take(0) =~= Seq::<u8>::empty());
        while i < n
            invariant
                i <= n,
                n == code@.len(),
                from + n <= isize::MAX,
                self.depth == brace_depth(code@.take(i as int), from),
                self.in_function == (old(self).in_function || matched),
                from == (if !old(self).in_function && matched {
                    0
                } else {
                    old(self).depth as int
                }),
            decreases n - i,
        {
            proof {
                lemma_brace_depth(code@.take(i as int), from);
                assert(code@.take(i + 1).drop_last() =~= code@.take(i as int));
            }
            let ch: u8 = code[i];
            if ch == 0x7B {
                self.depth = self.depth + 1;
            } else if ch == 0x7D {
                if self.depth > 0 {
                    self.depth = self.depth - 1;
                }
            }
            i = i + 1;
        }
        assert(code@.take(n as int) =~= code@);
        self.prev = self.depth;
    }
}

/// The extent of an indented function body as mathematical values.
pub struct Indented {
    pub in_fn: bool,
    pub fn_def_line: bool,
    pub base_indent: nat,
    pub cur_indent: nat,
}

impl Indented {
    /// No function is open.
    pub open spec fn start() -> Indented {
        Indented { in_fn: false, fn_def_line: false, base_indent: 0, cur_indent: 0 }
    }

    /// The extent at the start of the next line: behind a signature line the
    /// function is open, its base the indentation that was current.
    pub open spec fn begin_line(self) -> Indented {
        if self.fn_def_line {
            Indented {
                in_fn: true,
                fn_def_line: false,
                base_indent: self.cur_indent,
                cur_indent: self.cur_indent,
            }
        } else {
            self
        }
    }

    /// The extent after a signature was seen on the line.
    pub open spec fn signature(self) -> Indented {
        Indented {
            in_fn: self.in_fn,
            fn_def_line: true,
            base_indent: self.base_indent,
            cur_indent: self.cur_indent,
        }
    }

    /// The extent after a line of indentation `indent` that is neither blank
    /// nor a comment: the open function ends where the line is indented no
    /// deeper than the function's base.
    pub open spec fn track(self, indent: nat) -> Indented {
        Indented {
            in_fn: self.in_fn && indent > self.base_indent,
            fn_def_line: self.fn_def_line,
            base_indent: self.base_indent,
            cur_indent: indent,
        }
    }
}

impl View for PyCtx {
    type V = Indented;

    open spec fn view(&self) -> Indented {
        Indented {
            in_fn: self.in_fn,
            fn_def_line: self.fn_def_line,
            base_indent: self.base_indent as nat,
            cur_indent: self.cur_indent as nat,
        }
    }
}

impl PyCtx {
    /// Opens, at the start of a line, the function whose signature stood on
    /// the line before.
    pub fn begin_line(&mut self)
        ensures
            final(self)@ == old(self)@.begin_line(),
    {
        if self.fn_def_line {
            self.fn_def_line = false;
            self.in_fn = true;
            self.base_indent = self.cur_indent;
        }
    }

    /// Notes that the line holds a function signature.
    pub fn signature(&mut self)
        ensures
            final(self)@ == old(self)@.signature(),
    {
        self.fn_def_line = true;
    }

    /// Takes in the indentation of a line that is neither blank nor a
    /// comment, and says whether the line lies in the open function.
    pub fn track(&mut self, indent: usize) -> (inside: bool)
        ensures
            final(self)@ == old(self)@.track(indent as nat),
            inside == final(self).in_fn,
    {
        self.cur_indent = indent;
        if self.in_fn {
            if indent <= self.base_indent {
                self.in_fn = false;
            }
        }
        self.in_fn
    }
}

/// Extent of an open function body in a language that delimits bodies by
/// indentation.
#[derive(Debug, Clone, Copy, PartialEq, Eq, Structural)]
pub struct PyCtx {
    /// The line lies in a function body.
    pub in_fn: bool,
    /// The line before was a function's signature.
    pub fn_def_line: bool,
    /// Indentation of the signature of the open function.
    pub base_indent: usize,
    /// Indentation of the last line that was neither blank nor a comment.
    pub cur_indent: usize,
}

impl Default for PyCtx {
    fn default() -> (ctx: PyCtx)
        ensures
            ctx == (PyCtx { in_fn: false, fn_def_line: false, base_indent: 0, cur_indent: 0 }),
    {
        PyCtx { in_fn: false, fn_def_line: false, base_indent: 0, cur_indent: 0 }
    }
}

} // verus!
