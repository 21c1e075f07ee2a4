//! Classification of single lines: blank, comment, code, or code beside a
//! comment.

use vstd::prelude::*;
use vstd::slice::slice_subrange;
use crate::langs::lang_def::LangRule;
use super::lex_status::{LexCtx, LineCtx};
use super::text::{
    find, find_bytes, find_bytes_from, find_from, has_prefix, lemma_find_from, starts_with, trim,
    trim_bytes,
};

verus! {

/// The category of a line.
#[derive(Debug, Clone, Copy, PartialEq, Eq, Structural)]
pub enum LineKind {
    Blank,
    /// Nothing but comment.
    Comment,
    /// Nothing but documentation comment.
    DocComment,
    /// Nothing but code.
    Code,
    /// Code beside a comment.
    Mixed,
}

/// What a classifier makes of a line: its category, for a mixed line the
/// half-open byte range of the trimmed line that holds the code, and the
/// state in which the next line begins.
pub struct Classified {
    pub kind: LineKind,
    pub span: Option<(int, int)>,
    pub ctx: LexCtx,
}

/// A line of the given category that holds no code span.
pub open spec fn plain(kind: LineKind, ctx: LexCtx) -> Classified {
    Classified { kind, span: None, ctx }
}

/// A mixed line whose code lies in `start..end`.
pub open spec fn mixed(start: int, end: int, ctx: LexCtx) -> Classified {
    Classified { kind: LineKind::Mixed, span: Some((start, end)), ctx }
}

/// A line that leaves a block comment at `after`, the offset behind the close
/// delimiter.
pub open spec fn after_close(s: Seq<u8>, after: int, ctx: LexCtx) -> Classified {
    let left = LexCtx { in_block_comment: false, in_string: ctx.in_string };
    if after == s.len() {
        plain(LineKind::Comment, left)
    } else {
        mixed(after, s.len() as int, left)
    }
}

/// A line on which a block comment opens at `pos`, given the offset `body`
/// behind the open delimiter and the close delimiter.
pub open spec fn after_open(s: Seq<u8>, pos: int, body: int, close: Seq<u8>, ctx: LexCtx) -> Classified {
    match find_from(s, close, body) {
        Some(q) => if pos == 0 && q + close.len() == s.len() {
            plain(LineKind::Comment, ctx)
        } else {
            mixed(q + close.len(), s.len() as int, ctx)
        },
        None => {
            let entered = LexCtx { in_block_comment: true, in_string: ctx.in_string };
            if trim(s.take(pos)).len() == 0 {
                plain(LineKind::Comment, entered)
            } else {
                mixed(0, pos, entered)
            }
        },
    }
}

/// Classification by line-comment prefix and block-comment delimiters, of the
/// trimmed line `s` reached in state `ctx`.
pub open spec fn classify_default(s: Seq<u8>, ctx: LexCtx, rule: LangRule) -> Classified {
    if s.len() == 0 {
        plain(LineKind::Blank, ctx)
    } else if ctx.in_block_comment && rule.block_comment is Some {
        match find(s, rule.block_close()) {
            Some(pos) => after_close(s, pos + rule.block_close().len(), ctx),
            None => plain(LineKind::Comment, ctx),
        }
    } else if rule.line_prefix() matches Some(prefix) && starts_with(s, prefix) {
        plain(LineKind::Comment, ctx)
    } else if rule.block_comment is Some && find(s, rule.block_open()) is Some {
        let pos = find(s, rule.block_open())->0;
        after_open(s, pos, pos + rule.block_open().len(), rule.block_close(), ctx)
    } else {
        plain(LineKind::Code, ctx)
    }
}

/// Three double quotes.
pub open spec fn double_quotes() -> Seq<u8> {
    seq![0x22u8, 0x22u8, 0x22u8]
}

/// Three single quotes.
pub open spec fn single_quotes() -> Seq<u8> {
    seq![0x27u8, 0x27u8, 0x27u8]
}

/// Offset of the first number sign in `s`, at or after `from`, that no
/// backslash stands directly before.
pub open spec fn marker_from(s: Seq<u8>, from: int) -> Option<int>
    decreases s.len() - from,
{
    if from < 0 || from >= s.len() {
        None
    } else if s[from] == 0x23 && (from == 0 || s[from - 1] != 0x5C) {
        Some(from)
    } else {
        marker_from(s, from + 1)
    }
}

/// A line on which a doc-string closes at `end`.
pub open spec fn after_doc_close(s: Seq<u8>, end: int, ctx: LexCtx) -> Classified {
    let left = LexCtx { in_block_comment: ctx.in_block_comment, in_string: false };
    if s == double_quotes() || s == single_quotes() {
        plain(LineKind::Comment, left)
    } else if trim(s.skip(end + 3)).len() > 0 {
        mixed(end + 3, s.len() as int, left)
    } else {
        plain(LineKind::Comment, left)
    }
}

/// A line that begins with the quotes `quotes`.
pub open spec fn after_doc_open(s: Seq<u8>, quotes: Seq<u8>, ctx: LexCtx) -> Classified {
    if find_from(s, quotes, 3) is Some {
        plain(LineKind::Comment, ctx)
    } else {
        let entered = LexCtx { in_block_comment: ctx.in_block_comment, in_string: true };
        if trim(s.skip(3)).len() > 0 {
            mixed(3, s.len() as int, entered)
        } else {
            plain(LineKind::Comment, entered)
        }
    }
}

/// Classification by doc-strings in triple quotes, a line-comment prefix and
/// inline comments behind a number sign, of the trimmed line `s` reached in
/// state `ctx`.
pub open spec fn classify_python(s: Seq<u8>, ctx: LexCtx, rule: LangRule) -> Classified {
    if s.len() == 0 {
        plain(LineKind::Blank, ctx)
    } else if ctx.in_string {
        match find(s, double_quotes()) {
            Some(end) => after_doc_close(s, end, ctx),
            None => match find(s, single_quotes()) {
                Some(end) => after_doc_close(s, end, ctx),
                None => plain(LineKind::Comment, ctx),
            },
        }
    } else if starts_with(s, double_quotes()) {
        after_doc_open(s, double_quotes(), ctx)
    } else if starts_with(s, single_quotes()) {
        after_doc_open(s, single_quotes(), ctx)
    } else if rule.line_prefix() matches Some(prefix) && starts_with(s, prefix) {
        plain(LineKind::Comment, ctx)
    } else {
        match marker_from(s, 0) {
            Some(pos) => if trim(s.take(pos)).len() > 0 {
                mixed(0, pos, ctx)
            } else {
                plain(LineKind::Comment, ctx)
            },
            None => plain(LineKind::Code, ctx),
        }
    }
}

/// Whether the exec result `r` of a classification is what `c` says.
pub open spec fn agrees(r: (LineKind, Option<(usize, usize)>), c: Classified) -> bool {
    &&& r.0 == c.kind
    &&& match r.1 {
        Some((a, b)) => c.span == Some((a as int, b as int)),
        None => c.span is None,
    }
}

/// A way to classify lines. A mixed line comes with its code span; a span
/// lies within the trimmed line.
pub trait Classifier: Send + Sync {
    /// What this classifier makes of the trimmed line `s` reached in state
    /// `ctx`, under the rules `rule`.
    spec fn classified(&self, s: Seq<u8>, ctx: LexCtx, rule: LangRule) -> Classified;

    /// A mixed line has a span, and every span lies within the line.
    proof fn lemma_span(&self, s: Seq<u8>, ctx: LexCtx, rule: LangRule)
        ensures
            self.classified(s, ctx, rule).kind == LineKind::Mixed ==> self.classified(
                s,
                ctx,
                rule,
            ).span is Some,
            self.classified(s, ctx, rule).span matches Some((a, b)) ==> 0 <= a <= b <= s.len(),
            s.len() == 0 ==> self.classified(s, ctx, rule).kind == LineKind::Blank,
    ;

    /// Classifies `line` and leaves in its state what the next line inherits.
    fn classify(&self, line: LineCtx) -> (r: (LineKind, Option<(usize, usize)>))
        ensures
            agrees(r, self.classified(line.trimmed@, *old(line.ctx), line.lang@)),
            *final(line.ctx) == self.classified(line.trimmed@, *old(line.ctx), line.lang@).ctx,
    ;
}

/// Classifies by a line-comment prefix and block-comment delimiters.
#[derive(Debug, Clone, Copy)]
pub struct DefaultClassifier;

impl DefaultClassifier {
    pub fn new() -> Self {
        DefaultClassifier
    }
}

/// Classifies by doc-strings in triple quotes and number-sign comments.
#[derive(Debug, Clone, Copy)]
pub struct PythonClassifier;

impl PythonClassifier {
    pub fn new() -> Self {
        PythonClassifier
    }
}

/// Whether nothing but white space stands in `s`.
pub fn is_blank(s: &[u8]) -> (r: bool)
    ensures
        r == (trim(s@).len() == 0),
{
    trim_bytes(s).len() == 0
}

/// What stands before the first occurrence of a needle or behind it lies
/// within the haystack.
proof fn lemma_find_bounds(hay: Seq<u8>, needle: Seq<u8>, from: int)
    requires
        0 <= from,
    ensures
        find_from(hay, needle, from) matches Some(i) ==> from <= i && i + needle.len()
            <= hay.len(),
{
    lemma_find_from(hay, needle, from);
}

impl Classifier for DefaultClassifier {
    open spec fn classified(&self, s: Seq<u8>, ctx: LexCtx, rule: LangRule) -> Classified {
        classify_default(s, ctx, rule)
    }

    proof fn lemma_span(&self, s: Seq<u8>, ctx: LexCtx, rule: LangRule) {
        if rule.block_comment is Some {
            let open = rule.block_open();
            let close = rule.block_close();
            lemma_find_bounds(s, close, 0);
            lemma_find_bounds(s, open, 0);
            if find(s, open) is Some {
                lemma_find_bounds(s, close, find(s, open)->0 + open.len());
            }
        }
    }

    fn classify(&self, line: LineCtx) -> (r: (LineKind, Option<(usize, usize)>)) {
        let s: &[u8] = line.trimmed;
        let n: usize = s.len();
        if n == 0 {
            return (LineKind::Blank, None);
        }
        if line.ctx.in_block_comment {
            if let Some((_, close)) = line.lang.block_comment {
                let close_bytes: &[u8] = close.as_bytes();
                proof {
                    lemma_find_bounds(s@, close_bytes@, 0);
                }
                match find_bytes(s, close_bytes) {
                    Some(pos) => {
                        line.ctx.in_block_comment = false;
                        let after: usize = pos + close_bytes.len();
                        if after == n {
                            return (LineKind::Comment, None);
                        } else {
                            return (LineKind::Mixed, Some((after, n)));
                        }
                    },
                    None => {
                        return (LineKind::Comment, None);
                    },
                }
            }
        }
        if let Some(prefix) = line.lang.line_comment {
            if has_prefix(s, prefix.as_bytes()) {
                return (LineKind::Comment, None);
            }
        }
        if let Some((open, close)) = line.lang.block_comment {
            let open_bytes: &[u8] = open.as_bytes();
            let close_bytes: &[u8] = close.as_bytes();
            proof {
                lemma_find_bounds(s@, open_bytes@, 0);
            }
            if let Some(pos) = find_bytes(s, open_bytes) {
                let body: usize = pos + open_bytes.len();
                proof {
                    lemma_find_bounds(s@, close_bytes@, body as int);
                }
                match find_bytes_from(s, close_bytes, body) {
                    Some(q) => {
                        let after: usize = q + close_bytes.len();
                        if pos == 0 && after == n {
                            return (LineKind::Comment, None);
                        } else {
                            return (LineKind::Mixed, Some((after, n)));
                        }
                    },
                    None => {
                        line.ctx.in_block_comment = true;
                        let before: &[u8] = slice_subrange(s, 0, pos);
                        assert(before@ =~= s@.take(pos as int));
                        if is_blank(before) {
                            return (LineKind::Comment, None);
                        } else {
                            return (LineKind::Mixed, Some((0, pos)));
                        }
                    },
                }
            }
        }
        (LineKind::Code, None)
    }
}

/// Offset of the first number sign in `s` that no backslash stands directly
/// before.
pub fn find_marker(s: &[u8]) -> (r: Option<usize>)
    ensures
        match r {
            Some(i) => marker_from(s@, 0) == Some(i as int) && i < s@.len(),
            None => marker_from(s@, 0) is None,
        },
{
    let n: usize = s.len();
    let mut i: usize = 0;
    while i < n
        invariant
            i <= n,
            n == s@.len(),
            marker_from(s@, 0) == marker_from(s@, i as int),
        decreases n - i,
    {
        if s[i] == 0x23 && (i == 0 || s[i - 1] != 0x5C) {
            return Some(i);
        }
        i = i + 1;
    }
    None
}

/// A marker lies within the line.
proof fn lemma_marker_bounds(s: Seq<u8>, from: int)
    requires
        0 <= from,
    ensures
        marker_from(s, from) matches Some(i) ==> from <= i < s.len(),
    decreases s.len() - from,
{
    if from < s.len() && !(s[from] == 0x23 && (from == 0 || s[from - 1] != 0x5C)) {
        lemma_marker_bounds(s, from + 1);
    }
}

/// Classifies a line on which a doc-string closes at `end`.
fn close_doc(line: LineCtx, end: usize) -> (r: (LineKind, Option<(usize, usize)>))
    requires
        end + 3 <= line.trimmed@.len(),
    ensures
        agrees(r, after_doc_close(line.trimmed@, end as int, *old(line.ctx))),
        *final(line.ctx) == after_doc_close(line.trimmed@, end as int, *old(line.ctx)).ctx,
{
    let s: &[u8] = line.trimmed;
    let n: usize = s.len();
    let dq: [u8; 3] = [0x22u8, 0x22u8, 0x22u8];
    let sq: [u8; 3] = [0x27u8, 0x27u8, 0x27u8];
    assert(dq@ =~= double_quotes());
    assert(sq@ =~= single_quotes());
    line.ctx.in_string = false;
    if super::text::bytes_eq(s, dq.as_slice()) || super::text::bytes_eq(s, sq.as_slice()) {
        return (LineKind::Comment, None);
    }
    let after: &[u8] = slice_subrange(s, end + 3, n);
    assert(after@ =~= s@.skip(end + 3));
    if !is_blank(after) {
        (LineKind::Mixed, Some((end + 3, n)))
    } else {
        (LineKind::Comment, None)
    }
}

/// Classifies a line that begins with the three quotes `quotes`.
fn open_doc(line: LineCtx, quotes: &[u8]) -> (r: (LineKind, Option<(usize, usize)>))
    requires
        quotes@.len() == 3,
        starts_with(line.trimmed@, quotes@),
    ensures
        agrees(r, after_doc_open(line.trimmed@, quotes@, *old(line.ctx))),
        *final(line.ctx) == after_doc_open(line.trimmed@, quotes@, *old(line.ctx)).ctx,
{
    let s: &[u8] = line.trimmed;
    let n: usize = s.len();
    if find_bytes_from(s, quotes, 3).is_some() {
        return (LineKind::Comment, None);
    }
    line.ctx.in_string = true;
    let after: &[u8] = slice_subrange(s, 3, n);
    assert(after@ =~= s@.skip(3));
    if !is_blank(after) {
        (LineKind::Mixed, Some((3, n)))
    } else {
        (LineKind::Comment, None)
    }
}

impl Classifier for PythonClassifier {
    open spec fn classified(&self, s: Seq<u8>, ctx: LexCtx, rule: LangRule) -> Classified {
        classify_python(s, ctx, rule)
    }

    proof fn lemma_span(&self, s: Seq<u8>, ctx: LexCtx, rule: LangRule) {
        lemma_find_bounds(s, double_quotes(), 0);
        lemma_find_bounds(s, single_quotes(), 0);
        lemma_marker_bounds(s, 0);
    }

    fn classify(&self, line: LineCtx) -> (r: (LineKind, Option<(usize, usize)>)) {
        let s: &[u8] = line.trimmed;
        let n: usize = s.len();
        if n == 0 {
            return (LineKind::Blank, None);
        }
        let dq: [u8; 3] = [0x22u8, 0x22u8, 0x22u8];
        let sq: [u8; 3] = [0x27u8, 0x27u8, 0x27u8];
        assert(dq@ =~= double_quotes());
        assert(sq@ =~= single_quotes());
        proof {
            lemma_find_bounds(s@, double_quotes(), 0);
            lemma_find_bounds(s@, single_quotes(), 0);
        }
        if line.ctx.in_string {
            match find_bytes(s, dq.as_slice()) {
                Some(end) => {
                    return close_doc(line, end);
                },
                None => {},
            }
            match find_bytes(s, sq.as_slice()) {
                Some(end) => {
                    return close_doc(line, end);
                },
                None => {},
            }
            return (LineKind::Comment, None);
        }
        if has_prefix(s, dq.as_slice()) {
            return open_doc(line, dq.as_slice());
        }
        if has_prefix(s, sq.as_slice()) {
            return open_doc(line, sq.as_slice());
        }
        if let Some(prefix) = line.lang.line_comment {
            if has_prefix(s, prefix.as_bytes()) {
                return (LineKind::Comment, None);
            }
        }
        match find_marker(s) {
            Some(pos) => {
                let before: &[u8] = slice_subrange(s, 0, pos);
                assert(before@ =~= s@.take(pos as int));
                if !is_blank(before) {
                    (LineKind::Mixed, Some((0, pos)))
                } else {
                    (LineKind::Comment, None)
                }
            },
            None => (LineKind::Code, None),
        }
    }
}

} // verus!
