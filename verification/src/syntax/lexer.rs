//! Lexers: a scan of one file's text that classifies every line and tracks
//! the extent of function bodies.

use vstd::prelude::*;
use vstd::slice::slice_subrange;
use crate::langs::lang_def::{LangDef, LangRule};
use crate::langs::lang_type::LangType;
use crate::langs::pattern::{any_pattern_matches, compile, patterns_compile, set_is_match};
use crate::langs::registry::{get_lang_def, rule_of};
use crate::stats::{Counts, FileStat};
use super::classifier::{
    classify_python, Classified, Classifier, DefaultClassifier, LineKind, PythonClassifier,
};
use super::lex_status::{lemma_brace_depth, Extent, FnCtx, Indented, LexCtx, LineCtx, PyCtx};
use super::text::{
    indent, indent_of, lemma_total_len_bounds, lines, split_lines, total_len, trim, views,
};

verus! {

/// The code that a line of category `c.kind` holds: the whole trimmed line
/// `s` of a code line, the span of a mixed line, nothing of any other.
pub open spec fn code_of(s: Seq<u8>, c: Classified) -> Option<Seq<u8>> {
    match c.kind {
        LineKind::Code => Some(s),
        LineKind::Mixed => match c.span {
            Some((a, b)) => Some(s.subrange(a, b)),
            None => None,
        },
        _ => None,
    }
}

/// The counters after one more line of category `kind`. A mixed line counts
/// as code, a documentation comment as comment.
pub open spec fn tally(counts: Counts, kind: LineKind) -> Counts {
    Counts {
        lines: counts.lines + 1,
        code: counts.code + (if kind == LineKind::Code || kind == LineKind::Mixed {
            1nat
        } else {
            0nat
        }),
        comments: counts.comments + (if kind == LineKind::Comment || kind == LineKind::DocComment {
            1nat
        } else {
            0nat
        }),
        blanks: counts.blanks + (if kind == LineKind::Blank {
            1nat
        } else {
            0nat
        }),
        functions: counts.functions,
        classes: counts.classes,
    }
}

/// The counters with `functions` and `classes` more function and class lines.
pub open spec fn credit(counts: Counts, functions: nat, classes: nat) -> Counts {
    Counts {
        lines: counts.lines,
        code: counts.code,
        comments: counts.comments,
        blanks: counts.blanks,
        functions: counts.functions + functions,
        classes: counts.classes + classes,
    }
}

/// One if `b` holds, else zero.
pub open spec fn one_if(b: bool) -> nat {
    if b {
        1
    } else {
        0
    }
}

/// Whether the code of a line matches one of the class patterns.
pub open spec fn is_class_line(code: Option<Seq<u8>>, rule: LangRule) -> bool {
    code matches Some(text) && any_pattern_matches(rule.class_patterns, text)
}

/// Whether the code of a line matches one of the function-signature patterns.
pub open spec fn is_signature_line(code: Option<Seq<u8>>, rule: LangRule) -> bool {
    code matches Some(text) && any_pattern_matches(rule.function_patterns, text)
}

/// The state of a scan under the brace-depth policy.
pub struct BraceScan {
    pub ctx: LexCtx,
    pub extent: Extent,
    pub counts: Counts,
}

/// The state of a scan under the indentation policy.
pub struct IndentScan {
    pub ctx: LexCtx,
    pub extent: Indented,
    pub counts: Counts,
}

/// The state in which every scan starts.
pub open spec fn fresh() -> LexCtx {
    LexCtx { in_block_comment: false, in_string: false }
}

/// The brace-depth policy on one line `raw`: a function that closed on the
/// line before is left first; the line is classified; its code, if it has
/// any, is searched for a signature and its braces are counted; the line is
/// credited to `functions` if a function is open after that, and to
/// `classes` if its code matches a class pattern.
pub open spec fn brace_step<C: Classifier>(
    classifier: C,
    st: BraceScan,
    raw: Seq<u8>,
    rule: LangRule,
) -> BraceScan {
    let s = trim(raw);
    let c = classifier.classified(s, st.ctx, rule);
    let code = code_of(s, c);
    let begun = st.extent.begin_line();
    let extent = match code {
        Some(text) => begun.update(text, any_pattern_matches(rule.function_patterns, text)),
        None => begun,
    };
    BraceScan {
        ctx: c.ctx,
        extent,
        counts: credit(
            tally(st.counts, c.kind),
            one_if(extent.in_function),
            one_if(is_class_line(code, rule)),
        ),
    }
}

/// The brace-depth policy on all of `lines`, from the first to the last.
pub open spec fn brace_fold<C: Classifier>(
    classifier: C,
    lines: Seq<Seq<u8>>,
    rule: LangRule,
) -> BraceScan
    decreases lines.len(),
{
    if lines.len() == 0 {
        BraceScan { ctx: fresh(), extent: Extent::start(), counts: Counts::zero() }
    } else {
        brace_step(classifier, brace_fold(classifier, lines.drop_last(), rule), lines.last(), rule)
    }
}

/// Whether the indentation of a line is looked at: not that of a blank line,
/// nor that of a line that begins with a number sign.
pub open spec fn is_tracked(s: Seq<u8>) -> bool {
    s.len() > 0 && s[0] != 0x23
}

/// The indentation policy on one line `raw`: the function whose signature
/// stood on the line before is entered first; the line is classified; code
/// that matches a signature pattern credits the line to `functions` at once
/// and defers the entry to the next line; a line that is neither blank nor a
/// number-sign comment is then measured, leaves the open function if it is
/// indented no deeper than the function's base, and is credited once more if
/// it lies in the function.
pub open spec fn indent_step(st: IndentScan, raw: Seq<u8>, rule: LangRule) -> IndentScan {
    let s = trim(raw);
    let c = classify_python(s, st.ctx, rule);
    let code = code_of(s, c);
    let begun = st.extent.begin_line();
    let noted = if is_signature_line(code, rule) {
        begun.signature()
    } else {
        begun
    };
    let extent = if is_tracked(s) {
        noted.track(indent(raw))
    } else {
        noted
    };
    IndentScan {
        ctx: c.ctx,
        extent,
        counts: credit(
            tally(st.counts, c.kind),
            one_if(is_signature_line(code, rule)) + one_if(is_tracked(s) && extent.in_fn),
            one_if(is_class_line(code, rule)),
        ),
    }
}

/// The indentation policy on all of `lines`, from the first to the last.
pub open spec fn indent_fold(lines: Seq<Seq<u8>>, rule: LangRule) -> IndentScan
    decreases lines.len(),
{
    if lines.len() == 0 {
        IndentScan { ctx: fresh(), extent: Indented::start(), counts: Counts::zero() }
    } else {
        indent_step(indent_fold(lines.drop_last(), rule), lines.last(), rule)
    }
}

/// Whether both pattern lists of `rule` compile.
pub open spec fn rule_compiles(rule: LangRule) -> bool {
    patterns_compile(rule.function_patterns) && patterns_compile(rule.class_patterns)
}

/// A way to count the lines of a file's text.
pub trait Lexer: Send + Sync {
    /// The counters that this lexer gives for `text`; none where it has no
    /// rules to count by.
    spec fn counted(&self, text: Seq<u8>) -> Option<Counts>;

    /// The message with which this lexer refuses a text that it has no rules
    /// to count by.
    spec fn refusal(&self) -> Seq<char>;

    /// Counts the lines of `text`. The record that comes back names no
    /// language, path or file yet.
    fn lex(&self, text: &[u8]) -> (r: Result<FileStat, String>)
        requires
            text@.len() <= usize::MAX / 4,
        ensures
            r matches Ok(stat) ==> self.counted(text@) == Some(stat.counts()),
            r matches Ok(stat) ==> stat.lang == LangType::Unknown && stat.path@.len() == 0
                && stat.name@.len() == 0,
            r is Err <==> self.counted(text@) is None,
            r matches Err(msg) ==> msg@ == self.refusal(),
            r matches Ok(stat) ==> (text@.len() == 0 ==> stat.counts() == Counts::zero()),
            r matches Ok(stat) ==> stat.counts().balanced(),
    ;
}

/// The lexer of the languages that delimit bodies with braces.
pub struct DefaultLexer<C: Classifier = DefaultClassifier> {
    pub lang_type: LangType,
    pub classifier: C,
}

impl DefaultLexer {
    pub fn new(lang: LangType) -> (lexer: Self)
        ensures
            lexer.lang_type == lang,
    {
        DefaultLexer { lang_type: lang, classifier: DefaultClassifier }
    }
}

/// What the counters are bounded by after `n` lines under the brace-depth
/// policy.
spec fn brace_bounds(st: BraceScan, n: nat, bytes: nat) -> bool {
    &&& st.counts.lines == n
    &&& st.counts.balanced()
    &&& st.counts.functions <= n
    &&& st.counts.classes <= n
    &&& 0 <= st.extent.depth <= bytes
    &&& st.extent.prev == st.extent.depth
}

proof fn lemma_brace_step_bounds<C: Classifier>(
    classifier: C,
    st: BraceScan,
    raw: Seq<u8>,
    rule: LangRule,
    n: nat,
    bytes: nat,
)
    requires
        brace_bounds(st, n, bytes),
    ensures
        brace_bounds(brace_step(classifier, st, raw, rule), n + 1, bytes + raw.len()),
{
    let s = trim(raw);
    super::text::lemma_trim_len(raw);
    classifier.lemma_span(s, st.ctx, rule);
    let c = classifier.classified(s, st.ctx, rule);
    match code_of(s, c) {
        Some(text) => {
            lemma_brace_depth(text, 0);
            lemma_brace_depth(text, st.extent.depth);
        },
        None => {},
    }
}

impl<C: Classifier> Lexer for DefaultLexer<C> {
    open spec fn counted(&self, text: Seq<u8>) -> Option<Counts> {
        match rule_of(self.lang_type) {
            Some(rule) => if rule_compiles(rule) {
                Some(brace_fold(self.classifier, lines(text), rule).counts)
            } else {
                None
            },
            None => None,
        }
    }

    open spec fn refusal(&self) -> Seq<char> {
        if rule_of(self.lang_type) is None {
            "Language not supported"@
        } else {
            "Language patterns not supported"@
        }
    }

    fn lex(&self, text: &[u8]) -> (r: Result<FileStat, String>) {
        let def: LangDef = match get_lang_def(&self.lang_type) {
            Some(def) => def,
            None => {
                return Err("Language not supported".to_owned());
            },
        };
        let signatures = match compile(&def.function_patterns) {
            Some(set) => set,
            None => {
                return Err("Language patterns not supported".to_owned());
            },
        };
        let classes = match compile(&def.class_patterns) {
            Some(set) => set,
            None => {
                return Err("Language patterns not supported".to_owned());
            },
        };
        let ghost rule = def@;
        let all: Vec<&[u8]> = split_lines(text);
        let ghost model = views(all@);
        let mut stat = FileStat::default();
        let mut ctx = LexCtx::default();
        let mut fn_ctx = FnCtx::default();
        let mut i: usize = 0;
        assert(model.take(0) =~= Seq::<Seq<u8>>::empty());
        while i < all.len()
            invariant
                i <= all@.len(),
                model == views(all@),
                model == lines(text@),
                all@.len() <= text@.len(),
                total_len(model) <= text@.len(),
                text@.len() <= usize::MAX / 4,
                rule == def@,
                crate::langs::pattern::set_patterns(signatures) == rule.function_patterns,
                crate::langs::pattern::set_patterns(classes) == rule.class_patterns,
                stat.lang == LangType::Unknown,
                stat.path@.len() == 0,
                stat.name@.len() == 0,
                (BraceScan { ctx, extent: fn_ctx@, counts: stat.counts() }) == brace_fold(
                    self.classifier,
                    model.take(i as int),
                    rule,
                ),
                brace_bounds(
                    brace_fold(self.classifier, model.take(i as int), rule),
                    i as nat,
                    total_len(model.take(i as int)),
                ),
            decreases all@.len() - i,
        {
            let raw: &[u8] = all[i];
            let ghost before = brace_fold(self.classifier, model.take(i as int), rule);
            proof {
                assert(model[i as int] == raw@);
                assert(model.take(i + 1).drop_last() =~= model.take(i as int));
                assert(model.take(i + 1).last() == raw@);
                lemma_total_len_bounds(model, i as int);
                lemma_brace_step_bounds(
                    self.classifier,
                    before,
                    raw@,
                    rule,
                    i as nat,
                    total_len(model.take(i as int)),
                );
                super::text::lemma_total_len_push(model.take(i as int), raw@);
                assert(model.take(i + 1) =~= model.take(i as int).push(raw@));
                self.classifier.lemma_span(trim(raw@), ctx, rule);
            }
            fn_ctx.begin_line();
            let line = LineCtx::new(raw, &mut ctx, &def);
            let trimmed: &[u8] = line.trimmed;
            let (kind, pos) = self.classifier.classify(line);
            stat.lines = stat.lines + 1;
            let mut code: Option<&[u8]> = None;
            match kind {
                LineKind::Blank => {
                    stat.blanks = stat.blanks + 1;
                },
                LineKind::Comment | LineKind::DocComment => {
                    stat.comments = stat.comments + 1;
                },
                LineKind::Code => {
                    stat.code = stat.code + 1;
                    code = Some(trimmed);
                },
                LineKind::Mixed => {
                    stat.code = stat.code + 1;
                    if let Some((start, end)) = pos {
                        code = Some(slice_subrange(trimmed, start, end));
                    }
                },
            }
            if let Some(part) = code {
                let matched: bool = if fn_ctx.in_function {
                    false
                } else {
                    set_is_match(&signatures, part)
                };
                fn_ctx.update(part, matched);
                if set_is_match(&classes, part) {
                    stat.classes = stat.classes + 1;
                }
            }
            if fn_ctx.in_function {
                stat.functions = stat.functions + 1;
            }
            i = i + 1;
        }
        assert(model.take(all@.len() as int) =~= model);
        proof {
            if text@.len() == 0 {
                assert(model =~= Seq::<Seq<u8>>::empty());
            }
        }
        Ok(stat)
    }
}

/// The lexer of the languages that delimit bodies by indentation.
#[derive(Debug, Clone, Copy)]
pub struct PythonLexer;

impl PythonLexer {
    pub fn new() -> Self {
        PythonLexer
    }
}

/// Indentation of a line in columns: a tab counts four, any other
/// white-space character one.
pub fn calc_indent(raw: &[u8]) -> (r: usize)
    requires
        raw@.len() <= usize::MAX / 4,
    ensures
        r == indent(raw@),
{
    indent_of(raw)
}

/// What the counters are bounded by after `n` lines under the indentation
/// policy.
spec fn indent_bounds(st: IndentScan, n: nat) -> bool {
    &&& st.counts.lines == n
    &&& st.counts.balanced()
    &&& st.counts.functions <= 2 * n
    &&& st.counts.classes <= n
}

impl Lexer for PythonLexer {
    open spec fn counted(&self, text: Seq<u8>) -> Option<Counts> {
        match rule_of(LangType::Python) {
            Some(rule) => if rule_compiles(rule) {
                Some(indent_fold(lines(text), rule).counts)
            } else {
                None
            },
            None => None,
        }
    }

    open spec fn refusal(&self) -> Seq<char> {
        "Python language not supported"@
    }

    fn lex(&self, text: &[u8]) -> (r: Result<FileStat, String>) {
        let def: LangDef = match get_lang_def(&LangType::Python) {
            Some(def) => def,
            None => {
                return Err("Python language not supported".to_owned());
            },
        };
        let signatures = match compile(&def.function_patterns) {
            Some(set) => set,
            None => {
                return Err("Python language not supported".to_owned());
            },
        };
        let classes = match compile(&def.class_patterns) {
            Some(set) => set,
            None => {
                return Err("Python language not supported".to_owned());
            },
        };
        let ghost rule = def@;
        let classifier = PythonClassifier::new();
        let all: Vec<&[u8]> = split_lines(text);
        let ghost model = views(all@);
        let mut stat = FileStat::default();
        let mut ctx = LexCtx::default();
        let mut py = PyCtx::default();
        let mut i: usize = 0;
        assert(model.take(0) =~= Seq::<Seq<u8>>::empty());
        while i < all.len()
            invariant
                i <= all@.len(),
                model == views(all@),
                model == lines(text@),
                all@.len() <= text@.len(),
                total_len(model) <= text@.len(),
                text@.len() <= usize::MAX / 4,
                rule == def@,
                crate::langs::pattern::set_patterns(signatures) == rule.function_patterns,
                crate::langs::pattern::set_patterns(classes) == rule.class_patterns,
                stat.lang == LangType::Unknown,
                stat.path@.len() == 0,
                stat.name@.len() == 0,
                (IndentScan { ctx, extent: py@, counts: stat.counts() }) == indent_fold(
                    model.take(i as int),
                    rule,
                ),
                indent_bounds(indent_fold(model.take(i as int), rule), i as nat),
            decreases all@.len() - i,
        {
            let raw: &[u8] = all[i];
            proof {
                assert(model[i as int] == raw@);
                assert(model.take(i + 1).drop_last() =~= model.take(i as int));
                assert(model.take(i + 1).last() == raw@);
                lemma_total_len_bounds(model, i as int);
                classifier.lemma_span(trim(raw@), ctx, rule);
            }
            py.begin_line();
            let line = LineCtx::new(raw, &mut ctx, &def);
            let trimmed: &[u8] = line.trimmed;
            let (kind, pos) = classifier.classify(line);
            stat.lines = stat.lines + 1;
            let mut code: Option<&[u8]> = None;
            match kind {
                LineKind::Blank => {
                    stat.blanks = stat.blanks + 1;
                },
                LineKind::Comment | LineKind::DocComment => {
                    stat.comments = stat.comments + 1;
                },
                LineKind::Code => {
                    stat.code = stat.code + 1;
                    code = Some(trimmed);
                },
                LineKind::Mixed => {
                    stat.code = stat.code + 1;
                    if let Some((start, end)) = pos {
                        code = Some(slice_subrange(trimmed, start, end));
                    }
                },
            }
            if let Some(part) = code {
                if set_is_match(&signatures, part) {
                    py.signature();
                    stat.functions = stat.functions + 1;
                }
                if set_is_match(&classes, part) {
                    stat.classes = stat.classes + 1;
                }
            }
            if trimmed.len() > 0 && trimmed[0] != 0x23 {
                let columns: usize = calc_indent(raw);
                if py.track(columns) {
                    stat.functions = stat.functions + 1;
                }
            }
            i = i + 1;
        }
        assert(model.take(all@.len() as int) =~= model);
        proof {
            if text@.len() == 0 {
                assert(model =~= Seq::<Seq<u8>>::empty());
            }
        }
        Ok(stat)
    }
}

/// The lexer of Markdown: it classifies the lines by the comment rules of
/// Markdown and looks for no functions or classes.
#[derive(Debug, Clone, Copy)]
pub struct MdLexer;

impl MdLexer {
    pub fn new() -> Self {
        MdLexer
    }
}

impl Lexer for MdLexer {
    open spec fn counted(&self, text: Seq<u8>) -> Option<Counts> {
        Lexer::counted(
            &(DefaultLexer { lang_type: LangType::Markdown, classifier: DefaultClassifier }),
            text,
        )
    }

    open spec fn refusal(&self) -> Seq<char> {
        Lexer::refusal(
            &(DefaultLexer { lang_type: LangType::Markdown, classifier: DefaultClassifier }),
        )
    }

    fn lex(&self, text: &[u8]) -> (r: Result<FileStat, String>) {
        DefaultLexer::new(LangType::Markdown).lex(text)
    }
}

} // verus!
