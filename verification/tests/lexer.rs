use toukei::langs::lang_def::LangDef;
use toukei::langs::lang_type::LangType;
use toukei::langs::registry::get_lang_def;
use toukei::syntax::classifier::{Classifier, DefaultClassifier, LineKind, PythonClassifier};
use toukei::syntax::lex_status::{FnCtx, LexCtx, LineCtx, PyCtx};
use toukei::syntax::lexer::{calc_indent, DefaultLexer, Lexer, MdLexer, PythonLexer};
use toukei::syntax::LexerFactory;

#[test]
fn count_simple_c_like() {
    let code = r#"
// 文件注释
#include <stdio.h>

/* 块注释
   第二行
*/
int add(int a, int b) {} // 函数声明

int main() {
    printf("hello\n");  // 行注释
    return 0;
}
"#;
    let stat = DefaultLexer::new(LangType::C)
        .lex(code.as_bytes())
        .unwrap();

    assert_eq!(stat.lines, 13);
    assert_eq!(stat.blanks, 3);
    assert_eq!(stat.comments, 4);
    assert_eq!(stat.code, 6);
    assert_eq!(stat.functions, 5);
}

#[test]
fn empty_file() {
    let code = "";
    let stat = DefaultLexer::new(LangType::Rust)
        .lex(code.as_bytes())
        .unwrap();
    assert_eq!(stat.lines, 0);
    assert_eq!(stat.blanks, 0);
    assert_eq!(stat.code, 0);
    assert_eq!(stat.functions, 0);
}

#[test]
fn count_simple_python() {
    let code = r#"#!/usr/bin/env python3
# This is a Python script example

import sys
import os

def hello_world():
    """Print hello world message."""
    print("Hello, World!")  # This prints a message

class MyClass:
    """A simple class."""

    def __init__(self, name):
        self.name = name

    def greet(self):
        return f"Hello, {self.name}!"

async def async_function():

    await some_async_call()

    print("Done")

if __name__ == "__main__":
    hello_world()
    obj = MyClass("Alice")
    print(obj.greet())
"#;
    let stat = PythonLexer::new()
        .lex(code.as_bytes())
        .unwrap();

    assert_eq!(stat.lines, 29);
    assert_eq!(stat.blanks, 9);
    assert_eq!(stat.comments, 4);
    assert_eq!(stat.code, 16);
    assert_eq!(stat.functions, 13);
}

fn classify_with(classifier: &dyn Classifier, def: &LangDef, ctx: &mut LexCtx, raw: &str) -> (LineKind, Option<(usize, usize)>) {
    classifier.classify(LineCtx::new(raw.as_bytes(), ctx, def))
}

#[test]
fn an_empty_file_has_no_counts_at_all() {
    for lang in [LangType::C, LangType::Rust, LangType::Python, LangType::Markdown, LangType::Json] {
        let stat = LexerFactory::get_lexer(lang).unwrap().lex(b"").unwrap();
        assert_eq!(
            (stat.lines, stat.blanks, stat.code, stat.comments, stat.functions, stat.classes),
            (0, 0, 0, 0, 0, 0)
        );
        assert_eq!(stat.lang, LangType::Unknown);
        assert_eq!(stat.path, "");
        assert_eq!(stat.name, "");
    }
}

#[test]
fn every_line_is_blank_comment_or_code() {
    let texts = [
        "fn a() {\n  /* x\n  y */ let z = 1; // t\n}\n\n// end",
        "\n\n\n",
        "x = 1 # c\n\"\"\"\ndoc\n\"\"\" y = 2\n",
        "/* never closed\ncode?\n",
    ];
    for lang in [LangType::Rust, LangType::C, LangType::Python, LangType::Lua, LangType::Html, LangType::Markdown] {
        for text in texts {
            let stat = LexerFactory::get_lexer(lang).unwrap().lex(text.as_bytes()).unwrap();
            assert_eq!(stat.lines, stat.blanks + stat.comments + stat.code);
        }
    }
}

#[test]
fn the_unknown_language_has_no_lexer_and_no_rules() {
    assert!(LexerFactory::get_lexer(LangType::Unknown).is_none());
    let error = DefaultLexer::new(LangType::Unknown).lex(b"x").unwrap_err();
    assert_eq!(error, "Language not supported");
}

#[test]
fn markdown_has_comments_but_no_functions() {
    let text = b"# Title\n\ntext {\n<!-- c -->\n<!--\nopen\n-->";
    let stat = MdLexer::new().lex(text).unwrap();
    assert_eq!((stat.lines, stat.blanks, stat.code, stat.comments), (7, 1, 2, 4));
    assert_eq!((stat.functions, stat.classes), (0, 0));
    let same = DefaultLexer::new(LangType::Markdown).lex(text).unwrap();
    assert_eq!((same.lines, same.blanks, same.code, same.comments), (7, 1, 2, 4));
}

#[test]
fn the_last_line_needs_no_line_feed_and_a_carriage_return_is_no_text() {
    let lexer = DefaultLexer::new(LangType::Rust);
    assert_eq!(lexer.lex(b"a").unwrap().lines, 1);
    assert_eq!(lexer.lex(b"a\n").unwrap().lines, 1);
    assert_eq!(lexer.lex(b"a\n\n").unwrap().lines, 2);
    let stat = lexer.lex(b"a\r\n\r\n// c\r\n").unwrap();
    assert_eq!((stat.lines, stat.blanks, stat.comments, stat.code), (3, 1, 1, 1));
}

#[test]
fn default_classifier_follows_block_comments() {
    let def = get_lang_def(&LangType::C).unwrap();
    let classifier = DefaultClassifier::new();
    let mut ctx = LexCtx::default();

    assert_eq!(classify_with(&classifier, &def, &mut ctx, "   "), (LineKind::Blank, None));
    assert_eq!(classify_with(&classifier, &def, &mut ctx, "  // note"), (LineKind::Comment, None));
    assert_eq!(classify_with(&classifier, &def, &mut ctx, "int x;"), (LineKind::Code, None));
    assert_eq!(classify_with(&classifier, &def, &mut ctx, "/* one */"), (LineKind::Comment, None));
    assert!(!ctx.in_block_comment);
    // code behind a comment that closes on the line: the span behind the close delimiter
    assert_eq!(classify_with(&classifier, &def, &mut ctx, "/* c */ int x;"), (LineKind::Mixed, Some((7, 14))));
    // a comment that closes at the end of a line of code leaves an empty span
    assert_eq!(classify_with(&classifier, &def, &mut ctx, "int x; /* c */"), (LineKind::Mixed, Some((14, 14))));
    // a comment that opens behind code
    assert_eq!(classify_with(&classifier, &def, &mut ctx, "int y; /* open"), (LineKind::Mixed, Some((0, 7))));
    assert!(ctx.in_block_comment);
    assert_eq!(classify_with(&classifier, &def, &mut ctx, "still // inside"), (LineKind::Comment, None));
    assert!(ctx.in_block_comment);
    assert_eq!(classify_with(&classifier, &def, &mut ctx, ""), (LineKind::Blank, None));
    assert!(ctx.in_block_comment);
    assert_eq!(classify_with(&classifier, &def, &mut ctx, "end */ int z;"), (LineKind::Mixed, Some((6, 13))));
    assert!(!ctx.in_block_comment);
    assert_eq!(classify_with(&classifier, &def, &mut ctx, "/* open"), (LineKind::Comment, None));
    assert!(ctx.in_block_comment);
    assert_eq!(classify_with(&classifier, &def, &mut ctx, "close */"), (LineKind::Comment, None));
    assert!(!ctx.in_block_comment);
}

#[test]
fn spans_are_byte_ranges_of_the_trimmed_line() {
    let def = get_lang_def(&LangType::C).unwrap();
    let classifier = DefaultClassifier::new();
    let mut ctx = LexCtx::default();
    // the two characters before the comment take six bytes
    assert_eq!(classify_with(&classifier, &def, &mut ctx, "  注释 /* open"), (LineKind::Mixed, Some((0, 7))));
    let mut ctx = LexCtx { in_block_comment: true, in_string: false };
    assert_eq!(classify_with(&classifier, &def, &mut ctx, "\u{3000}注 */ x\u{a0}"), (LineKind::Mixed, Some((6, 8))));
}

#[test]
fn a_language_without_comments_has_only_blank_and_code() {
    let def = get_lang_def(&LangType::Json).unwrap();
    let classifier = DefaultClassifier::new();
    let mut ctx = LexCtx { in_block_comment: true, in_string: false };
    assert_eq!(classify_with(&classifier, &def, &mut ctx, "// {"), (LineKind::Code, None));
    assert_eq!(classify_with(&classifier, &def, &mut ctx, " "), (LineKind::Blank, None));
}

#[test]
fn python_classifier_follows_doc_strings() {
    let def = get_lang_def(&LangType::Python).unwrap();
    let classifier = PythonClassifier::new();
    let mut ctx = LexCtx::default();

    assert_eq!(classify_with(&classifier, &def, &mut ctx, "# note"), (LineKind::Comment, None));
    assert_eq!(classify_with(&classifier, &def, &mut ctx, "x = 1"), (LineKind::Code, None));
    assert_eq!(classify_with(&classifier, &def, &mut ctx, "x = 1  # one"), (LineKind::Mixed, Some((0, 7))));
    assert_eq!(classify_with(&classifier, &def, &mut ctx, "\"\"\"one line\"\"\""), (LineKind::Comment, None));
    assert!(!ctx.in_string);
    assert_eq!(classify_with(&classifier, &def, &mut ctx, "'''"), (LineKind::Comment, None));
    assert!(ctx.in_string);
    assert_eq!(classify_with(&classifier, &def, &mut ctx, "x = 1  # inside"), (LineKind::Comment, None));
    assert_eq!(classify_with(&classifier, &def, &mut ctx, "'''"), (LineKind::Comment, None));
    assert!(!ctx.in_string);
    assert_eq!(classify_with(&classifier, &def, &mut ctx, "\"\"\"starts here"), (LineKind::Mixed, Some((3, 14))));
    assert!(ctx.in_string);
    assert_eq!(classify_with(&classifier, &def, &mut ctx, "ends\"\"\" x = 2"), (LineKind::Mixed, Some((7, 13))));
    assert!(!ctx.in_string);
    let mut ctx = LexCtx { in_block_comment: false, in_string: true };
    assert_eq!(classify_with(&classifier, &def, &mut ctx, "ends\"\"\"   "), (LineKind::Comment, None));
    assert!(!ctx.in_string);
}

#[test]
fn a_number_sign_behind_a_backslash_is_no_comment() {
    let def = get_lang_def(&LangType::Python).unwrap();
    let classifier = PythonClassifier::new();
    let mut ctx = LexCtx::default();
    assert_eq!(classify_with(&classifier, &def, &mut ctx, "x = '\\#'"), (LineKind::Code, None));
    assert_eq!(classify_with(&classifier, &def, &mut ctx, "x = '\\#' # c"), (LineKind::Mixed, Some((0, 9))));
}

#[test]
fn brace_depth_tracks_the_open_function() {
    let mut ctx = FnCtx::default();
    ctx.update(b"int main() {", true);
    assert_eq!((ctx.in_function, ctx.depth, ctx.prev), (true, 1, 1));
    ctx.begin_line();
    ctx.update(b"if (x) { y(); }", false);
    assert_eq!((ctx.in_function, ctx.depth, ctx.prev), (true, 1, 1));
    ctx.begin_line();
    // a nested signature does not begin the count again
    ctx.update(b"void inner() {", true);
    assert_eq!((ctx.in_function, ctx.depth), (true, 2));
    ctx.begin_line();
    ctx.update(b"}}", false);
    assert_eq!((ctx.in_function, ctx.depth, ctx.prev), (true, 0, 0));
    // the line behind the last closing brace is not in the function
    ctx.begin_line();
    assert!(!ctx.in_function);
    // the depth does not fall below zero
    ctx.update(b"}}}", false);
    assert_eq!(ctx.depth, 0);
    // braces count outside of functions too, and a signature starts at zero
    ctx.update(b"{{", false);
    assert_eq!((ctx.in_function, ctx.depth), (false, 2));
    ctx.update(b"f() {", true);
    assert_eq!((ctx.in_function, ctx.depth), (true, 1));
}

#[test]
fn indentation_tracks_the_open_function() {
    let mut ctx = PyCtx::default();
    assert!(!ctx.track(4));
    ctx.signature();
    assert!(ctx.fn_def_line);
    ctx.begin_line();
    assert_eq!((ctx.in_fn, ctx.fn_def_line, ctx.base_indent), (true, false, 4));
    assert!(ctx.track(8));
    assert!(ctx.track(5));
    assert!(!ctx.track(4));
    assert!(!ctx.in_fn);
    assert!(!ctx.track(8));
}

#[test]
fn a_tab_is_four_columns_and_any_other_space_one() {
    assert_eq!(calc_indent(b""), 0);
    assert_eq!(calc_indent(b"x"), 0);
    assert_eq!(calc_indent(b"    x  "), 4);
    assert_eq!(calc_indent(b"\t x"), 5);
    assert_eq!(calc_indent(b"\t\t"), 8);
    assert_eq!(calc_indent("\u{3000}\u{a0}\tx".as_bytes()), 6);
}

#[test]
fn lines_in_function_bodies_count_not_functions() {
    let code = "fn a() {\n    1\n}\nfn b() { 2 }\nstruct S;\nfn c()\n{\n}\n";
    let stat = DefaultLexer::new(LangType::Rust).lex(code.as_bytes()).unwrap();
    // a: three lines; b: one line; c: the signature line only, its depth being zero
    assert_eq!(stat.functions, 5);
    assert_eq!(stat.classes, 1);
    assert_eq!(stat.code, 8);
}

#[test]
fn blank_and_comment_lines_in_a_body_are_credited_to_it() {
    let code = "int f() {\n\n// c\n}\nint x;\n";
    let stat = DefaultLexer::new(LangType::C).lex(code.as_bytes()).unwrap();
    assert_eq!(stat.functions, 4);
    assert_eq!((stat.lines, stat.blanks, stat.comments, stat.code), (5, 1, 1, 3));
}

#[test]
fn python_functions_end_where_the_indentation_returns() {
    let code = "def f():\n    a = 1\n\n    # c\n    b = 2\nc = 3\n";
    let stat = PythonLexer::new().lex(code.as_bytes()).unwrap();
    // the signature, and the two lines of code in the body
    assert_eq!(stat.functions, 3);
    assert_eq!((stat.lines, stat.blanks, stat.comments, stat.code), (6, 1, 1, 4));
}

#[test]
fn python_classes_are_counted_once_per_line() {
    let code = "class A:\n    x = 1\nclass B(A):\n    pass\n";
    let stat = PythonLexer::new().lex(code.as_bytes()).unwrap();
    assert_eq!(stat.classes, 2);
}
