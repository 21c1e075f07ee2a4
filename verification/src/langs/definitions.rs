//! The table of language definitions: one rule set per language family.

use vstd::prelude::*;
use super::lang_def::{LangDef, LangRule};

verus! {

/// The rules of AsciiDoc.
pub open spec fn asciidoc_rule() -> LangRule {
    LangRule {
        name: "AsciiDoc"@,
        extensions: seq!["adoc"@, "asciidoc"@, "asc"@],
        line_comment: None,
        block_comment: None,
        doc_comment: None,
        function_patterns: Seq::empty(),
        class_patterns: Seq::empty(),
    }
}

/// Builds the definition of AsciiDoc.
pub fn asciidoc() -> (d: LangDef)
    ensures
        d@ == asciidoc_rule(),
{
    let d = LangDef {
        name: "AsciiDoc",
        extensions: vec!["adoc", "asciidoc", "asc"],
        line_comment: None,
        block_comment: None,
        doc_comment: None,
        function_patterns: Vec::new(),
        class_patterns: Vec::new(),
    };
    assert(d@.extensions =~= asciidoc_rule().extensions);
    assert(d@.function_patterns =~= asciidoc_rule().function_patterns);
    assert(d@.class_patterns =~= asciidoc_rule().class_patterns);
    d
}

/// The rules of Astro.
pub open spec fn astro_rule() -> LangRule {
    LangRule {
        name: "Astro"@,
        extensions: seq!["astro"@],
        line_comment: Some("//"@),
        block_comment: Some(("/*"@, "*/"@)),
        doc_comment: None,
        function_patterns: seq!["function"@, "const"@, "let"@, "async function"@],
        class_patterns: Seq::empty(),
    }
}

/// Builds the definition of Astro.
pub fn astro() -> (d: LangDef)
    ensures
        d@ == astro_rule(),
{
    let d = LangDef {
        name: "Astro",
        extensions: vec!["astro"],
        line_comment: Some("//"),
        block_comment: Some(("/*", "*/")),
        doc_comment: None,
        function_patterns: vec!["function", "const", "let", "async function"],
        class_patterns: Vec::new(),
    };
    assert(d@.extensions =~= astro_rule().extensions);
    assert(d@.function_patterns =~= astro_rule().function_patterns);
    assert(d@.class_patterns =~= astro_rule().class_patterns);
    d
}

/// The rules of C.
pub open spec fn c_rule() -> LangRule {
    LangRule {
        name: "C"@,
        extensions: seq!["c"@, "h"@],
        line_comment: Some("//"@),
        block_comment: Some(("/*"@, "*/"@)),
        doc_comment: Some("/**"@),
        function_patterns: seq![r"\w+\s+\w+\s*\([^)]*\)\s*\{"@, r"\w+\s+\*\w+\s*\([^)]*\)\s*\{"@],
        class_patterns: seq![r"typedef\s+struct\s+\w+"@],
    }
}

/// Builds the definition of C.
pub fn c() -> (d: LangDef)
    ensures
        d@ == c_rule(),
{
    let d = LangDef {
        name: "C",
        extensions: vec!["c", "h"],
        line_comment: Some("//"),
        block_comment: Some(("/*", "*/")),
        doc_comment: Some("/**"),
        function_patterns: vec![r"\w+\s+\w+\s*\([^)]*\)\s*\{", r"\w+\s+\*\w+\s*\([^)]*\)\s*\{"],
        class_patterns: vec![r"typedef\s+struct\s+\w+"],
    };
    assert(d@.extensions =~= c_rule().extensions);
    assert(d@.function_patterns =~= c_rule().function_patterns);
    assert(d@.class_patterns =~= c_rule().class_patterns);
    d
}

/// The rules of Clojure.
pub open spec fn clojure_rule() -> LangRule {
    LangRule {
        name: "Clojure"@,
        extensions: seq!["clj"@, "cljs"@, "cljc"@, "edn"@],
        line_comment: Some(";;"@),
        block_comment: None,
        doc_comment: None,
        function_patterns: seq!["\\(defn\\s+"@, "\\(def\\s+"@, "\\(defmacro\\s+"@],
        class_patterns: seq!["\\(defrecord\\s+"@],
    }
}

/// Builds the definition of Clojure.
pub fn clojure() -> (d: LangDef)
    ensures
        d@ == clojure_rule(),
{
    let d = LangDef {
        name: "Clojure",
        extensions: vec!["clj", "cljs", "cljc", "edn"],
        line_comment: Some(";;"),
        block_comment: None,
        doc_comment: None,
        function_patterns: vec!["\\(defn\\s+", "\\(def\\s+", "\\(defmacro\\s+"],
        class_patterns: vec!["\\(defrecord\\s+"],
    };
    assert(d@.extensions =~= clojure_rule().extensions);
    assert(d@.function_patterns =~= clojure_rule().function_patterns);
    assert(d@.class_patterns =~= clojure_rule().class_patterns);
    d
}

/// The rules of C++.
pub open spec fn cpp_rule() -> LangRule {
    LangRule {
        name: "C++"@,
        extensions: seq!["cpp"@, "cxx"@, "cc"@, "c++"@, "hpp"@, "hxx"@, "hh"@, "h++"@],
        line_comment: Some("//"@),
        block_comment: Some(("/*"@, "*/"@)),
        doc_comment: Some("/**"@),
        function_patterns: seq![r"\w+\s+\w+\s*\([^)]*\)\s*\{"@, r"\w+\s+\*\w+\s*\([^)]*\)\s*\{"@, r"\w+\s+&\w+\s*\([^)]*\)\s*\{"@],
        class_patterns: seq![r"class\s+\w+"@],
    }
}

/// Builds the definition of C++.
pub fn cpp() -> (d: LangDef)
    ensures
        d@ == cpp_rule(),
{
    let d = LangDef {
        name: "C++",
        extensions: vec!["cpp", "cxx", "cc", "c++", "hpp", "hxx", "hh", "h++"],
        line_comment: Some("//"),
        block_comment: Some(("/*", "*/")),
        doc_comment: Some("/**"),
        function_patterns: vec![r"\w+\s+\w+\s*\([^)]*\)\s*\{", r"\w+\s+\*\w+\s*\([^)]*\)\s*\{", r"\w+\s+&\w+\s*\([^)]*\)\s*\{"],
        class_patterns: vec![r"class\s+\w+"],
    };
    assert(d@.extensions =~= cpp_rule().extensions);
    assert(d@.function_patterns =~= cpp_rule().function_patterns);
    assert(d@.class_patterns =~= cpp_rule().class_patterns);
    d
}

/// The rules of C#.
pub open spec fn csharp_rule() -> LangRule {
    LangRule {
        name: "C#"@,
        extensions: seq!["cs"@],
        line_comment: Some("//"@),
        block_comment: Some(("/*"@, "*/"@)),
        doc_comment: Some("///"@),
        function_patterns: seq![r"\w+\s+\w+\s*\([^)]*\)\s*\{"@, r"public\s+\w+\s+\w+\s*\([^)]*\)\s*\{"@],
        class_patterns: seq![r"class\s+\w+"@],
    }
}

/// Builds the definition of C#.
pub fn csharp() -> (d: LangDef)
    ensures
        d@ == csharp_rule(),
{
    let d = LangDef {
        name: "C#",
        extensions: vec!["cs"],
        line_comment: Some("//"),
        block_comment: Some(("/*", "*/")),
        doc_comment: Some("///"),
        function_patterns: vec![r"\w+\s+\w+\s*\([^)]*\)\s*\{", r"public\s+\w+\s+\w+\s*\([^)]*\)\s*\{"],
        class_patterns: vec![r"class\s+\w+"],
    };
    assert(d@.extensions =~= csharp_rule().extensions);
    assert(d@.function_patterns =~= csharp_rule().function_patterns);
    assert(d@.class_patterns =~= csharp_rule().class_patterns);
    d
}

/// The rules of CSS.
pub open spec fn css_rule() -> LangRule {
    LangRule {
        name: "CSS"@,
        extensions: seq!["css"@],
        line_comment: None,
        block_comment: Some(("/*"@, "*/"@)),
        doc_comment: None,
        function_patterns: seq!["@\\w+\\s+"@, "\\w+\\s*\\{"@],
        class_patterns: seq!["\\.\\w+"@],
    }
}

/// Builds the definition of CSS.
pub fn css() -> (d: LangDef)
    ensures
        d@ == css_rule(),
{
    let d = LangDef {
        name: "CSS",
        extensions: vec!["css"],
        line_comment: None,
        block_comment: Some(("/*", "*/")),
        doc_comment: None,
        function_patterns: vec!["@\\w+\\s+", "\\w+\\s*\\{"],
        class_patterns: vec!["\\.\\w+"],
    };
    assert(d@.extensions =~= css_rule().extensions);
    assert(d@.function_patterns =~= css_rule().function_patterns);
    assert(d@.class_patterns =~= css_rule().class_patterns);
    d
}

/// The rules of D.
pub open spec fn d_rule() -> LangRule {
    LangRule {
        name: "D"@,
        extensions: seq!["d"@, "di"@],
        line_comment: Some("//"@),
        block_comment: Some(("/*"@, "*/"@)),
        doc_comment: Some("/**"@),
        function_patterns: seq![r"\w+\s+\w+\s*\([^)]*\)\s*\{"@, r"\w+\s+\*\w+\s*\([^)]*\)\s*\{"@],
        class_patterns: seq!["class\\s+\\w+"@],
    }
}

/// Builds the definition of D.
pub fn d() -> (d: LangDef)
    ensures
        d@ == d_rule(),
{
    let d = LangDef {
        name: "D",
        extensions: vec!["d", "di"],
        line_comment: Some("//"),
        block_comment: Some(("/*", "*/")),
        doc_comment: Some("/**"),
        function_patterns: vec![r"\w+\s+\w+\s*\([^)]*\)\s*\{", r"\w+\s+\*\w+\s*\([^)]*\)\s*\{"],
        class_patterns: vec!["class\\s+\\w+"],
    };
    assert(d@.extensions =~= d_rule().extensions);
    assert(d@.function_patterns =~= d_rule().function_patterns);
    assert(d@.class_patterns =~= d_rule().class_patterns);
    d
}

/// The rules of Dart.
pub open spec fn dart_rule() -> LangRule {
    LangRule {
        name: "Dart"@,
        extensions: seq!["dart"@],
        line_comment: Some("//"@),
        block_comment: Some(("/*"@, "*/"@)),
        doc_comment: Some("///"@),
        function_patterns: seq![r"\w+\s+\w+\s*\([^)]*\)\s*\{"@, r"\w+\s+\w+\s*\([^)]*\)\s*async"@],
        class_patterns: seq!["class\\s+\\w+"@],
    }
}

/// Builds the definition of Dart.
pub fn dart() -> (d: LangDef)
    ensures
        d@ == dart_rule(),
{
    let d = LangDef {
        name: "Dart",
        extensions: vec!["dart"],
        line_comment: Some("//"),
        block_comment: Some(("/*", "*/")),
        doc_comment: Some("///"),
        function_patterns: vec![r"\w+\s+\w+\s*\([^)]*\)\s*\{", r"\w+\s+\w+\s*\([^)]*\)\s*async"],
        class_patterns: vec!["class\\s+\\w+"],
    };
    assert(d@.extensions =~= dart_rule().extensions);
    assert(d@.function_patterns =~= dart_rule().function_patterns);
    assert(d@.class_patterns =~= dart_rule().class_patterns);
    d
}

/// The rules of Elm.
pub open spec fn elm_rule() -> LangRule {
    LangRule {
        name: "Elm"@,
        extensions: seq!["elm"@],
        line_comment: Some("--"@),
        block_comment: Some(("{-"@, "-}"@)),
        doc_comment: Some("{-|"@),
        function_patterns: seq!["\\w+\\s*:\\s+"@, "\\w+\\s+\\w+\\s*="@],
        class_patterns: seq!["type\\s+\\w+"@],
    }
}

/// Builds the definition of Elm.
pub fn elm() -> (d: LangDef)
    ensures
        d@ == elm_rule(),
{
    let d = LangDef {
        name: "Elm",
        extensions: vec!["elm"],
        line_comment: Some("--"),
        block_comment: Some(("{-", "-}")),
        doc_comment: Some("{-|"),
        function_patterns: vec!["\\w+\\s*:\\s+", "\\w+\\s+\\w+\\s*="],
        class_patterns: vec!["type\\s+\\w+"],
    };
    assert(d@.extensions =~= elm_rule().extensions);
    assert(d@.function_patterns =~= elm_rule().function_patterns);
    assert(d@.class_patterns =~= elm_rule().class_patterns);
    d
}

/// The rules of Erlang.
pub open spec fn erlang_rule() -> LangRule {
    LangRule {
        name: "Erlang"@,
        extensions: seq!["erl"@, "hrl"@],
        line_comment: Some("%"@),
        block_comment: None,
        doc_comment: None,
        function_patterns: seq!["\\w+\\s*\\([^)]*\\)\\s*->"@],
        class_patterns: seq!["-module\\s+\\w+"@],
    }
}

/// Builds the definition of Erlang.
pub fn erlang() -> (d: LangDef)
    ensures
        d@ == erlang_rule(),
{
    let d = LangDef {
        name: "Erlang",
        extensions: vec!["erl", "hrl"],
        line_comment: Some("%"),
        block_comment: None,
        doc_comment: None,
        function_patterns: vec!["\\w+\\s*\\([^)]*\\)\\s*->"],
        class_patterns: vec!["-module\\s+\\w+"],
    };
    assert(d@.extensions =~= erlang_rule().extensions);
    assert(d@.function_patterns =~= erlang_rule().function_patterns);
    assert(d@.class_patterns =~= erlang_rule().class_patterns);
    d
}

/// The rules of F#.
pub open spec fn fsharp_rule() -> LangRule {
    LangRule {
        name: "F#"@,
        extensions: seq!["fs"@, "fsi"@, "fsx"@, "fsscript"@],
        line_comment: Some("//"@),
        block_comment: Some(("(*"@, "*)"@)),
        doc_comment: Some("///"@),
        function_patterns: seq!["let\\s+\\w+"@, "member\\s+\\w+\\."@],
        class_patterns: seq!["type\\s+\\w+"@],
    }
}

/// Builds the definition of F#.
pub fn fsharp() -> (d: LangDef)
    ensures
        d@ == fsharp_rule(),
{
    let d = LangDef {
        name: "F#",
        extensions: vec!["fs", "fsi", "fsx", "fsscript"],
        line_comment: Some("//"),
        block_comment: Some(("(*", "*)")),
        doc_comment: Some("///"),
        function_patterns: vec!["let\\s+\\w+", "member\\s+\\w+\\."],
        class_patterns: vec!["type\\s+\\w+"],
    };
    assert(d@.extensions =~= fsharp_rule().extensions);
    assert(d@.function_patterns =~= fsharp_rule().function_patterns);
    assert(d@.class_patterns =~= fsharp_rule().class_patterns);
    d
}

/// The rules of Go.
pub open spec fn go_rule() -> LangRule {
    LangRule {
        name: "Go"@,
        extensions: seq!["go"@],
        line_comment: Some("//"@),
        block_comment: Some(("/*"@, "*/"@)),
        doc_comment: None,
        function_patterns: seq!["func\\s+\\w+\\s*\\([^)]*\\)"@],
        class_patterns: seq!["type\\s+\\w+\\s+struct"@],
    }
}

/// Builds the definition of Go.
pub fn go() -> (d: LangDef)
    ensures
        d@ == go_rule(),
{
    let d = LangDef {
        name: "Go",
        extensions: vec!["go"],
        line_comment: Some("//"),
        block_comment: Some(("/*", "*/")),
        doc_comment: None,
        function_patterns: vec!["func\\s+\\w+\\s*\\([^)]*\\)"],
        class_patterns: vec!["type\\s+\\w+\\s+struct"],
    };
    assert(d@.extensions =~= go_rule().extensions);
    assert(d@.function_patterns =~= go_rule().function_patterns);
    assert(d@.class_patterns =~= go_rule().class_patterns);
    d
}

/// The rules of GraphQL.
pub open spec fn graphql_rule() -> LangRule {
    LangRule {
        name: "GraphQL"@,
        extensions: seq!["graphql"@, "gql"@],
        line_comment: Some("#"@),
        block_comment: None,
        doc_comment: Some("\"\"\""@),
        function_patterns: seq!["type\\s+\\w+"@, "interface\\s+\\w+"@, "query\\s+\\w+"@],
        class_patterns: seq!["type\\s+\\w+"@],
    }
}

/// Builds the definition of GraphQL.
pub fn graphql() -> (d: LangDef)
    ensures
        d@ == graphql_rule(),
{
    let d = LangDef {
        name: "GraphQL",
        extensions: vec!["graphql", "gql"],
        line_comment: Some("#"),
        block_comment: None,
        doc_comment: Some("\"\"\""),
        function_patterns: vec!["type\\s+\\w+", "interface\\s+\\w+", "query\\s+\\w+"],
        class_patterns: vec!["type\\s+\\w+"],
    };
    assert(d@.extensions =~= graphql_rule().extensions);
    assert(d@.function_patterns =~= graphql_rule().function_patterns);
    assert(d@.class_patterns =~= graphql_rule().class_patterns);
    d
}

/// The rules of Haskell.
pub open spec fn haskell_rule() -> LangRule {
    LangRule {
        name: "Haskell"@,
        extensions: seq!["hs"@, "lhs"@],
        line_comment: Some("--"@),
        block_comment: Some(("{-"@, "-}"@)),
        doc_comment: Some("{-|"@),
        function_patterns: seq!["\\w+\\s*::"@, "\\w+\\s+\\w+\\s*="@],
        class_patterns: seq!["data\\s+\\w+"@, "class\\s+\\w+"@],
    }
}

/// Builds the definition of Haskell.
pub fn haskell() -> (d: LangDef)
    ensures
        d@ == haskell_rule(),
{
    let d = LangDef {
        name: "Haskell",
        extensions: vec!["hs", "lhs"],
        line_comment: Some("--"),
        block_comment: Some(("{-", "-}")),
        doc_comment: Some("{-|"),
        function_patterns: vec!["\\w+\\s*::", "\\w+\\s+\\w+\\s*="],
        class_patterns: vec!["data\\s+\\w+", "class\\s+\\w+"],
    };
    assert(d@.extensions =~= haskell_rule().extensions);
    assert(d@.function_patterns =~= haskell_rule().function_patterns);
    assert(d@.class_patterns =~= haskell_rule().class_patterns);
    d
}

/// The rules of HTML.
pub open spec fn html_rule() -> LangRule {
    LangRule {
        name: "HTML"@,
        extensions: seq!["html"@, "htm"@, "xhtml"@],
        line_comment: None,
        block_comment: Some(("<!--"@, "-->"@)),
        doc_comment: None,
        function_patterns: seq!["<script"@, "<function"@],
        class_patterns: seq!["class\\s*=\\s*\""@],
    }
}

/// Builds the definition of HTML.
pub fn html() -> (d: LangDef)
    ensures
        d@ == html_rule(),
{
    let d = LangDef {
        name: "HTML",
        extensions: vec!["html", "htm", "xhtml"],
        line_comment: None,
        block_comment: Some(("<!--", "-->")),
        doc_comment: None,
        function_patterns: vec!["<script", "<function"],
        class_patterns: vec!["class\\s*=\\s*\""],
    };
    assert(d@.extensions =~= html_rule().extensions);
    assert(d@.function_patterns =~= html_rule().function_patterns);
    assert(d@.class_patterns =~= html_rule().class_patterns);
    d
}

/// The rules of Java.
pub open spec fn java_rule() -> LangRule {
    LangRule {
        name: "Java"@,
        extensions: seq!["java"@, "class"@, "jar"@],
        line_comment: Some("//"@),
        block_comment: Some(("/*"@, "*/"@)),
        doc_comment: Some("/**"@),
        function_patterns: seq!["\\w+\\s+\\w+\\s*\\([^)]*\\)\\s*\\{"@, "public\\s+\\w+\\s+\\w+\\s*\\([^)]*\\)\\s*\\{"@],
        class_patterns: seq!["class\\s+\\w+"@, "interface\\s+\\w+"@],
    }
}

/// Builds the definition of Java.
pub fn java() -> (d: LangDef)
    ensures
        d@ == java_rule(),
{
    let d = LangDef {
        name: "Java",
        extensions: vec!["java", "class", "jar"],
        line_comment: Some("//"),
        block_comment: Some(("/*", "*/")),
        doc_comment: Some("/**"),
        function_patterns: vec!["\\w+\\s+\\w+\\s*\\([^)]*\\)\\s*\\{", "public\\s+\\w+\\s+\\w+\\s*\\([^)]*\\)\\s*\\{"],
        class_patterns: vec!["class\\s+\\w+", "interface\\s+\\w+"],
    };
    assert(d@.extensions =~= java_rule().extensions);
    assert(d@.function_patterns =~= java_rule().function_patterns);
    assert(d@.class_patterns =~= java_rule().class_patterns);
    d
}

/// The rules of JavaScript.
pub open spec fn javascript_rule() -> LangRule {
    LangRule {
        name: "JavaScript"@,
        extensions: seq!["js"@, "jsx"@, "mjs"@, "cjs"@],
        line_comment: Some("//"@),
        block_comment: Some(("/*"@, "*/"@)),
        doc_comment: Some("/**"@),
        function_patterns: seq!["function\\s+\\w+"@, "const\\s+\\w+\\s*=\\s*\\("@, "\\w+\\s*:\\s*function"@],
        class_patterns: seq!["class\\s+\\w+"@],
    }
}

/// Builds the definition of JavaScript.
pub fn javascript() -> (d: LangDef)
    ensures
        d@ == javascript_rule(),
{
    let d = LangDef {
        name: "JavaScript",
        extensions: vec!["js", "jsx", "mjs", "cjs"],
        line_comment: Some("//"),
        block_comment: Some(("/*", "*/")),
        doc_comment: Some("/**"),
        function_patterns: vec!["function\\s+\\w+", "const\\s+\\w+\\s*=\\s*\\(", "\\w+\\s*:\\s*function"],
        class_patterns: vec!["class\\s+\\w+"],
    };
    assert(d@.extensions =~= javascript_rule().extensions);
    assert(d@.function_patterns =~= javascript_rule().function_patterns);
    assert(d@.class_patterns =~= javascript_rule().class_patterns);
    d
}

/// The rules of JSON.
pub open spec fn json_rule() -> LangRule {
    LangRule {
        name: "JSON"@,
        extensions: seq!["json"@, "jsonc"@],
        line_comment: None,
        block_comment: None,
        doc_comment: None,
        function_patterns: Seq::empty(),
        class_patterns: Seq::empty(),
    }
}

/// Builds the definition of JSON.
pub fn json() -> (d: LangDef)
    ensures
        d@ == json_rule(),
{
    let d = LangDef {
        name: "JSON",
        extensions: vec!["json", "jsonc"],
        line_comment: None,
        block_comment: None,
        doc_comment: None,
        function_patterns: Vec::new(),
        class_patterns: Vec::new(),
    };
    assert(d@.extensions =~= json_rule().extensions);
    assert(d@.function_patterns =~= json_rule().function_patterns);
    assert(d@.class_patterns =~= json_rule().class_patterns);
    d
}

/// The rules of Jsonnet.
pub open spec fn jsonnet_rule() -> LangRule {
    LangRule {
        name: "Jsonnet"@,
        extensions: seq!["jsonnet"@, "libsonnet"@],
        line_comment: Some("//"@),
        block_comment: Some(("/*"@, "*/"@)),
        doc_comment: Some("/**"@),
        function_patterns: seq!["function\\s+\\w+"@, "local\\s+\\w+"@],
        class_patterns: Seq::empty(),
    }
}

/// Builds the definition of Jsonnet.
pub fn jsonnet() -> (d: LangDef)
    ensures
        d@ == jsonnet_rule(),
{
    let d = LangDef {
        name: "Jsonnet",
        extensions: vec!["jsonnet", "libsonnet"],
        line_comment: Some("//"),
        block_comment: Some(("/*", "*/")),
        doc_comment: Some("/**"),
        function_patterns: vec!["function\\s+\\w+", "local\\s+\\w+"],
        class_patterns: Vec::new(),
    };
    assert(d@.extensions =~= jsonnet_rule().extensions);
    assert(d@.function_patterns =~= jsonnet_rule().function_patterns);
    assert(d@.class_patterns =~= jsonnet_rule().class_patterns);
    d
}

/// The rules of Julia.
pub open spec fn julia_rule() -> LangRule {
    LangRule {
        name: "Julia"@,
        extensions: seq!["jl"@],
        line_comment: Some("#"@),
        block_comment: Some(("#="@, "=#"@)),
        doc_comment: None,
        function_patterns: seq!["function\\s+\\w+"@, "\\w+\\s*\\([^)]*\\)\\s*="@],
        class_patterns: seq!["struct\\s+\\w+"@, "type\\s+\\w+"@],
    }
}

/// Builds the definition of Julia.
pub fn julia() -> (d: LangDef)
    ensures
        d@ == julia_rule(),
{
    let d = LangDef {
        name: "Julia",
        extensions: vec!["jl"],
        line_comment: Some("#"),
        block_comment: Some(("#=", "=#")),
        doc_comment: None,
        function_patterns: vec!["function\\s+\\w+", "\\w+\\s*\\([^)]*\\)\\s*="],
        class_patterns: vec!["struct\\s+\\w+", "type\\s+\\w+"],
    };
    assert(d@.extensions =~= julia_rule().extensions);
    assert(d@.function_patterns =~= julia_rule().function_patterns);
    assert(d@.class_patterns =~= julia_rule().class_patterns);
    d
}

/// The rules of Kotlin.
pub open spec fn kotlin_rule() -> LangRule {
    LangRule {
        name: "Kotlin"@,
        extensions: seq!["kt"@, "kts"@, "ktm"@],
        line_comment: Some("//"@),
        block_comment: Some(("/*"@, "*/"@)),
        doc_comment: Some("/**"@),
        function_patterns: seq!["fun\\s+\\w+"@, "val\\s+\\w+"@, "var\\s+\\w+"@],
        class_patterns: seq!["class\\s+\\w+"@, "interface\\s+\\w+"@, "object\\s+\\w+"@],
    }
}

/// Builds the definition of Kotlin.
pub fn kotlin() -> (d: LangDef)
    ensures
        d@ == kotlin_rule(),
{
    let d = LangDef {
        name: "Kotlin",
        extensions: vec!["kt", "kts", "ktm"],
        line_comment: Some("//"),
        block_comment: Some(("/*", "*/")),
        doc_comment: Some("/**"),
        function_patterns: vec!["fun\\s+\\w+", "val\\s+\\w+", "var\\s+\\w+"],
        class_patterns: vec!["class\\s+\\w+", "interface\\s+\\w+", "object\\s+\\w+"],
    };
    assert(d@.extensions =~= kotlin_rule().extensions);
    assert(d@.function_patterns =~= kotlin_rule().function_patterns);
    assert(d@.class_patterns =~= kotlin_rule().class_patterns);
    d
}

/// The rules of Lua.
pub open spec fn lua_rule() -> LangRule {
    LangRule {
        name: "Lua"@,
        extensions: seq!["lua"@, "wlua"@],
        line_comment: Some("--"@),
        block_comment: Some(("--[["@, "]]"@)),
        doc_comment: None,
        function_patterns: seq!["function\\s+\\w+"@, "local\\s+function\\s+\\w+"@],
        class_patterns: Seq::empty(),
    }
}

/// Builds the definition of Lua.
pub fn lua() -> (d: LangDef)
    ensures
        d@ == lua_rule(),
{
    let d = LangDef {
        name: "Lua",
        extensions: vec!["lua", "wlua"],
        line_comment: Some("--"),
        block_comment: Some(("--[[", "]]")),
        doc_comment: None,
        function_patterns: vec!["function\\s+\\w+", "local\\s+function\\s+\\w+"],
        class_patterns: Vec::new(),
    };
    assert(d@.extensions =~= lua_rule().extensions);
    assert(d@.function_patterns =~= lua_rule().function_patterns);
    assert(d@.class_patterns =~= lua_rule().class_patterns);
    d
}

/// The rules of Markdown.
pub open spec fn markdown_rule() -> LangRule {
    LangRule {
        name: "Markdown"@,
        extensions: seq!["md"@, "markdown"@, "mdown"@, "mkdn"@],
        line_comment: None,
        block_comment: Some(("<!--"@, "-->"@)),
        doc_comment: None,
        function_patterns: Seq::empty(),
        class_patterns: Seq::empty(),
    }
}

/// Builds the definition of Markdown.
pub fn markdown() -> (d: LangDef)
    ensures
        d@ == markdown_rule(),
{
    let d = LangDef {
        name: "Markdown",
        extensions: vec!["md", "markdown", "mdown", "mkdn"],
        line_comment: None,
        block_comment: Some(("<!--", "-->")),
        doc_comment: None,
        function_patterns: Vec::new(),
        class_patterns: Vec::new(),
    };
    assert(d@.extensions =~= markdown_rule().extensions);
    assert(d@.function_patterns =~= markdown_rule().function_patterns);
    assert(d@.class_patterns =~= markdown_rule().class_patterns);
    d
}

/// The rules of Nix.
pub open spec fn nix_rule() -> LangRule {
    LangRule {
        name: "Nix"@,
        extensions: seq!["nix"@],
        line_comment: Some("#"@),
        block_comment: Some(("/*"@, "*/"@)),
        doc_comment: None,
        function_patterns: seq!["\\w+\\s*="@, "\\w+\\s*:"@],
        class_patterns: Seq::empty(),
    }
}

/// Builds the definition of Nix.
pub fn nix() -> (d: LangDef)
    ensures
        d@ == nix_rule(),
{
    let d = LangDef {
        name: "Nix",
        extensions: vec!["nix"],
        line_comment: Some("#"),
        block_comment: Some(("/*", "*/")),
        doc_comment: None,
        function_patterns: vec!["\\w+\\s*=", "\\w+\\s*:"],
        class_patterns: Vec::new(),
    };
    assert(d@.extensions =~= nix_rule().extensions);
    assert(d@.function_patterns =~= nix_rule().function_patterns);
    assert(d@.class_patterns =~= nix_rule().class_patterns);
    d
}

/// The rules of OCaml.
pub open spec fn ocaml_rule() -> LangRule {
    LangRule {
        name: "OCaml"@,
        extensions: seq!["ml"@, "mli"@, "cmi"@, "cmo"@, "cmx"@],
        line_comment: None,
        block_comment: Some(("(*"@, "*)"@)),
        doc_comment: Some("(**"@),
        function_patterns: seq!["let\\s+\\w+"@, "let rec\\s+\\w+"@],
        class_patterns: seq!["type\\s+\\w+"@, "module\\s+\\w+"@, "class\\s+\\w+"@],
    }
}

/// Builds the definition of OCaml.
pub fn ocaml() -> (d: LangDef)
    ensures
        d@ == ocaml_rule(),
{
    let d = LangDef {
        name: "OCaml",
        extensions: vec!["ml", "mli", "cmi", "cmo", "cmx"],
        line_comment: None,
        block_comment: Some(("(*", "*)")),
        doc_comment: Some("(**"),
        function_patterns: vec!["let\\s+\\w+", "let rec\\s+\\w+"],
        class_patterns: vec!["type\\s+\\w+", "module\\s+\\w+", "class\\s+\\w+"],
    };
    assert(d@.extensions =~= ocaml_rule().extensions);
    assert(d@.function_patterns =~= ocaml_rule().function_patterns);
    assert(d@.class_patterns =~= ocaml_rule().class_patterns);
    d
}

/// The rules of Perl.
pub open spec fn perl_rule() -> LangRule {
    LangRule {
        name: "Perl"@,
        extensions: seq!["pl"@, "pm"@],
        line_comment: Some("#"@),
        block_comment: None,
        doc_comment: None,
        function_patterns: seq!["sub\\s+\\w+"@],
        class_patterns: seq!["class\\s+\\w+"@],
    }
}

/// Builds the definition of Perl.
pub fn perl() -> (d: LangDef)
    ensures
        d@ == perl_rule(),
{
    let d = LangDef {
        name: "Perl",
        extensions: vec!["pl", "pm"],
        line_comment: Some("#"),
        block_comment: None,
        doc_comment: None,
        function_patterns: vec!["sub\\s+\\w+"],
        class_patterns: vec!["class\\s+\\w+"],
    };
    assert(d@.extensions =~= perl_rule().extensions);
    assert(d@.function_patterns =~= perl_rule().function_patterns);
    assert(d@.class_patterns =~= perl_rule().class_patterns);
    d
}

/// The rules of PHP.
pub open spec fn php_rule() -> LangRule {
    LangRule {
        name: "PHP"@,
        extensions: seq!["php"@, "phtml"@, "php3"@, "php4"@, "php5"@, "phps"@, "phpt"@],
        line_comment: Some("//"@),
        block_comment: Some(("/*"@, "*/"@)),
        doc_comment: Some("/**"@),
        function_patterns: seq!["function\\s+\\w+"@, "\\w+\\s+\\w+\\s*\\([^)]*\\)\\s*\\{"@],
        class_patterns: seq!["class\\s+\\w+"@, "interface\\s+\\w+"@],
    }
}

/// Builds the definition of PHP.
pub fn php() -> (d: LangDef)
    ensures
        d@ == php_rule(),
{
    let d = LangDef {
        name: "PHP",
        extensions: vec!["php", "phtml", "php3", "php4", "php5", "phps", "phpt"],
        line_comment: Some("//"),
        block_comment: Some(("/*", "*/")),
        doc_comment: Some("/**"),
        function_patterns: vec!["function\\s+\\w+", "\\w+\\s+\\w+\\s*\\([^)]*\\)\\s*\\{"],
        class_patterns: vec!["class\\s+\\w+", "interface\\s+\\w+"],
    };
    assert(d@.extensions =~= php_rule().extensions);
    assert(d@.function_patterns =~= php_rule().function_patterns);
    assert(d@.class_patterns =~= php_rule().class_patterns);
    d
}

/// The rules of Python.
pub open spec fn python_rule() -> LangRule {
    LangRule {
        name: "Python"@,
        extensions: seq!["py"@, "pyi"@, "pyc"@, "pyd"@, "pyw"@, "pyz"@, "pyzw"@],
        line_comment: Some("#"@),
        block_comment: Some(("\"\"\""@, "\"\"\""@)),
        doc_comment: Some("\"\"\""@),
        function_patterns: seq!["def\\s+\\w+"@, "class\\s+\\w+"@, "async\\s+def\\s+\\w+"@],
        class_patterns: seq!["class\\s+\\w+"@],
    }
}

/// Builds the definition of Python.
pub fn python() -> (d: LangDef)
    ensures
        d@ == python_rule(),
{
    let d = LangDef {
        name: "Python",
        extensions: vec!["py", "pyi", "pyc", "pyd", "pyw", "pyz", "pyzw"],
        line_comment: Some("#"),
        block_comment: Some(("\"\"\"", "\"\"\"")),
        doc_comment: Some("\"\"\""),
        function_patterns: vec!["def\\s+\\w+", "class\\s+\\w+", "async\\s+def\\s+\\w+"],
        class_patterns: vec!["class\\s+\\w+"],
    };
    assert(d@.extensions =~= python_rule().extensions);
    assert(d@.function_patterns =~= python_rule().function_patterns);
    assert(d@.class_patterns =~= python_rule().class_patterns);
    d
}

/// The rules of QCL.
pub open spec fn qcl_rule() -> LangRule {
    LangRule {
        name: "QCL"@,
        extensions: seq!["qcl"@],
        line_comment: Some("//"@),
        block_comment: Some(("/*"@, "*/"@)),
        doc_comment: Some("/**"@),
        function_patterns: seq!["\\w+\\s+\\w+\\s*\\([^)]*\\)\\s*\\{"@, "procedure\\s+\\w+"@],
        class_patterns: Seq::empty(),
    }
}

/// Builds the definition of QCL.
pub fn qcl() -> (d: LangDef)
    ensures
        d@ == qcl_rule(),
{
    let d = LangDef {
        name: "QCL",
        extensions: vec!["qcl"],
        line_comment: Some("//"),
        block_comment: Some(("/*", "*/")),
        doc_comment: Some("/**"),
        function_patterns: vec!["\\w+\\s+\\w+\\s*\\([^)]*\\)\\s*\\{", "procedure\\s+\\w+"],
        class_patterns: Vec::new(),
    };
    assert(d@.extensions =~= qcl_rule().extensions);
    assert(d@.function_patterns =~= qcl_rule().function_patterns);
    assert(d@.class_patterns =~= qcl_rule().class_patterns);
    d
}

/// The rules of Q#.
pub open spec fn qsharp_rule() -> LangRule {
    LangRule {
        name: "Q#"@,
        extensions: seq!["qs"@],
        line_comment: Some("//"@),
        block_comment: Some(("/*"@, "*/"@)),
        doc_comment: Some("/**"@),
        function_patterns: seq!["operation\\s+\\w+"@, "function\\s+\\w+"@],
        class_patterns: Seq::empty(),
    }
}

/// Builds the definition of Q#.
pub fn qsharp() -> (d: LangDef)
    ensures
        d@ == qsharp_rule(),
{
    let d = LangDef {
        name: "Q#",
        extensions: vec!["qs"],
        line_comment: Some("//"),
        block_comment: Some(("/*", "*/")),
        doc_comment: Some("/**"),
        function_patterns: vec!["operation\\s+\\w+", "function\\s+\\w+"],
        class_patterns: Vec::new(),
    };
    assert(d@.extensions =~= qsharp_rule().extensions);
    assert(d@.function_patterns =~= qsharp_rule().function_patterns);
    assert(d@.class_patterns =~= qsharp_rule().class_patterns);
    d
}

/// The rules of R.
pub open spec fn r_rule() -> LangRule {
    LangRule {
        name: "R"@,
        extensions: seq!["r"@, "R"@, "s"@, "Rhistory"@, "Rprofile"@, "Renviron"@],
        line_comment: Some("#"@),
        block_comment: None,
        doc_comment: None,
        function_patterns: seq!["\\w+\\s*<-\\s*function"@, "\\w+\\s*\\([^)]*\\)"@],
        class_patterns: Seq::empty(),
    }
}

/// Builds the definition of R.
pub fn r() -> (d: LangDef)
    ensures
        d@ == r_rule(),
{
    let d = LangDef {
        name: "R",
        extensions: vec!["r", "R", "s", "Rhistory", "Rprofile", "Renviron"],
        line_comment: Some("#"),
        block_comment: None,
        doc_comment: None,
        function_patterns: vec!["\\w+\\s*<-\\s*function", "\\w+\\s*\\([^)]*\\)"],
        class_patterns: Vec::new(),
    };
    assert(d@.extensions =~= r_rule().extensions);
    assert(d@.function_patterns =~= r_rule().function_patterns);
    assert(d@.class_patterns =~= r_rule().class_patterns);
    d
}

/// The rules of Regex.
pub open spec fn regex_rule() -> LangRule {
    LangRule {
        name: "Regex"@,
        extensions: seq!["regex"@],
        line_comment: None,
        block_comment: None,
        doc_comment: None,
        function_patterns: Seq::empty(),
        class_patterns: Seq::empty(),
    }
}

/// Builds the definition of Regex.
pub fn regex() -> (d: LangDef)
    ensures
        d@ == regex_rule(),
{
    let d = LangDef {
        name: "Regex",
        extensions: vec!["regex"],
        line_comment: None,
        block_comment: None,
        doc_comment: None,
        function_patterns: Vec::new(),
        class_patterns: Vec::new(),
    };
    assert(d@.extensions =~= regex_rule().extensions);
    assert(d@.function_patterns =~= regex_rule().function_patterns);
    assert(d@.class_patterns =~= regex_rule().class_patterns);
    d
}

/// The rules of Ruby.
pub open spec fn ruby_rule() -> LangRule {
    LangRule {
        name: "Ruby"@,
        extensions: seq!["rb"@, "rbw"@, "gemspec"@, "rake"@, "ru"@, "erb"@],
        line_comment: Some("#"@),
        block_comment: Some(("=begin"@, "=end"@)),
        doc_comment: None,
        function_patterns: seq!["def\\s+\\w+"@, "def\\s+self\\.\\w+"@, "class\\s+\\w+"@, "module\\s+\\w+"@],
        class_patterns: seq!["class\\s+\\w+"@, "module\\s+\\w+"@],
    }
}

/// Builds the definition of Ruby.
pub fn ruby() -> (d: LangDef)
    ensures
        d@ == ruby_rule(),
{
    let d = LangDef {
        name: "Ruby",
        extensions: vec!["rb", "rbw", "gemspec", "rake", "ru", "erb"],
        line_comment: Some("#"),
        block_comment: Some(("=begin", "=end")),
        doc_comment: None,
        function_patterns: vec!["def\\s+\\w+", "def\\s+self\\.\\w+", "class\\s+\\w+", "module\\s+\\w+"],
        class_patterns: vec!["class\\s+\\w+", "module\\s+\\w+"],
    };
    assert(d@.extensions =~= ruby_rule().extensions);
    assert(d@.function_patterns =~= ruby_rule().function_patterns);
    assert(d@.class_patterns =~= ruby_rule().class_patterns);
    d
}

/// The rules of Rust.
pub open spec fn rust_rule() -> LangRule {
    LangRule {
        name: "Rust"@,
        extensions: seq!["rs"@],
        line_comment: Some("//"@),
        block_comment: Some(("/*"@, "*/"@)),
        doc_comment: Some("///"@),
        function_patterns: seq!["fn\\s+\\w+"@, "pub\\s+fn\\s+\\w+"@, "async\\s+fn\\s+\\w+"@],
        class_patterns: seq!["struct\\s+\\w+"@, "enum\\s+\\w+"@, "impl\\s+\\w+"@],
    }
}

/// Builds the definition of Rust.
pub fn rust() -> (d: LangDef)
    ensures
        d@ == rust_rule(),
{
    let d = LangDef {
        name: "Rust",
        extensions: vec!["rs"],
        line_comment: Some("//"),
        block_comment: Some(("/*", "*/")),
        doc_comment: Some("///"),
        function_patterns: vec!["fn\\s+\\w+", "pub\\s+fn\\s+\\w+", "async\\s+fn\\s+\\w+"],
        class_patterns: vec!["struct\\s+\\w+", "enum\\s+\\w+", "impl\\s+\\w+"],
    };
    assert(d@.extensions =~= rust_rule().extensions);
    assert(d@.function_patterns =~= rust_rule().function_patterns);
    assert(d@.class_patterns =~= rust_rule().class_patterns);
    d
}

/// The rules of Sass.
pub open spec fn sass_rule() -> LangRule {
    LangRule {
        name: "Sass"@,
        extensions: seq!["sass"@, "scss"@],
        line_comment: Some("//"@),
        block_comment: Some(("/*"@, "*/"@)),
        doc_comment: None,
        function_patterns: seq!["@\\w+\\s+"@, "\\w+\\s*\\{"@],
        class_patterns: seq!["\\.\\w+"@, "%\\w+"@],
    }
}

/// Builds the definition of Sass.
pub fn sass() -> (d: LangDef)
    ensures
        d@ == sass_rule(),
{
    let d = LangDef {
        name: "Sass",
        extensions: vec!["sass", "scss"],
        line_comment: Some("//"),
        block_comment: Some(("/*", "*/")),
        doc_comment: None,
        function_patterns: vec!["@\\w+\\s+", "\\w+\\s*\\{"],
        class_patterns: vec!["\\.\\w+", "%\\w+"],
    };
    assert(d@.extensions =~= sass_rule().extensions);
    assert(d@.function_patterns =~= sass_rule().function_patterns);
    assert(d@.class_patterns =~= sass_rule().class_patterns);
    d
}

/// The rules of Scala.
pub open spec fn scala_rule() -> LangRule {
    LangRule {
        name: "Scala"@,
        extensions: seq!["scala"@, "sc"@, "sbt"@],
        line_comment: Some("//"@),
        block_comment: Some(("/*"@, "*/"@)),
        doc_comment: Some("/**"@),
        function_patterns: seq!["def\\s+\\w+"@, "val\\s+\\w+"@, "var\\s+\\w+"@],
        class_patterns: seq!["class\\s+\\w+"@, "object\\s+\\w+"@, "trait\\s+\\w+"@],
    }
}

/// Builds the definition of Scala.
pub fn scala() -> (d: LangDef)
    ensures
        d@ == scala_rule(),
{
    let d = LangDef {
        name: "Scala",
        extensions: vec!["scala", "sc", "sbt"],
        line_comment: Some("//"),
        block_comment: Some(("/*", "*/")),
        doc_comment: Some("/**"),
        function_patterns: vec!["def\\s+\\w+", "val\\s+\\w+", "var\\s+\\w+"],
        class_patterns: vec!["class\\s+\\w+", "object\\s+\\w+", "trait\\s+\\w+"],
    };
    assert(d@.extensions =~= scala_rule().extensions);
    assert(d@.function_patterns =~= scala_rule().function_patterns);
    assert(d@.class_patterns =~= scala_rule().class_patterns);
    d
}

/// The rules of Shell.
pub open spec fn shell_rule() -> LangRule {
    LangRule {
        name: "Shell"@,
        extensions: seq!["sh"@, "bash"@, "zsh"@, "ksh"@, "csh"@],
        line_comment: Some("#"@),
        block_comment: None,
        doc_comment: None,
        function_patterns: seq!["function\\s+\\w+"@, "\\w+\\s*\\(\\s*\\)"@],
        class_patterns: Seq::empty(),
    }
}

/// Builds the definition of Shell.
pub fn shell() -> (d: LangDef)
    ensures
        d@ == shell_rule(),
{
    let d = LangDef {
        name: "Shell",
        extensions: vec!["sh", "bash", "zsh", "ksh", "csh"],
        line_comment: Some("#"),
        block_comment: None,
        doc_comment: None,
        function_patterns: vec!["function\\s+\\w+", "\\w+\\s*\\(\\s*\\)"],
        class_patterns: Vec::new(),
    };
    assert(d@.extensions =~= shell_rule().extensions);
    assert(d@.function_patterns =~= shell_rule().function_patterns);
    assert(d@.class_patterns =~= shell_rule().class_patterns);
    d
}

/// The rules of SQL.
pub open spec fn sql_rule() -> LangRule {
    LangRule {
        name: "SQL"@,
        extensions: seq!["sql"@, "ddl"@, "dml"@],
        line_comment: Some("--"@),
        block_comment: Some(("/*"@, "*/"@)),
        doc_comment: None,
        function_patterns: seq!["CREATE\\s+\\w+"@, "ALTER\\s+\\w+"@, "DROP\\s+\\w+"@, "SELECT\\s+"@],
        class_patterns: seq!["CREATE\\s+TABLE\\s+\\w+"@],
    }
}

/// Builds the definition of SQL.
pub fn sql() -> (d: LangDef)
    ensures
        d@ == sql_rule(),
{
    let d = LangDef {
        name: "SQL",
        extensions: vec!["sql", "ddl", "dml"],
        line_comment: Some("--"),
        block_comment: Some(("/*", "*/")),
        doc_comment: None,
        function_patterns: vec!["CREATE\\s+\\w+", "ALTER\\s+\\w+", "DROP\\s+\\w+", "SELECT\\s+"],
        class_patterns: vec!["CREATE\\s+TABLE\\s+\\w+"],
    };
    assert(d@.extensions =~= sql_rule().extensions);
    assert(d@.function_patterns =~= sql_rule().function_patterns);
    assert(d@.class_patterns =~= sql_rule().class_patterns);
    d
}

/// The rules of Swift.
pub open spec fn swift_rule() -> LangRule {
    LangRule {
        name: "Swift"@,
        extensions: seq!["swift"@, "swiftinterface"@, "swiftmodule"@],
        line_comment: Some("//"@),
        block_comment: Some(("/*"@, "*/"@)),
        doc_comment: Some("///"@),
        function_patterns: seq!["func\\s+\\w+"@, "init\\s*\\("@, "deinit"@],
        class_patterns: seq!["class\\s+\\w+"@, "struct\\s+\\w+"@, "enum\\s+\\w+"@],
    }
}

/// Builds the definition of Swift.
pub fn swift() -> (d: LangDef)
    ensures
        d@ == swift_rule(),
{
    let d = LangDef {
        name: "Swift",
        extensions: vec!["swift", "swiftinterface", "swiftmodule"],
        line_comment: Some("//"),
        block_comment: Some(("/*", "*/")),
        doc_comment: Some("///"),
        function_patterns: vec!["func\\s+\\w+", "init\\s*\\(", "deinit"],
        class_patterns: vec!["class\\s+\\w+", "struct\\s+\\w+", "enum\\s+\\w+"],
    };
    assert(d@.extensions =~= swift_rule().extensions);
    assert(d@.function_patterns =~= swift_rule().function_patterns);
    assert(d@.class_patterns =~= swift_rule().class_patterns);
    d
}

/// The rules of Tcl.
pub open spec fn tcl_rule() -> LangRule {
    LangRule {
        name: "Tcl"@,
        extensions: seq!["tcl"@, "tk"@],
        line_comment: Some("#"@),
        block_comment: None,
        doc_comment: None,
        function_patterns: seq!["proc\\s+\\w+"@],
        class_patterns: Seq::empty(),
    }
}

/// Builds the definition of Tcl.
pub fn tcl() -> (d: LangDef)
    ensures
        d@ == tcl_rule(),
{
    let d = LangDef {
        name: "Tcl",
        extensions: vec!["tcl", "tk"],
        line_comment: Some("#"),
        block_comment: None,
        doc_comment: None,
        function_patterns: vec!["proc\\s+\\w+"],
        class_patterns: Vec::new(),
    };
    assert(d@.extensions =~= tcl_rule().extensions);
    assert(d@.function_patterns =~= tcl_rule().function_patterns);
    assert(d@.class_patterns =~= tcl_rule().class_patterns);
    d
}

/// The rules of TeX.
pub open spec fn tex_rule() -> LangRule {
    LangRule {
        name: "TeX"@,
        extensions: seq!["tex"@, "latex"@, "sty"@, "cls"@, "bib"@],
        line_comment: Some("%"@),
        block_comment: None,
        doc_comment: None,
        function_patterns: seq!["\\\\\\w+\\s*\\{"@],
        class_patterns: Seq::empty(),
    }
}

/// Builds the definition of TeX.
pub fn tex() -> (d: LangDef)
    ensures
        d@ == tex_rule(),
{
    let d = LangDef {
        name: "TeX",
        extensions: vec!["tex", "latex", "sty", "cls", "bib"],
        line_comment: Some("%"),
        block_comment: None,
        doc_comment: None,
        function_patterns: vec!["\\\\\\w+\\s*\\{"],
        class_patterns: Vec::new(),
    };
    assert(d@.extensions =~= tex_rule().extensions);
    assert(d@.function_patterns =~= tex_rule().function_patterns);
    assert(d@.class_patterns =~= tex_rule().class_patterns);
    d
}

/// The rules of Text.
pub open spec fn text_rule() -> LangRule {
    LangRule {
        name: "Text"@,
        extensions: seq!["txt"@],
        line_comment: None,
        block_comment: None,
        doc_comment: None,
        function_patterns: Seq::empty(),
        class_patterns: Seq::empty(),
    }
}

/// Builds the definition of Text.
pub fn text() -> (d: LangDef)
    ensures
        d@ == text_rule(),
{
    let d = LangDef {
        name: "Text",
        extensions: vec!["txt"],
        line_comment: None,
        block_comment: None,
        doc_comment: None,
        function_patterns: Vec::new(),
        class_patterns: Vec::new(),
    };
    assert(d@.extensions =~= text_rule().extensions);
    assert(d@.function_patterns =~= text_rule().function_patterns);
    assert(d@.class_patterns =~= text_rule().class_patterns);
    d
}

/// The rules of TOML.
pub open spec fn toml_rule() -> LangRule {
    LangRule {
        name: "TOML"@,
        extensions: seq!["toml"@],
        line_comment: Some("#"@),
        block_comment: None,
        doc_comment: None,
        function_patterns: Seq::empty(),
        class_patterns: Seq::empty(),
    }
}

/// Builds the definition of TOML.
pub fn toml() -> (d: LangDef)
    ensures
        d@ == toml_rule(),
{
    let d = LangDef {
        name: "TOML",
        extensions: vec!["toml"],
        line_comment: Some("#"),
        block_comment: None,
        doc_comment: None,
        function_patterns: Vec::new(),
        class_patterns: Vec::new(),
    };
    assert(d@.extensions =~= toml_rule().extensions);
    assert(d@.function_patterns =~= toml_rule().function_patterns);
    assert(d@.class_patterns =~= toml_rule().class_patterns);
    d
}

/// The rules of TypeScript.
pub open spec fn typescript_rule() -> LangRule {
    LangRule {
        name: "TypeScript"@,
        extensions: seq!["ts"@, "tsx"@, "cts"@, "mts"@],
        line_comment: Some("//"@),
        block_comment: Some(("/*"@, "*/"@)),
        doc_comment: Some("/**"@),
        function_patterns: seq!["function\\s+\\w+"@, "const\\s+\\w+\\s*=\\s*\\("@, "\\w+\\s*:\\s*function"@],
        class_patterns: seq!["class\\s+\\w+"@, "interface\\s+\\w+"@, "type\\s+\\w+"@],
    }
}

/// Builds the definition of TypeScript.
pub fn typescript() -> (d: LangDef)
    ensures
        d@ == typescript_rule(),
{
    let d = LangDef {
        name: "TypeScript",
        extensions: vec!["ts", "tsx", "cts", "mts"],
        line_comment: Some("//"),
        block_comment: Some(("/*", "*/")),
        doc_comment: Some("/**"),
        function_patterns: vec!["function\\s+\\w+", "const\\s+\\w+\\s*=\\s*\\(", "\\w+\\s*:\\s*function"],
        class_patterns: vec!["class\\s+\\w+", "interface\\s+\\w+", "type\\s+\\w+"],
    };
    assert(d@.extensions =~= typescript_rule().extensions);
    assert(d@.function_patterns =~= typescript_rule().function_patterns);
    assert(d@.class_patterns =~= typescript_rule().class_patterns);
    d
}

/// The rules of V.
pub open spec fn v_rule() -> LangRule {
    LangRule {
        name: "V"@,
        extensions: seq!["v"@, "vv"@, "vsh"@],
        line_comment: Some("//"@),
        block_comment: Some(("/*"@, "*/"@)),
        doc_comment: None,
        function_patterns: seq!["fn\\s+\\w+"@, "pub\\s+fn\\s+\\w+"@],
        class_patterns: seq!["struct\\s+\\w+"@, "enum\\s+\\w+"@, "const\\s+\\w+"@, "var\\s+\\w+"@],
    }
}

/// Builds the definition of V.
pub fn v() -> (d: LangDef)
    ensures
        d@ == v_rule(),
{
    let d = LangDef {
        name: "V",
        extensions: vec!["v", "vv", "vsh"],
        line_comment: Some("//"),
        block_comment: Some(("/*", "*/")),
        doc_comment: None,
        function_patterns: vec!["fn\\s+\\w+", "pub\\s+fn\\s+\\w+"],
        class_patterns: vec!["struct\\s+\\w+", "enum\\s+\\w+", "const\\s+\\w+", "var\\s+\\w+"],
    };
    assert(d@.extensions =~= v_rule().extensions);
    assert(d@.function_patterns =~= v_rule().function_patterns);
    assert(d@.class_patterns =~= v_rule().class_patterns);
    d
}

/// The rules of 文言.
pub open spec fn wenyan_rule() -> LangRule {
    LangRule {
        name: "文言"@,
        extensions: seq!["wy"@],
        line_comment: Some("註"@),
        block_comment: Some(("〔"@, "〕"@)),
        doc_comment: None,
        function_patterns: seq!["有"@],
        class_patterns: Seq::empty(),
    }
}

/// Builds the definition of 文言.
pub fn wenyan() -> (d: LangDef)
    ensures
        d@ == wenyan_rule(),
{
    let d = LangDef {
        name: "文言",
        extensions: vec!["wy"],
        line_comment: Some("註"),
        block_comment: Some(("〔", "〕")),
        doc_comment: None,
        function_patterns: vec!["有"],
        class_patterns: Vec::new(),
    };
    assert(d@.extensions =~= wenyan_rule().extensions);
    assert(d@.function_patterns =~= wenyan_rule().function_patterns);
    assert(d@.class_patterns =~= wenyan_rule().class_patterns);
    d
}

/// The rules of XML.
pub open spec fn xml_rule() -> LangRule {
    LangRule {
        name: "XML"@,
        extensions: seq!["xml"@, "xsl"@, "xslt"@, "svg"@, "wsdl"@, "wsdd"@, "xhtml"@],
        line_comment: None,
        block_comment: Some(("<!--"@, "-->"@)),
        doc_comment: None,
        function_patterns: seq!["<\\w+"@, "</\\w+"@],
        class_patterns: seq!["<\\w+\\s+class\\s*=\\s*\""@],
    }
}

/// Builds the definition of XML.
pub fn xml() -> (d: LangDef)
    ensures
        d@ == xml_rule(),
{
    let d = LangDef {
        name: "XML",
        extensions: vec!["xml", "xsl", "xslt", "svg", "wsdl", "wsdd", "xhtml"],
        line_comment: None,
        block_comment: Some(("<!--", "-->")),
        doc_comment: None,
        function_patterns: vec!["<\\w+", "</\\w+"],
        class_patterns: vec!["<\\w+\\s+class\\s*=\\s*\""],
    };
    assert(d@.extensions =~= xml_rule().extensions);
    assert(d@.function_patterns =~= xml_rule().function_patterns);
    assert(d@.class_patterns =~= xml_rule().class_patterns);
    d
}

/// The rules of YAML.
pub open spec fn yaml_rule() -> LangRule {
    LangRule {
        name: "YAML"@,
        extensions: seq!["yaml"@, "yml"@],
        line_comment: Some("#"@),
        block_comment: None,
        doc_comment: None,
        function_patterns: Seq::empty(),
        class_patterns: Seq::empty(),
    }
}

/// Builds the definition of YAML.
pub fn yaml() -> (d: LangDef)
    ensures
        d@ == yaml_rule(),
{
    let d = LangDef {
        name: "YAML",
        extensions: vec!["yaml", "yml"],
        line_comment: Some("#"),
        block_comment: None,
        doc_comment: None,
        function_patterns: Vec::new(),
        class_patterns: Vec::new(),
    };
    assert(d@.extensions =~= yaml_rule().extensions);
    assert(d@.function_patterns =~= yaml_rule().function_patterns);
    assert(d@.class_patterns =~= yaml_rule().class_patterns);
    d
}

/// The rules of Zig.
pub open spec fn zig_rule() -> LangRule {
    LangRule {
        name: "Zig"@,
        extensions: seq!["zig"@],
        line_comment: Some("//"@),
        block_comment: None,
        doc_comment: None,
        function_patterns: seq!["fn\\s+\\w+"@, "pub\\s+fn\\s+\\w+"@],
        class_patterns: seq!["const\\s+\\w+"@, "var\\s+\\w+"@],
    }
}

/// Builds the definition of Zig.
pub fn zig() -> (d: LangDef)
    ensures
        d@ == zig_rule(),
{
    let d = LangDef {
        name: "Zig",
        extensions: vec!["zig"],
        line_comment: Some("//"),
        block_comment: None,
        doc_comment: None,
        function_patterns: vec!["fn\\s+\\w+", "pub\\s+fn\\s+\\w+"],
        class_patterns: vec!["const\\s+\\w+", "var\\s+\\w+"],
    };
    assert(d@.extensions =~= zig_rule().extensions);
    assert(d@.function_patterns =~= zig_rule().function_patterns);
    assert(d@.class_patterns =~= zig_rule().class_patterns);
    d
}

} // verus!
