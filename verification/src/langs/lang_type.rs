//! The languages that the counter tells apart.

use vstd::prelude::*;

verus! {

/// A language, or `Unknown` where none was recognised.
#[derive(Debug, Clone, Copy, PartialEq, Eq, Structural, Hash)]
pub enum LangType {
    Asciidoc,
    Astro,
    C,
    Clojure,
    Cpp,
    Csharp,
    Css,
    D,
    Dart,
    Elm,
    Erlang,
    Fsharp,
    Go,
    Graphql,
    H,
    Hpp,
    Haskell,
    Html,
    Java,
    Javascript,
    Json,
    Jsonnet,
    Julia,
    Kotlin,
    Lua,
    Markdown,
    Nix,
    Ocaml,
    Php,
    Python,
    Qcl,
    Qsharp,
    R,
    Regex,
    Ruby,
    Rust,
    Sass,
    Scala,
    Sql,
    Swift,
    Tcl,
    Tex,
    Toml,
    Typescript,
    V,
    WenYan,
    Xml,
    Yaml,
    Zig,
    Shell,
    Perl,
    Text,
    Unknown,
}

/// How many languages there are, `Unknown` included.
pub const LANG_COUNT: usize = 53;

impl LangType {
    /// Position of the language in the order of declaration.
    pub open spec fn spec_index(self) -> int {
        match self {
            LangType::Asciidoc => 0,
            LangType::Astro => 1,
            LangType::C => 2,
            LangType::Clojure => 3,
            LangType::Cpp => 4,
            LangType::Csharp => 5,
            LangType::Css => 6,
            LangType::D => 7,
            LangType::Dart => 8,
            LangType::Elm => 9,
            LangType::Erlang => 10,
            LangType::Fsharp => 11,
            LangType::Go => 12,
            LangType::Graphql => 13,
            LangType::H => 14,
            LangType::Hpp => 15,
            LangType::Haskell => 16,
            LangType::Html => 17,
            LangType::Java => 18,
            LangType::Javascript => 19,
            LangType::Json => 20,
            LangType::Jsonnet => 21,
            LangType::Julia => 22,
            LangType::Kotlin => 23,
            LangType::Lua => 24,
            LangType::Markdown => 25,
            LangType::Nix => 26,
            LangType::Ocaml => 27,
            LangType::Php => 28,
            LangType::Python => 29,
            LangType::Qcl => 30,
            LangType::Qsharp => 31,
            LangType::R => 32,
            LangType::Regex => 33,
            LangType::Ruby => 34,
            LangType::Rust => 35,
            LangType::Sass => 36,
            LangType::Scala => 37,
            LangType::Sql => 38,
            LangType::Swift => 39,
            LangType::Tcl => 40,
            LangType::Tex => 41,
            LangType::Toml => 42,
            LangType::Typescript => 43,
            LangType::V => 44,
            LangType::WenYan => 45,
            LangType::Xml => 46,
            LangType::Yaml => 47,
            LangType::Zig => 48,
            LangType::Shell => 49,
            LangType::Perl => 50,
            LangType::Text => 51,
            LangType::Unknown => 52,
        }
    }

    /// The language at position `i` of the order of declaration; `Unknown`
    /// where there is none.
    pub open spec fn spec_from_index(i: int) -> LangType {
        if i == 0 {
            LangType::Asciidoc
        } else if i == 1 {
            LangType::Astro
        } else if i == 2 {
            LangType::C
        } else if i == 3 {
            LangType::Clojure
        } else if i == 4 {
            LangType::Cpp
        } else if i == 5 {
            LangType::Csharp
        } else if i == 6 {
            LangType::Css
        } else if i == 7 {
            LangType::D
        } else if i == 8 {
            LangType::Dart
        } else if i == 9 {
            LangType::Elm
        } else if i == 10 {
            LangType::Erlang
        } else if i == 11 {
            LangType::Fsharp
        } else if i == 12 {
            LangType::Go
        } else if i == 13 {
            LangType::Graphql
        } else if i == 14 {
            LangType::H
        } else if i == 15 {
            LangType::Hpp
        } else if i == 16 {
            LangType::Haskell
        } else if i == 17 {
            LangType::Html
        } else if i == 18 {
            LangType::Java
        } else if i == 19 {
            LangType::Javascript
        } else if i == 20 {
            LangType::Json
        } else if i == 21 {
            LangType::Jsonnet
        } else if i == 22 {
            LangType::Julia
        } else if i == 23 {
            LangType::Kotlin
        } else if i == 24 {
            LangType::Lua
        } else if i == 25 {
            LangType::Markdown
        } else if i == 26 {
            LangType::Nix
        } else if i == 27 {
            LangType::Ocaml
        } else if i == 28 {
            LangType::Php
        } else if i == 29 {
            LangType::Python
        } else if i == 30 {
            LangType::Qcl
        } else if i == 31 {
            LangType::Qsharp
        } else if i == 32 {
            LangType::R
        } else if i == 33 {
            LangType::Regex
        } else if i == 34 {
            LangType::Ruby
        } else if i == 35 {
            LangType::Rust
        } else if i == 36 {
            LangType::Sass
        } else if i == 37 {
            LangType::Scala
        } else if i == 38 {
            LangType::Sql
        } else if i == 39 {
            LangType::Swift
        } else if i == 40 {
            LangType::Tcl
        } else if i == 41 {
            LangType::Tex
        } else if i == 42 {
            LangType::Toml
        } else if i == 43 {
            LangType::Typescript
        } else if i == 44 {
            LangType::V
        } else if i == 45 {
            LangType::WenYan
        } else if i == 46 {
            LangType::Xml
        } else if i == 47 {
            LangType::Yaml
        } else if i == 48 {
            LangType::Zig
        } else if i == 49 {
            LangType::Shell
        } else if i == 50 {
            LangType::Perl
        } else if i == 51 {
            LangType::Text
        } else {
            LangType::Unknown
        }
    }

    /// The language's name, as it is written in a list of enabled languages.
    pub open spec fn spec_name(self) -> Seq<char> {
        match self {
            LangType::Asciidoc => "Asciidoc"@,
            LangType::Astro => "Astro"@,
            LangType::C => "C"@,
            LangType::Clojure => "Clojure"@,
            LangType::Cpp => "Cpp"@,
            LangType::Csharp => "Csharp"@,
            LangType::Css => "Css"@,
            LangType::D => "D"@,
            LangType::Dart => "Dart"@,
            LangType::Elm => "Elm"@,
            LangType::Erlang => "Erlang"@,
            LangType::Fsharp => "Fsharp"@,
            LangType::Go => "Go"@,
            LangType::Graphql => "Graphql"@,
            LangType::H => "H"@,
            LangType::Hpp => "Hpp"@,
            LangType::Haskell => "Haskell"@,
            LangType::Html => "Html"@,
            LangType::Java => "Java"@,
            LangType::Javascript => "Javascript"@,
            LangType::Json => "Json"@,
            LangType::Jsonnet => "Jsonnet"@,
            LangType::Julia => "Julia"@,
            LangType::Kotlin => "Kotlin"@,
            LangType::Lua => "Lua"@,
            LangType::Markdown => "Markdown"@,
            LangType::Nix => "Nix"@,
            LangType::Ocaml => "Ocaml"@,
            LangType::Php => "Php"@,
            LangType::Python => "Python"@,
            LangType::Qcl => "Qcl"@,
            LangType::Qsharp => "Qsharp"@,
            LangType::R => "R"@,
            LangType::Regex => "Regex"@,
            LangType::Ruby => "Ruby"@,
            LangType::Rust => "Rust"@,
            LangType::Sass => "Sass"@,
            LangType::Scala => "Scala"@,
            LangType::Sql => "Sql"@,
            LangType::Swift => "Swift"@,
            LangType::Tcl => "Tcl"@,
            LangType::Tex => "Tex"@,
            LangType::Toml => "Toml"@,
            LangType::Typescript => "Typescript"@,
            LangType::V => "V"@,
            LangType::WenYan => "WenYan"@,
            LangType::Xml => "Xml"@,
            LangType::Yaml => "Yaml"@,
            LangType::Zig => "Zig"@,
            LangType::Shell => "Shell"@,
            LangType::Perl => "Perl"@,
            LangType::Text => "Text"@,
            LangType::Unknown => "Unknown"@,
        }
    }

    /// Position of the language in the order of declaration.
    pub fn index(&self) -> (i: usize)
        ensures
            i == self.spec_index(),
            i < LANG_COUNT,
            LangType::spec_from_index(i as int) == *self,
    {
        match self {
            LangType::Asciidoc => 0,
            LangType::Astro => 1,
            LangType::C => 2,
            LangType::Clojure => 3,
            LangType::Cpp => 4,
            LangType::Csharp => 5,
            LangType::Css => 6,
            LangType::D => 7,
            LangType::Dart => 8,
            LangType::Elm => 9,
            LangType::Erlang => 10,
            LangType::Fsharp => 11,
            LangType::Go => 12,
            LangType::Graphql => 13,
            LangType::H => 14,
            LangType::Hpp => 15,
            LangType::Haskell => 16,
            LangType::Html => 17,
            LangType::Java => 18,
            LangType::Javascript => 19,
            LangType::Json => 20,
            LangType::Jsonnet => 21,
            LangType::Julia => 22,
            LangType::Kotlin => 23,
            LangType::Lua => 24,
            LangType::Markdown => 25,
            LangType::Nix => 26,
            LangType::Ocaml => 27,
            LangType::Php => 28,
            LangType::Python => 29,
            LangType::Qcl => 30,
            LangType::Qsharp => 31,
            LangType::R => 32,
            LangType::Regex => 33,
            LangType::Ruby => 34,
            LangType::Rust => 35,
            LangType::Sass => 36,
            LangType::Scala => 37,
            LangType::Sql => 38,
            LangType::Swift => 39,
            LangType::Tcl => 40,
            LangType::Tex => 41,
            LangType::Toml => 42,
            LangType::Typescript => 43,
            LangType::V => 44,
            LangType::WenYan => 45,
            LangType::Xml => 46,
            LangType::Yaml => 47,
            LangType::Zig => 48,
            LangType::Shell => 49,
            LangType::Perl => 50,
            LangType::Text => 51,
            LangType::Unknown => 52,
        }
    }

    /// The language at position `i` of the order of declaration; `Unknown`
    /// where there is none.
    pub fn from_index(i: usize) -> (lang: LangType)
        ensures
            lang == LangType::spec_from_index(i as int),
            i < LANG_COUNT ==> lang.spec_index() == i,
    {
        if i == 0 {
            LangType::Asciidoc
        } else if i == 1 {
            LangType::Astro
        } else if i == 2 {
            LangType::C
        } else if i == 3 {
            LangType::Clojure
        } else if i == 4 {
            LangType::Cpp
        } else if i == 5 {
            LangType::Csharp
        } else if i == 6 {
            LangType::Css
        } else if i == 7 {
            LangType::D
        } else if i == 8 {
            LangType::Dart
        } else if i == 9 {
            LangType::Elm
        } else if i == 10 {
            LangType::Erlang
        } else if i == 11 {
            LangType::Fsharp
        } else if i == 12 {
            LangType::Go
        } else if i == 13 {
            LangType::Graphql
        } else if i == 14 {
            LangType::H
        } else if i == 15 {
            LangType::Hpp
        } else if i == 16 {
            LangType::Haskell
        } else if i == 17 {
            LangType::Html
        } else if i == 18 {
            LangType::Java
        } else if i == 19 {
            LangType::Javascript
        } else if i == 20 {
            LangType::Json
        } else if i == 21 {
            LangType::Jsonnet
        } else if i == 22 {
            LangType::Julia
        } else if i == 23 {
            LangType::Kotlin
        } else if i == 24 {
            LangType::Lua
        } else if i == 25 {
            LangType::Markdown
        } else if i == 26 {
            LangType::Nix
        } else if i == 27 {
            LangType::Ocaml
        } else if i == 28 {
            LangType::Php
        } else if i == 29 {
            LangType::Python
        } else if i == 30 {
            LangType::Qcl
        } else if i == 31 {
            LangType::Qsharp
        } else if i == 32 {
            LangType::R
        } else if i == 33 {
            LangType::Regex
        } else if i == 34 {
            LangType::Ruby
        } else if i == 35 {
            LangType::Rust
        } else if i == 36 {
            LangType::Sass
        } else if i == 37 {
            LangType::Scala
        } else if i == 38 {
            LangType::Sql
        } else if i == 39 {
            LangType::Swift
        } else if i == 40 {
            LangType::Tcl
        } else if i == 41 {
            LangType::Tex
        } else if i == 42 {
            LangType::Toml
        } else if i == 43 {
            LangType::Typescript
        } else if i == 44 {
            LangType::V
        } else if i == 45 {
            LangType::WenYan
        } else if i == 46 {
            LangType::Xml
        } else if i == 47 {
            LangType::Yaml
        } else if i == 48 {
            LangType::Zig
        } else if i == 49 {
            LangType::Shell
        } else if i == 50 {
            LangType::Perl
        } else if i == 51 {
            LangType::Text
        } else {
            LangType::Unknown
        }
    }

    /// The language's name, as it is written in a list of enabled languages.
    pub fn name(&self) -> (s: &'static str)
        ensures
            s@ == self.spec_name(),
    {
        match self {
            LangType::Asciidoc => "Asciidoc",
            LangType::Astro => "Astro",
            LangType::C => "C",
            LangType::Clojure => "Clojure",
            LangType::Cpp => "Cpp",
            LangType::Csharp => "Csharp",
            LangType::Css => "Css",
            LangType::D => "D",
            LangType::Dart => "Dart",
            LangType::Elm => "Elm",
            LangType::Erlang => "Erlang",
            LangType::Fsharp => "Fsharp",
            LangType::Go => "Go",
            LangType::Graphql => "Graphql",
            LangType::H => "H",
            LangType::Hpp => "Hpp",
            LangType::Haskell => "Haskell",
            LangType::Html => "Html",
            LangType::Java => "Java",
            LangType::Javascript => "Javascript",
            LangType::Json => "Json",
            LangType::Jsonnet => "Jsonnet",
            LangType::Julia => "Julia",
            LangType::Kotlin => "Kotlin",
            LangType::Lua => "Lua",
            LangType::Markdown => "Markdown",
            LangType::Nix => "Nix",
            LangType::Ocaml => "Ocaml",
            LangType::Php => "Php",
            LangType::Python => "Python",
            LangType::Qcl => "Qcl",
            LangType::Qsharp => "Qsharp",
            LangType::R => "R",
            LangType::Regex => "Regex",
            LangType::Ruby => "Ruby",
            LangType::Rust => "Rust",
            LangType::Sass => "Sass",
            LangType::Scala => "Scala",
            LangType::Sql => "Sql",
            LangType::Swift => "Swift",
            LangType::Tcl => "Tcl",
            LangType::Tex => "Tex",
            LangType::Toml => "Toml",
            LangType::Typescript => "Typescript",
            LangType::V => "V",
            LangType::WenYan => "WenYan",
            LangType::Xml => "Xml",
            LangType::Yaml => "Yaml",
            LangType::Zig => "Zig",
            LangType::Shell => "Shell",
            LangType::Perl => "Perl",
            LangType::Text => "Text",
            LangType::Unknown => "Unknown",
        }
    }

    /// The language's name as an owned string.
    pub fn to_string(&self) -> (s: String)
        ensures
            s@ == self.spec_name(),
    {
        self.name().to_owned()
    }
}

impl Default for LangType {
    fn default() -> (lang: LangType)
        ensures
            lang == LangType::Unknown,
    {
        LangType::Unknown
    }
}

} // verus!
