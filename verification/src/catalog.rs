//! The languages Arborium offers, by the name of their [`Language`]
//! variant and their slug: the table that the `code!` and `code_str!`
//! macros read an options expression and a detected language against.
//!
//! The table lists every language Arborium has a grammar for, whether or not
//! this build of the library ships that grammar: a macro names the variant
//! in the code it expands to, and the build of the library that compiles
//! that code decides whether the variant exists.
//!
//! [`Language`]: crate::Language

use vstd::prelude::*;

use crate::text::str_eq;

verus! {

/// A language Arborium has a grammar for.
#[derive(Debug, Clone, Copy, PartialEq, Eq, Hash, Structural)]
pub enum ArboriumLanguage {
    /// Arborium slug `"rust"`.
    Rust,
    /// Arborium slug `"ada"`.
    Ada,
    /// Arborium slug `"agda"`.
    Agda,
    /// Arborium slug `"asciidoc"`.
    Asciidoc,
    /// Arborium slug `"asm"`.
    Asm,
    /// Arborium slug `"awk"`.
    Awk,
    /// Arborium slug `"bash"`.
    Bash,
    /// Arborium slug `"batch"`.
    Batch,
    /// Arborium slug `"c"`.
    C,
    /// Arborium slug `"c-sharp"`.
    CSharp,
    /// Arborium slug `"caddy"`.
    Caddy,
    /// Arborium slug `"capnp"`.
    Capnp,
    /// Arborium slug `"cedar"`.
    Cedar,
    /// Arborium slug `"cedarschema"`.
    CedarSchema,
    /// Arborium slug `"clojure"`.
    Clojure,
    /// Arborium slug `"cmake"`.
    CMake,
    /// Arborium slug `"cobol"`.
    Cobol,
    /// Arborium slug `"commonlisp"`.
    CommonLisp,
    /// Arborium slug `"cpp"`.
    Cpp,
    /// Arborium slug `"css"`.
    Css,
    /// Arborium slug `"d"`.
    D,
    /// Arborium slug `"dart"`.
    Dart,
    /// Arborium slug `"devicetree"`.
    DeviceTree,
    /// Arborium slug `"diff"`.
    Diff,
    /// Arborium slug `"dockerfile"`.
    Dockerfile,
    /// Arborium slug `"dot"`.
    Dot,
    /// Arborium slug `"elisp"`.
    Elisp,
    /// Arborium slug `"elixir"`.
    Elixir,
    /// Arborium slug `"elm"`.
    Elm,
    /// Arborium slug `"erlang"`.
    Erlang,
    /// Arborium slug `"fish"`.
    Fish,
    /// Arborium slug `"fsharp"`.
    FSharp,
    /// Arborium slug `"gleam"`.
    Gleam,
    /// Arborium slug `"glsl"`.
    Glsl,
    /// Arborium slug `"go"`.
    Go,
    /// Arborium slug `"graphql"`.
    GraphQL,
    /// Arborium slug `"groovy"`.
    Groovy,
    /// Arborium slug `"haskell"`.
    Haskell,
    /// Arborium slug `"hcl"`.
    Hcl,
    /// Arborium slug `"hlsl"`.
    Hlsl,
    /// Arborium slug `"html"`.
    Html,
    /// Arborium slug `"idris"`.
    Idris,
    /// Arborium slug `"ini"`.
    Ini,
    /// Arborium slug `"java"`.
    Java,
    /// Arborium slug `"javascript"`.
    JavaScript,
    /// Arborium slug `"jinja2"`.
    Jinja2,
    /// Arborium slug `"jq"`.
    Jq,
    /// Arborium slug `"json"`.
    Json,
    /// Arborium slug `"julia"`.
    Julia,
    /// Arborium slug `"kotlin"`.
    Kotlin,
    /// Arborium slug `"lean"`.
    Lean,
    /// Arborium slug `"lua"`.
    Lua,
    /// Arborium slug `"markdown"`.
    Markdown,
    /// Arborium slug `"matlab"`.
    Matlab,
    /// Arborium slug `"meson"`.
    Meson,
    /// Arborium slug `"nginx"`.
    Nginx,
    /// Arborium slug `"ninja"`.
    Ninja,
    /// Arborium slug `"nix"`.
    Nix,
    /// Arborium slug `"objc"`.
    ObjectiveC,
    /// Arborium slug `"ocaml"`.
    OCaml,
    /// Arborium slug `"perl"`.
    Perl,
    /// Arborium slug `"php"`.
    Php,
    /// Arborium slug `"postscript"`.
    PostScript,
    /// Arborium slug `"powershell"`.
    PowerShell,
    /// Arborium slug `"prolog"`.
    Prolog,
    /// Arborium slug `"python"`.
    Python,
    /// Arborium slug `"query"`.
    Query,
    /// Arborium slug `"r"`.
    R,
    /// Arborium slug `"rego"`.
    Rego,
    /// Arborium slug `"rescript"`.
    Rescript,
    /// Arborium slug `"ron"`.
    Ron,
    /// Arborium slug `"ruby"`.
    Ruby,
    /// Arborium slug `"scala"`.
    Scala,
    /// Arborium slug `"scheme"`.
    Scheme,
    /// Arborium slug `"scss"`.
    Scss,
    /// Arborium slug `"solidity"`.
    Solidity,
    /// Arborium slug `"sparql"`.
    Sparql,
    /// Arborium slug `"sql"`.
    Sql,
    /// Arborium slug `"ssh-config"`.
    SshConfig,
    /// Arborium slug `"starlark"`.
    Starlark,
    /// Arborium slug `"styx"`.
    Styx,
    /// Arborium slug `"svelte"`.
    Svelte,
    /// Arborium slug `"swift"`.
    Swift,
    /// Arborium slug `"textproto"`.
    Textproto,
    /// Arborium slug `"thrift"`.
    Thrift,
    /// Arborium slug `"tlaplus"`.
    TlaPlus,
    /// Arborium slug `"toml"`.
    Toml,
    /// Arborium slug `"tsx"`.
    Tsx,
    /// Arborium slug `"typescript"`.
    TypeScript,
    /// Arborium slug `"typst"`.
    Typst,
    /// Arborium slug `"uiua"`.
    Uiua,
    /// Arborium slug `"vb"`.
    VisualBasic,
    /// Arborium slug `"verilog"`.
    Verilog,
    /// Arborium slug `"vhdl"`.
    Vhdl,
    /// Arborium slug `"vim"`.
    Vim,
    /// Arborium slug `"vue"`.
    Vue,
    /// Arborium slug `"wit"`.
    Wit,
    /// Arborium slug `"x86asm"`.
    X86Asm,
    /// Arborium slug `"xml"`.
    Xml,
    /// Arborium slug `"yaml"`.
    Yaml,
    /// Arborium slug `"yuri"`.
    Yuri,
    /// Arborium slug `"zig"`.
    Zig,
    /// Arborium slug `"zsh"`.
    Zsh,
}

/// The Arborium slug of a language.
pub open spec fn catalog_slug(l: ArboriumLanguage) -> Seq<char> {
    match l {
        ArboriumLanguage::Rust => "rust"@,
        ArboriumLanguage::Ada => "ada"@,
        ArboriumLanguage::Agda => "agda"@,
        ArboriumLanguage::Asciidoc => "asciidoc"@,
        ArboriumLanguage::Asm => "asm"@,
        ArboriumLanguage::Awk => "awk"@,
        ArboriumLanguage::Bash => "bash"@,
        ArboriumLanguage::Batch => "batch"@,
        ArboriumLanguage::C => "c"@,
        ArboriumLanguage::CSharp => "c-sharp"@,
        ArboriumLanguage::Caddy => "caddy"@,
        ArboriumLanguage::Capnp => "capnp"@,
        ArboriumLanguage::Cedar => "cedar"@,
        ArboriumLanguage::CedarSchema => "cedarschema"@,
        ArboriumLanguage::Clojure => "clojure"@,
        ArboriumLanguage::CMake => "cmake"@,
        ArboriumLanguage::Cobol => "cobol"@,
        ArboriumLanguage::CommonLisp => "commonlisp"@,
        ArboriumLanguage::Cpp => "cpp"@,
        ArboriumLanguage::Css => "css"@,
        ArboriumLanguage::D => "d"@,
        ArboriumLanguage::Dart => "dart"@,
        ArboriumLanguage::DeviceTree => "devicetree"@,
        ArboriumLanguage::Diff => "diff"@,
        ArboriumLanguage::Dockerfile => "dockerfile"@,
        ArboriumLanguage::Dot => "dot"@,
        ArboriumLanguage::Elisp => "elisp"@,
        ArboriumLanguage::Elixir => "elixir"@,
        ArboriumLanguage::Elm => "elm"@,
        ArboriumLanguage::Erlang => "erlang"@,
        ArboriumLanguage::Fish => "fish"@,
        ArboriumLanguage::FSharp => "fsharp"@,
        ArboriumLanguage::Gleam => "gleam"@,
        ArboriumLanguage::Glsl => "glsl"@,
        ArboriumLanguage::Go => "go"@,
        ArboriumLanguage::GraphQL => "graphql"@,
        ArboriumLanguage::Groovy => "groovy"@,
        ArboriumLanguage::Haskell => "haskell"@,
        ArboriumLanguage::Hcl => "hcl"@,
        ArboriumLanguage::Hlsl => "hlsl"@,
        ArboriumLanguage::Html => "html"@,
        ArboriumLanguage::Idris => "idris"@,
        ArboriumLanguage::Ini => "ini"@,
        ArboriumLanguage::Java => "java"@,
        ArboriumLanguage::JavaScript => "javascript"@,
        ArboriumLanguage::Jinja2 => "jinja2"@,
        ArboriumLanguage::Jq => "jq"@,
        ArboriumLanguage::Json => "json"@,
        ArboriumLanguage::Julia => "julia"@,
        ArboriumLanguage::Kotlin => "kotlin"@,
        ArboriumLanguage::Lean => "lean"@,
        ArboriumLanguage::Lua => "lua"@,
        ArboriumLanguage::Markdown => "markdown"@,
        ArboriumLanguage::Matlab => "matlab"@,
        ArboriumLanguage::Meson => "meson"@,
        ArboriumLanguage::Nginx => "nginx"@,
        ArboriumLanguage::Ninja => "ninja"@,
        ArboriumLanguage::Nix => "nix"@,
        ArboriumLanguage::ObjectiveC => "objc"@,
        ArboriumLanguage::OCaml => "ocaml"@,
        ArboriumLanguage::Perl => "perl"@,
        ArboriumLanguage::Php => "php"@,
        ArboriumLanguage::PostScript => "postscript"@,
        ArboriumLanguage::PowerShell => "powershell"@,
        ArboriumLanguage::Prolog => "prolog"@,
        ArboriumLanguage::Python => "python"@,
        ArboriumLanguage::Query => "query"@,
        ArboriumLanguage::R => "r"@,
        ArboriumLanguage::Rego => "rego"@,
        ArboriumLanguage::Rescript => "rescript"@,
        ArboriumLanguage::Ron => "ron"@,
        ArboriumLanguage::Ruby => "ruby"@,
        ArboriumLanguage::Scala => "scala"@,
        ArboriumLanguage::Scheme => "scheme"@,
        ArboriumLanguage::Scss => "scss"@,
        ArboriumLanguage::Solidity => "solidity"@,
        ArboriumLanguage::Sparql => "sparql"@,
        ArboriumLanguage::Sql => "sql"@,
        ArboriumLanguage::SshConfig => "ssh-config"@,
        ArboriumLanguage::Starlark => "starlark"@,
        ArboriumLanguage::Styx => "styx"@,
        ArboriumLanguage::Svelte => "svelte"@,
        ArboriumLanguage::Swift => "swift"@,
        ArboriumLanguage::Textproto => "textproto"@,
        ArboriumLanguage::Thrift => "thrift"@,
        ArboriumLanguage::TlaPlus => "tlaplus"@,
        ArboriumLanguage::Toml => "toml"@,
        ArboriumLanguage::Tsx => "tsx"@,
        ArboriumLanguage::TypeScript => "typescript"@,
        ArboriumLanguage::Typst => "typst"@,
        ArboriumLanguage::Uiua => "uiua"@,
        ArboriumLanguage::VisualBasic => "vb"@,
        ArboriumLanguage::Verilog => "verilog"@,
        ArboriumLanguage::Vhdl => "vhdl"@,
        ArboriumLanguage::Vim => "vim"@,
        ArboriumLanguage::Vue => "vue"@,
        ArboriumLanguage::Wit => "wit"@,
        ArboriumLanguage::X86Asm => "x86asm"@,
        ArboriumLanguage::Xml => "xml"@,
        ArboriumLanguage::Yaml => "yaml"@,
        ArboriumLanguage::Yuri => "yuri"@,
        ArboriumLanguage::Zig => "zig"@,
        ArboriumLanguage::Zsh => "zsh"@,
    }
}

/// The name of a language's [`Language`](crate::Language) variant.
pub open spec fn catalog_variant_name(l: ArboriumLanguage) -> Seq<char> {
    match l {
        ArboriumLanguage::Rust => "Rust"@,
        ArboriumLanguage::Ada => "Ada"@,
        ArboriumLanguage::Agda => "Agda"@,
        ArboriumLanguage::Asciidoc => "Asciidoc"@,
        ArboriumLanguage::Asm => "Asm"@,
        ArboriumLanguage::Awk => "Awk"@,
        ArboriumLanguage::Bash => "Bash"@,
        ArboriumLanguage::Batch => "Batch"@,
        ArboriumLanguage::C => "C"@,
        ArboriumLanguage::CSharp => "CSharp"@,
        ArboriumLanguage::Caddy => "Caddy"@,
        ArboriumLanguage::Capnp => "Capnp"@,
        ArboriumLanguage::Cedar => "Cedar"@,
        ArboriumLanguage::CedarSchema => "CedarSchema"@,
        ArboriumLanguage::Clojure => "Clojure"@,
        ArboriumLanguage::CMake => "CMake"@,
        ArboriumLanguage::Cobol => "Cobol"@,
        ArboriumLanguage::CommonLisp => "CommonLisp"@,
        ArboriumLanguage::Cpp => "Cpp"@,
        ArboriumLanguage::Css => "Css"@,
        ArboriumLanguage::D => "D"@,
        ArboriumLanguage::Dart => "Dart"@,
        ArboriumLanguage::DeviceTree => "DeviceTree"@,
        ArboriumLanguage::Diff => "Diff"@,
        ArboriumLanguage::Dockerfile => "Dockerfile"@,
        ArboriumLanguage::Dot => "Dot"@,
        ArboriumLanguage::Elisp => "Elisp"@,
        ArboriumLanguage::Elixir => "Elixir"@,
        ArboriumLanguage::Elm => "Elm"@,
        ArboriumLanguage::Erlang => "Erlang"@,
        ArboriumLanguage::Fish => "Fish"@,
        ArboriumLanguage::FSharp => "FSharp"@,
        ArboriumLanguage::Gleam => "Gleam"@,
        ArboriumLanguage::Glsl => "Glsl"@,
        ArboriumLanguage::Go => "Go"@,
        ArboriumLanguage::GraphQL => "GraphQL"@,
        ArboriumLanguage::Groovy => "Groovy"@,
        ArboriumLanguage::Haskell => "Haskell"@,
        ArboriumLanguage::Hcl => "Hcl"@,
        ArboriumLanguage::Hlsl => "Hlsl"@,
        ArboriumLanguage::Html => "Html"@,
        ArboriumLanguage::Idris => "Idris"@,
        ArboriumLanguage::Ini => "Ini"@,
        ArboriumLanguage::Java => "Java"@,
        ArboriumLanguage::JavaScript => "JavaScript"@,
        ArboriumLanguage::Jinja2 => "Jinja2"@,
        ArboriumLanguage::Jq => "Jq"@,
        ArboriumLanguage::Json => "Json"@,
        ArboriumLanguage::Julia => "Julia"@,
        ArboriumLanguage::Kotlin => "Kotlin"@,
        ArboriumLanguage::Lean => "Lean"@,
        ArboriumLanguage::Lua => "Lua"@,
        ArboriumLanguage::Markdown => "Markdown"@,
        ArboriumLanguage::Matlab => "Matlab"@,
        ArboriumLanguage::Meson => "Meson"@,
        ArboriumLanguage::Nginx => "Nginx"@,
        ArboriumLanguage::Ninja => "Ninja"@,
        ArboriumLanguage::Nix => "Nix"@,
        ArboriumLanguage::ObjectiveC => "ObjectiveC"@,
        ArboriumLanguage::OCaml => "OCaml"@,
        ArboriumLanguage::Perl => "Perl"@,
        ArboriumLanguage::Php => "Php"@,
        ArboriumLanguage::PostScript => "PostScript"@,
        ArboriumLanguage::PowerShell => "PowerShell"@,
        ArboriumLanguage::Prolog => "Prolog"@,
        ArboriumLanguage::Python => "Python"@,
        ArboriumLanguage::Query => "Query"@,
        ArboriumLanguage::R => "R"@,
        ArboriumLanguage::Rego => "Rego"@,
        ArboriumLanguage::Rescript => "Rescript"@,
        ArboriumLanguage::Ron => "Ron"@,
        ArboriumLanguage::Ruby => "Ruby"@,
        ArboriumLanguage::Scala => "Scala"@,
        ArboriumLanguage::Scheme => "Scheme"@,
        ArboriumLanguage::Scss => "Scss"@,
        ArboriumLanguage::Solidity => "Solidity"@,
        ArboriumLanguage::Sparql => "Sparql"@,
        ArboriumLanguage::Sql => "Sql"@,
        ArboriumLanguage::SshConfig => "SshConfig"@,
        ArboriumLanguage::Starlark => "Starlark"@,
        ArboriumLanguage::Styx => "Styx"@,
        ArboriumLanguage::Svelte => "Svelte"@,
        ArboriumLanguage::Swift => "Swift"@,
        ArboriumLanguage::Textproto => "Textproto"@,
        ArboriumLanguage::Thrift => "Thrift"@,
        ArboriumLanguage::TlaPlus => "TlaPlus"@,
        ArboriumLanguage::Toml => "Toml"@,
        ArboriumLanguage::Tsx => "Tsx"@,
        ArboriumLanguage::TypeScript => "TypeScript"@,
        ArboriumLanguage::Typst => "Typst"@,
        ArboriumLanguage::Uiua => "Uiua"@,
        ArboriumLanguage::VisualBasic => "VisualBasic"@,
        ArboriumLanguage::Verilog => "Verilog"@,
        ArboriumLanguage::Vhdl => "Vhdl"@,
        ArboriumLanguage::Vim => "Vim"@,
        ArboriumLanguage::Vue => "Vue"@,
        ArboriumLanguage::Wit => "Wit"@,
        ArboriumLanguage::X86Asm => "X86Asm"@,
        ArboriumLanguage::Xml => "Xml"@,
        ArboriumLanguage::Yaml => "Yaml"@,
        ArboriumLanguage::Yuri => "Yuri"@,
        ArboriumLanguage::Zig => "Zig"@,
        ArboriumLanguage::Zsh => "Zsh"@,
    }
}

/// The language whose Arborium slug is `s`, if any.
pub open spec fn catalog_with_slug(s: Seq<char>) -> Option<ArboriumLanguage> {
    if s == "rust"@ {
        Some(ArboriumLanguage::Rust)
    } else if s == "ada"@ {
        Some(ArboriumLanguage::Ada)
    } else if s == "agda"@ {
        Some(ArboriumLanguage::Agda)
    } else if s == "asciidoc"@ {
        Some(ArboriumLanguage::Asciidoc)
    } else if s == "asm"@ {
        Some(ArboriumLanguage::Asm)
    } else if s == "awk"@ {
        Some(ArboriumLanguage::Awk)
    } else if s == "bash"@ {
        Some(ArboriumLanguage::Bash)
    } else if s == "batch"@ {
        Some(ArboriumLanguage::Batch)
    } else if s == "c"@ {
        Some(ArboriumLanguage::C)
    } else if s == "c-sharp"@ {
        Some(ArboriumLanguage::CSharp)
    } else if s == "caddy"@ {
        Some(ArboriumLanguage::Caddy)
    } else if s == "capnp"@ {
        Some(ArboriumLanguage::Capnp)
    } else if s == "cedar"@ {
        Some(ArboriumLanguage::Cedar)
    } else if s == "cedarschema"@ {
        Some(ArboriumLanguage::CedarSchema)
    } else if s == "clojure"@ {
        Some(ArboriumLanguage::Clojure)
    } else if s == "cmake"@ {
        Some(ArboriumLanguage::CMake)
    } else if s == "cobol"@ {
        Some(ArboriumLanguage::Cobol)
    } else if s == "commonlisp"@ {
        Some(ArboriumLanguage::CommonLisp)
    } else if s == "cpp"@ {
        Some(ArboriumLanguage::Cpp)
    } else if s == "css"@ {
        Some(ArboriumLanguage::Css)
    } else if s == "d"@ {
        Some(ArboriumLanguage::D)
    } else if s == "dart"@ {
        Some(ArboriumLanguage::Dart)
    } else if s == "devicetree"@ {
        Some(ArboriumLanguage::DeviceTree)
    } else if s == "diff"@ {
        Some(ArboriumLanguage::Diff)
    } else if s == "dockerfile"@ {
        Some(ArboriumLanguage::Dockerfile)
    } else if s == "dot"@ {
        Some(ArboriumLanguage::Dot)
    } else if s == "elisp"@ {
        Some(ArboriumLanguage::Elisp)
    } else if s == "elixir"@ {
        Some(ArboriumLanguage::Elixir)
    } else if s == "elm"@ {
        Some(ArboriumLanguage::Elm)
    } else if s == "erlang"@ {
        Some(ArboriumLanguage::Erlang)
    } else if s == "fish"@ {
        Some(ArboriumLanguage::Fish)
    } else if s == "fsharp"@ {
        Some(ArboriumLanguage::FSharp)
    } else if s == "gleam"@ {
        Some(ArboriumLanguage::Gleam)
    } else if s == "glsl"@ {
        Some(ArboriumLanguage::Glsl)
    } else if s == "go"@ {
        Some(ArboriumLanguage::Go)
    } else if s == "graphql"@ {
        Some(ArboriumLanguage::GraphQL)
    } else if s == "groovy"@ {
        Some(ArboriumLanguage::Groovy)
    } else if s == "haskell"@ {
        Some(ArboriumLanguage::Haskell)
    } else if s == "hcl"@ {
        Some(ArboriumLanguage::Hcl)
    } else if s == "hlsl"@ {
        Some(ArboriumLanguage::Hlsl)
    } else if s == "html"@ {
        Some(ArboriumLanguage::Html)
    } else if s == "idris"@ {
        Some(ArboriumLanguage::Idris)
    } else if s == "ini"@ {
        Some(ArboriumLanguage::Ini)
    } else if s == "java"@ {
        Some(ArboriumLanguage::Java)
    } else if s == "javascript"@ {
        Some(ArboriumLanguage::JavaScript)
    } else if s == "jinja2"@ {
        Some(ArboriumLanguage::Jinja2)
    } else if s == "jq"@ {
        Some(ArboriumLanguage::Jq)
    } else if s == "json"@ {
        Some(ArboriumLanguage::Json)
    } else if s == "julia"@ {
        Some(ArboriumLanguage::Julia)
    } else if s == "kotlin"@ {
        Some(ArboriumLanguage::Kotlin)
    } else if s == "lean"@ {
        Some(ArboriumLanguage::Lean)
    } else if s == "lua"@ {
        Some(ArboriumLanguage::Lua)
    } else if s == "markdown"@ {
        Some(ArboriumLanguage::Markdown)
    } else if s == "matlab"@ {
        Some(ArboriumLanguage::Matlab)
    } else if s == "meson"@ {
        Some(ArboriumLanguage::Meson)
    } else if s == "nginx"@ {
        Some(ArboriumLanguage::Nginx)
    } else if s == "ninja"@ {
        Some(ArboriumLanguage::Ninja)
    } else if s == "nix"@ {
        Some(ArboriumLanguage::Nix)
    } else if s == "objc"@ {
        Some(ArboriumLanguage::ObjectiveC)
    } else if s == "ocaml"@ {
        Some(ArboriumLanguage::OCaml)
    } else if s == "perl"@ {
        Some(ArboriumLanguage::Perl)
    } else if s == "php"@ {
        Some(ArboriumLanguage::Php)
    } else if s == "postscript"@ {
        Some(ArboriumLanguage::PostScript)
    } else if s == "powershell"@ {
        Some(ArboriumLanguage::PowerShell)
    } else if s == "prolog"@ {
        Some(ArboriumLanguage::Prolog)
    } else if s == "python"@ {
        Some(ArboriumLanguage::Python)
    } else if s == "query"@ {
        Some(ArboriumLanguage::Query)
    } else if s == "r"@ {
        Some(ArboriumLanguage::R)
    } else if s == "rego"@ {
        Some(ArboriumLanguage::Rego)
    } else if s == "rescript"@ {
        Some(ArboriumLanguage::Rescript)
    } else if s == "ron"@ {
        Some(ArboriumLanguage::Ron)
    } else if s == "ruby"@ {
        Some(ArboriumLanguage::Ruby)
    } else if s == "scala"@ {
        Some(ArboriumLanguage::Scala)
    } else if s == "scheme"@ {
        Some(ArboriumLanguage::Scheme)
    } else if s == "scss"@ {
        Some(ArboriumLanguage::Scss)
    } else if s == "solidity"@ {
        Some(ArboriumLanguage::Solidity)
    } else if s == "sparql"@ {
        Some(ArboriumLanguage::Sparql)
    } else if s == "sql"@ {
        Some(ArboriumLanguage::Sql)
    } else if s == "ssh-config"@ {
        Some(ArboriumLanguage::SshConfig)
    } else if s == "starlark"@ {
        Some(ArboriumLanguage::Starlark)
    } else if s == "styx"@ {
        Some(ArboriumLanguage::Styx)
    } else if s == "svelte"@ {
        Some(ArboriumLanguage::Svelte)
    } else if s == "swift"@ {
        Some(ArboriumLanguage::Swift)
    } else if s == "textproto"@ {
        Some(ArboriumLanguage::Textproto)
    } else if s == "thrift"@ {
        Some(ArboriumLanguage::Thrift)
    } else if s == "tlaplus"@ {
        Some(ArboriumLanguage::TlaPlus)
    } else if s == "toml"@ {
        Some(ArboriumLanguage::Toml)
    } else if s == "tsx"@ {
        Some(ArboriumLanguage::Tsx)
    } else if s == "typescript"@ {
        Some(ArboriumLanguage::TypeScript)
    } else if s == "typst"@ {
        Some(ArboriumLanguage::Typst)
    } else if s == "uiua"@ {
        Some(ArboriumLanguage::Uiua)
    } else if s == "vb"@ {
        Some(ArboriumLanguage::VisualBasic)
    } else if s == "verilog"@ {
        Some(ArboriumLanguage::Verilog)
    } else if s == "vhdl"@ {
        Some(ArboriumLanguage::Vhdl)
    } else if s == "vim"@ {
        Some(ArboriumLanguage::Vim)
    } else if s == "vue"@ {
        Some(ArboriumLanguage::Vue)
    } else if s == "wit"@ {
        Some(ArboriumLanguage::Wit)
    } else if s == "x86asm"@ {
        Some(ArboriumLanguage::X86Asm)
    } else if s == "xml"@ {
        Some(ArboriumLanguage::Xml)
    } else if s == "yaml"@ {
        Some(ArboriumLanguage::Yaml)
    } else if s == "yuri"@ {
        Some(ArboriumLanguage::Yuri)
    } else if s == "zig"@ {
        Some(ArboriumLanguage::Zig)
    } else if s == "zsh"@ {
        Some(ArboriumLanguage::Zsh)
    } else {
        None
    }
}

/// The language whose variant is named `s`, if any.
pub open spec fn catalog_with_variant_name(s: Seq<char>) -> Option<ArboriumLanguage> {
    if s == "Rust"@ {
        Some(ArboriumLanguage::Rust)
    } else if s == "Ada"@ {
        Some(ArboriumLanguage::Ada)
    } else if s == "Agda"@ {
        Some(ArboriumLanguage::Agda)
    } else if s == "Asciidoc"@ {
        Some(ArboriumLanguage::Asciidoc)
    } else if s == "Asm"@ {
        Some(ArboriumLanguage::Asm)
    } else if s == "Awk"@ {
        Some(ArboriumLanguage::Awk)
    } else if s == "Bash"@ {
        Some(ArboriumLanguage::Bash)
    } else if s == "Batch"@ {
        Some(ArboriumLanguage::Batch)
    } else if s == "C"@ {
        Some(ArboriumLanguage::C)
    } else if s == "CSharp"@ {
        Some(ArboriumLanguage::CSharp)
    } else if s == "Caddy"@ {
        Some(ArboriumLanguage::Caddy)
    } else if s == "Capnp"@ {
        Some(ArboriumLanguage::Capnp)
    } else if s == "Cedar"@ {
        Some(ArboriumLanguage::Cedar)
    } else if s == "CedarSchema"@ {
        Some(ArboriumLanguage::CedarSchema)
    } else if s == "Clojure"@ {
        Some(ArboriumLanguage::Clojure)
    } else if s == "CMake"@ {
        Some(ArboriumLanguage::CMake)
    } else if s == "Cobol"@ {
        Some(ArboriumLanguage::Cobol)
    } else if s == "CommonLisp"@ {
        Some(ArboriumLanguage::CommonLisp)
    } else if s == "Cpp"@ {
        Some(ArboriumLanguage::Cpp)
    } else if s == "Css"@ {
        Some(ArboriumLanguage::Css)
    } else if s == "D"@ {
        Some(ArboriumLanguage::D)
    } else if s == "Dart"@ {
        Some(ArboriumLanguage::Dart)
    } else if s == "DeviceTree"@ {
        Some(ArboriumLanguage::DeviceTree)
    } else if s == "Diff"@ {
        Some(ArboriumLanguage::Diff)
    } else if s == "Dockerfile"@ {
        Some(ArboriumLanguage::Dockerfile)
    } else if s == "Dot"@ {
        Some(ArboriumLanguage::Dot)
    } else if s == "Elisp"@ {
        Some(ArboriumLanguage::Elisp)
    } else if s == "Elixir"@ {
        Some(ArboriumLanguage::Elixir)
    } else if s == "Elm"@ {
        Some(ArboriumLanguage::Elm)
    } else if s == "Erlang"@ {
        Some(ArboriumLanguage::Erlang)
    } else if s == "Fish"@ {
        Some(ArboriumLanguage::Fish)
    } else if s == "FSharp"@ {
        Some(ArboriumLanguage::FSharp)
    } else if s == "Gleam"@ {
        Some(ArboriumLanguage::Gleam)
    } else if s == "Glsl"@ {
        Some(ArboriumLanguage::Glsl)
    } else if s == "Go"@ {
        Some(ArboriumLanguage::Go)
    } else if s == "GraphQL"@ {
        Some(ArboriumLanguage::GraphQL)
    } else if s == "Groovy"@ {
        Some(ArboriumLanguage::Groovy)
    } else if s == "Haskell"@ {
        Some(ArboriumLanguage::Haskell)
    } else if s == "Hcl"@ {
        Some(ArboriumLanguage::Hcl)
    } else if s == "Hlsl"@ {
        Some(ArboriumLanguage::Hlsl)
    } else if s == "Html"@ {
        Some(ArboriumLanguage::Html)
    } else if s == "Idris"@ {
        Some(ArboriumLanguage::Idris)
    } else if s == "Ini"@ {
        Some(ArboriumLanguage::Ini)
    } else if s == "Java"@ {
        Some(ArboriumLanguage::Java)
    } else if s == "JavaScript"@ {
        Some(ArboriumLanguage::JavaScript)
    } else if s == "Jinja2"@ {
        Some(ArboriumLanguage::Jinja2)
    } else if s == "Jq"@ {
        Some(ArboriumLanguage::Jq)
    } else if s == "Json"@ {
        Some(ArboriumLanguage::Json)
    } else if s == "Julia"@ {
        Some(ArboriumLanguage::Julia)
    } else if s == "Kotlin"@ {
        Some(ArboriumLanguage::Kotlin)
    } else if s == "Lean"@ {
        Some(ArboriumLanguage::Lean)
    } else if s == "Lua"@ {
        Some(ArboriumLanguage::Lua)
    } else if s == "Markdown"@ {
        Some(ArboriumLanguage::Markdown)
    } else if s == "Matlab"@ {
        Some(ArboriumLanguage::Matlab)
    } else if s == "Meson"@ {
        Some(ArboriumLanguage::Meson)
    } else if s == "Nginx"@ {
        Some(ArboriumLanguage::Nginx)
    } else if s == "Ninja"@ {
        Some(ArboriumLanguage::Ninja)
    } else if s == "Nix"@ {
        Some(ArboriumLanguage::Nix)
    } else if s == "ObjectiveC"@ {
        Some(ArboriumLanguage::ObjectiveC)
    } else if s == "OCaml"@ {
        Some(ArboriumLanguage::OCaml)
    } else if s == "Perl"@ {
        Some(ArboriumLanguage::Perl)
    } else if s == "Php"@ {
        Some(ArboriumLanguage::Php)
    } else if s == "PostScript"@ {
        Some(ArboriumLanguage::PostScript)
    } else if s == "PowerShell"@ {
        Some(ArboriumLanguage::PowerShell)
    } else if s == "Prolog"@ {
        Some(ArboriumLanguage::Prolog)
    } else if s == "Python"@ {
        Some(ArboriumLanguage::Python)
    } else if s == "Query"@ {
        Some(ArboriumLanguage::Query)
    } else if s == "R"@ {
        Some(ArboriumLanguage::R)
    } else if s == "Rego"@ {
        Some(ArboriumLanguage::Rego)
    } else if s == "Rescript"@ {
        Some(ArboriumLanguage::Rescript)
    } else if s == "Ron"@ {
        Some(ArboriumLanguage::Ron)
    } else if s == "Ruby"@ {
        Some(ArboriumLanguage::Ruby)
    } else if s == "Scala"@ {
        Some(ArboriumLanguage::Scala)
    } else if s == "Scheme"@ {
        Some(ArboriumLanguage::Scheme)
    } else if s == "Scss"@ {
        Some(ArboriumLanguage::Scss)
    } else if s == "Solidity"@ {
        Some(ArboriumLanguage::Solidity)
    } else if s == "Sparql"@ {
        Some(ArboriumLanguage::Sparql)
    } else if s == "Sql"@ {
        Some(ArboriumLanguage::Sql)
    } else if s == "SshConfig"@ {
        Some(ArboriumLanguage::SshConfig)
    } else if s == "Starlark"@ {
        Some(ArboriumLanguage::Starlark)
    } else if s == "Styx"@ {
        Some(ArboriumLanguage::Styx)
    } else if s == "Svelte"@ {
        Some(ArboriumLanguage::Svelte)
    } else if s == "Swift"@ {
        Some(ArboriumLanguage::Swift)
    } else if s == "Textproto"@ {
        Some(ArboriumLanguage::Textproto)
    } else if s == "Thrift"@ {
        Some(ArboriumLanguage::Thrift)
    } else if s == "TlaPlus"@ {
        Some(ArboriumLanguage::TlaPlus)
    } else if s == "Toml"@ {
        Some(ArboriumLanguage::Toml)
    } else if s == "Tsx"@ {
        Some(ArboriumLanguage::Tsx)
    } else if s == "TypeScript"@ {
        Some(ArboriumLanguage::TypeScript)
    } else if s == "Typst"@ {
        Some(ArboriumLanguage::Typst)
    } else if s == "Uiua"@ {
        Some(ArboriumLanguage::Uiua)
    } else if s == "VisualBasic"@ {
        Some(ArboriumLanguage::VisualBasic)
    } else if s == "Verilog"@ {
        Some(ArboriumLanguage::Verilog)
    } else if s == "Vhdl"@ {
        Some(ArboriumLanguage::Vhdl)
    } else if s == "Vim"@ {
        Some(ArboriumLanguage::Vim)
    } else if s == "Vue"@ {
        Some(ArboriumLanguage::Vue)
    } else if s == "Wit"@ {
        Some(ArboriumLanguage::Wit)
    } else if s == "X86Asm"@ {
        Some(ArboriumLanguage::X86Asm)
    } else if s == "Xml"@ {
        Some(ArboriumLanguage::Xml)
    } else if s == "Yaml"@ {
        Some(ArboriumLanguage::Yaml)
    } else if s == "Yuri"@ {
        Some(ArboriumLanguage::Yuri)
    } else if s == "Zig"@ {
        Some(ArboriumLanguage::Zig)
    } else if s == "Zsh"@ {
        Some(ArboriumLanguage::Zsh)
    } else {
        None
    }
}

/// The language a `betlang` detection with model label `s` stands for, if any.
pub open spec fn catalog_for_betlang_label(s: Seq<char>) -> Option<ArboriumLanguage> {
    if s == "asm"@ {
        Some(ArboriumLanguage::Asm)
    } else if s == "batch"@ {
        Some(ArboriumLanguage::Batch)
    } else if s == "c"@ {
        Some(ArboriumLanguage::C)
    } else if s == "clojure"@ {
        Some(ArboriumLanguage::Clojure)
    } else if s == "cmake"@ {
        Some(ArboriumLanguage::CMake)
    } else if s == "cobol"@ {
        Some(ArboriumLanguage::Cobol)
    } else if s == "cpp"@ {
        Some(ArboriumLanguage::Cpp)
    } else if s == "cs"@ {
        Some(ArboriumLanguage::CSharp)
    } else if s == "css"@ {
        Some(ArboriumLanguage::Css)
    } else if s == "dart"@ {
        Some(ArboriumLanguage::Dart)
    } else if s == "dockerfile"@ {
        Some(ArboriumLanguage::Dockerfile)
    } else if s == "elixir"@ {
        Some(ArboriumLanguage::Elixir)
    } else if s == "erlang"@ {
        Some(ArboriumLanguage::Erlang)
    } else if s == "gemfile"@ {
        Some(ArboriumLanguage::Ruby)
    } else if s == "gemspec"@ {
        Some(ArboriumLanguage::Ruby)
    } else if s == "ruby"@ {
        Some(ArboriumLanguage::Ruby)
    } else if s == "go"@ {
        Some(ArboriumLanguage::Go)
    } else if s == "gradle"@ {
        Some(ArboriumLanguage::Groovy)
    } else if s == "groovy"@ {
        Some(ArboriumLanguage::Groovy)
    } else if s == "haskell"@ {
        Some(ArboriumLanguage::Haskell)
    } else if s == "html"@ {
        Some(ArboriumLanguage::Html)
    } else if s == "ini"@ {
        Some(ArboriumLanguage::Ini)
    } else if s == "java"@ {
        Some(ArboriumLanguage::Java)
    } else if s == "javascript"@ {
        Some(ArboriumLanguage::JavaScript)
    } else if s == "json"@ {
        Some(ArboriumLanguage::Json)
    } else if s == "julia"@ {
        Some(ArboriumLanguage::Julia)
    } else if s == "kotlin"@ {
        Some(ArboriumLanguage::Kotlin)
    } else if s == "lisp"@ {
        Some(ArboriumLanguage::CommonLisp)
    } else if s == "lua"@ {
        Some(ArboriumLanguage::Lua)
    } else if s == "markdown"@ {
        Some(ArboriumLanguage::Markdown)
    } else if s == "objectivec"@ {
        Some(ArboriumLanguage::ObjectiveC)
    } else if s == "ocaml"@ {
        Some(ArboriumLanguage::OCaml)
    } else if s == "perl"@ {
        Some(ArboriumLanguage::Perl)
    } else if s == "php"@ {
        Some(ArboriumLanguage::Php)
    } else if s == "powershell"@ {
        Some(ArboriumLanguage::PowerShell)
    } else if s == "python"@ {
        Some(ArboriumLanguage::Python)
    } else if s == "r"@ {
        Some(ArboriumLanguage::R)
    } else if s == "rust"@ {
        Some(ArboriumLanguage::Rust)
    } else if s == "scala"@ {
        Some(ArboriumLanguage::Scala)
    } else if s == "shell"@ {
        Some(ArboriumLanguage::Bash)
    } else if s == "sql"@ {
        Some(ArboriumLanguage::Sql)
    } else if s == "swift"@ {
        Some(ArboriumLanguage::Swift)
    } else if s == "toml"@ {
        Some(ArboriumLanguage::Toml)
    } else if s == "typescript"@ {
        Some(ArboriumLanguage::TypeScript)
    } else if s == "vba"@ {
        Some(ArboriumLanguage::VisualBasic)
    } else if s == "verilog"@ {
        Some(ArboriumLanguage::Verilog)
    } else if s == "xml"@ {
        Some(ArboriumLanguage::Xml)
    } else if s == "yaml"@ {
        Some(ArboriumLanguage::Yaml)
    } else {
        None
    }
}

impl ArboriumLanguage {
    /// Arborium slug for this language.
    pub fn slug(self) -> (r: &'static str)
        ensures
            r@ == catalog_slug(self),
    {
        match self {
            ArboriumLanguage::Rust => "rust",
            ArboriumLanguage::Ada => "ada",
            ArboriumLanguage::Agda => "agda",
            ArboriumLanguage::Asciidoc => "asciidoc",
            ArboriumLanguage::Asm => "asm",
            ArboriumLanguage::Awk => "awk",
            ArboriumLanguage::Bash => "bash",
            ArboriumLanguage::Batch => "batch",
            ArboriumLanguage::C => "c",
            ArboriumLanguage::CSharp => "c-sharp",
            ArboriumLanguage::Caddy => "caddy",
            ArboriumLanguage::Capnp => "capnp",
            ArboriumLanguage::Cedar => "cedar",
            ArboriumLanguage::CedarSchema => "cedarschema",
            ArboriumLanguage::Clojure => "clojure",
            ArboriumLanguage::CMake => "cmake",
            ArboriumLanguage::Cobol => "cobol",
            ArboriumLanguage::CommonLisp => "commonlisp",
            ArboriumLanguage::Cpp => "cpp",
            ArboriumLanguage::Css => "css",
            ArboriumLanguage::D => "d",
            ArboriumLanguage::Dart => "dart",
            ArboriumLanguage::DeviceTree => "devicetree",
            ArboriumLanguage::Diff => "diff",
            ArboriumLanguage::Dockerfile => "dockerfile",
            ArboriumLanguage::Dot => "dot",
            ArboriumLanguage::Elisp => "elisp",
            ArboriumLanguage::Elixir => "elixir",
            ArboriumLanguage::Elm => "elm",
            ArboriumLanguage::Erlang => "erlang",
            ArboriumLanguage::Fish => "fish",
            ArboriumLanguage::FSharp => "fsharp",
            ArboriumLanguage::Gleam => "gleam",
            ArboriumLanguage::Glsl => "glsl",
            ArboriumLanguage::Go => "go",
            ArboriumLanguage::GraphQL => "graphql",
            ArboriumLanguage::Groovy => "groovy",
            ArboriumLanguage::Haskell => "haskell",
            ArboriumLanguage::Hcl => "hcl",
            ArboriumLanguage::Hlsl => "hlsl",
            ArboriumLanguage::Html => "html",
            ArboriumLanguage::Idris => "idris",
            ArboriumLanguage::Ini => "ini",
            ArboriumLanguage::Java => "java",
            ArboriumLanguage::JavaScript => "javascript",
            ArboriumLanguage::Jinja2 => "jinja2",
            ArboriumLanguage::Jq => "jq",
            ArboriumLanguage::Json => "json",
            ArboriumLanguage::Julia => "julia",
            ArboriumLanguage::Kotlin => "kotlin",
            ArboriumLanguage::Lean => "lean",
            ArboriumLanguage::Lua => "lua",
            ArboriumLanguage::Markdown => "markdown",
            ArboriumLanguage::Matlab => "matlab",
            ArboriumLanguage::Meson => "meson",
            ArboriumLanguage::Nginx => "nginx",
            ArboriumLanguage::Ninja => "ninja",
            ArboriumLanguage::Nix => "nix",
            ArboriumLanguage::ObjectiveC => "objc",
            ArboriumLanguage::OCaml => "ocaml",
            ArboriumLanguage::Perl => "perl",
            ArboriumLanguage::Php => "php",
            ArboriumLanguage::PostScript => "postscript",
            ArboriumLanguage::PowerShell => "powershell",
            ArboriumLanguage::Prolog => "prolog",
            ArboriumLanguage::Python => "python",
            ArboriumLanguage::Query => "query",
            ArboriumLanguage::R => "r",
            ArboriumLanguage::Rego => "rego",
            ArboriumLanguage::Rescript => "rescript",
            ArboriumLanguage::Ron => "ron",
            ArboriumLanguage::Ruby => "ruby",
            ArboriumLanguage::Scala => "scala",
            ArboriumLanguage::Scheme => "scheme",
            ArboriumLanguage::Scss => "scss",
            ArboriumLanguage::Solidity => "solidity",
            ArboriumLanguage::Sparql => "sparql",
            ArboriumLanguage::Sql => "sql",
            ArboriumLanguage::SshConfig => "ssh-config",
            ArboriumLanguage::Starlark => "starlark",
            ArboriumLanguage::Styx => "styx",
            ArboriumLanguage::Svelte => "svelte",
            ArboriumLanguage::Swift => "swift",
            ArboriumLanguage::Textproto => "textproto",
            ArboriumLanguage::Thrift => "thrift",
            ArboriumLanguage::TlaPlus => "tlaplus",
            ArboriumLanguage::Toml => "toml",
            ArboriumLanguage::Tsx => "tsx",
            ArboriumLanguage::TypeScript => "typescript",
            ArboriumLanguage::Typst => "typst",
            ArboriumLanguage::Uiua => "uiua",
            ArboriumLanguage::VisualBasic => "vb",
            ArboriumLanguage::Verilog => "verilog",
            ArboriumLanguage::Vhdl => "vhdl",
            ArboriumLanguage::Vim => "vim",
            ArboriumLanguage::Vue => "vue",
            ArboriumLanguage::Wit => "wit",
            ArboriumLanguage::X86Asm => "x86asm",
            ArboriumLanguage::Xml => "xml",
            ArboriumLanguage::Yaml => "yaml",
            ArboriumLanguage::Yuri => "yuri",
            ArboriumLanguage::Zig => "zig",
            ArboriumLanguage::Zsh => "zsh",
        }
    }

    /// The name of this language's [`Language`](crate::Language) variant.
    pub fn variant_name(self) -> (r: &'static str)
        ensures
            r@ == catalog_variant_name(self),
    {
        match self {
            ArboriumLanguage::Rust => "Rust",
            ArboriumLanguage::Ada => "Ada",
            ArboriumLanguage::Agda => "Agda",
            ArboriumLanguage::Asciidoc => "Asciidoc",
            ArboriumLanguage::Asm => "Asm",
            ArboriumLanguage::Awk => "Awk",
            ArboriumLanguage::Bash => "Bash",
            ArboriumLanguage::Batch => "Batch",
            ArboriumLanguage::C => "C",
            ArboriumLanguage::CSharp => "CSharp",
            ArboriumLanguage::Caddy => "Caddy",
            ArboriumLanguage::Capnp => "Capnp",
            ArboriumLanguage::Cedar => "Cedar",
            ArboriumLanguage::CedarSchema => "CedarSchema",
            ArboriumLanguage::Clojure => "Clojure",
            ArboriumLanguage::CMake => "CMake",
            ArboriumLanguage::Cobol => "Cobol",
            ArboriumLanguage::CommonLisp => "CommonLisp",
            ArboriumLanguage::Cpp => "Cpp",
            ArboriumLanguage::Css => "Css",
            ArboriumLanguage::D => "D",
            ArboriumLanguage::Dart => "Dart",
            ArboriumLanguage::DeviceTree => "DeviceTree",
            ArboriumLanguage::Diff => "Diff",
            ArboriumLanguage::Dockerfile => "Dockerfile",
            ArboriumLanguage::Dot => "Dot",
            ArboriumLanguage::Elisp => "Elisp",
            ArboriumLanguage::Elixir => "Elixir",
            ArboriumLanguage::Elm => "Elm",
            ArboriumLanguage::Erlang => "Erlang",
            ArboriumLanguage::Fish => "Fish",
            ArboriumLanguage::FSharp => "FSharp",
            ArboriumLanguage::Gleam => "Gleam",
            ArboriumLanguage::Glsl => "Glsl",
            ArboriumLanguage::Go => "Go",
            ArboriumLanguage::GraphQL => "GraphQL",
            ArboriumLanguage::Groovy => "Groovy",
            ArboriumLanguage::Haskell => "Haskell",
            ArboriumLanguage::Hcl => "Hcl",
            ArboriumLanguage::Hlsl => "Hlsl",
            ArboriumLanguage::Html => "Html",
            ArboriumLanguage::Idris => "Idris",
            ArboriumLanguage::Ini => "Ini",
            ArboriumLanguage::Java => "Java",
            ArboriumLanguage::JavaScript => "JavaScript",
            ArboriumLanguage::Jinja2 => "Jinja2",
            ArboriumLanguage::Jq => "Jq",
            ArboriumLanguage::Json => "Json",
            ArboriumLanguage::Julia => "Julia",
            ArboriumLanguage::Kotlin => "Kotlin",
            ArboriumLanguage::Lean => "Lean",
            ArboriumLanguage::Lua => "Lua",
            ArboriumLanguage::Markdown => "Markdown",
            ArboriumLanguage::Matlab => "Matlab",
            ArboriumLanguage::Meson => "Meson",
            ArboriumLanguage::Nginx => "Nginx",
            ArboriumLanguage::Ninja => "Ninja",
            ArboriumLanguage::Nix => "Nix",
            ArboriumLanguage::ObjectiveC => "ObjectiveC",
            ArboriumLanguage::OCaml => "OCaml",
            ArboriumLanguage::Perl => "Perl",
            ArboriumLanguage::Php => "Php",
            ArboriumLanguage::PostScript => "PostScript",
            ArboriumLanguage::PowerShell => "PowerShell",
            ArboriumLanguage::Prolog => "Prolog",
            ArboriumLanguage::Python => "Python",
            ArboriumLanguage::Query => "Query",
            ArboriumLanguage::R => "R",
            ArboriumLanguage::Rego => "Rego",
            ArboriumLanguage::Rescript => "Rescript",
            ArboriumLanguage::Ron => "Ron",
            ArboriumLanguage::Ruby => "Ruby",
            ArboriumLanguage::Scala => "Scala",
            ArboriumLanguage::Scheme => "Scheme",
            ArboriumLanguage::Scss => "Scss",
            ArboriumLanguage::Solidity => "Solidity",
            ArboriumLanguage::Sparql => "Sparql",
            ArboriumLanguage::Sql => "Sql",
            ArboriumLanguage::SshConfig => "SshConfig",
            ArboriumLanguage::Starlark => "Starlark",
            ArboriumLanguage::Styx => "Styx",
            ArboriumLanguage::Svelte => "Svelte",
            ArboriumLanguage::Swift => "Swift",
            ArboriumLanguage::Textproto => "Textproto",
            ArboriumLanguage::Thrift => "Thrift",
            ArboriumLanguage::TlaPlus => "TlaPlus",
            ArboriumLanguage::Toml => "Toml",
            ArboriumLanguage::Tsx => "Tsx",
            ArboriumLanguage::TypeScript => "TypeScript",
            ArboriumLanguage::Typst => "Typst",
            ArboriumLanguage::Uiua => "Uiua",
            ArboriumLanguage::VisualBasic => "VisualBasic",
            ArboriumLanguage::Verilog => "Verilog",
            ArboriumLanguage::Vhdl => "Vhdl",
            ArboriumLanguage::Vim => "Vim",
            ArboriumLanguage::Vue => "Vue",
            ArboriumLanguage::Wit => "Wit",
            ArboriumLanguage::X86Asm => "X86Asm",
            ArboriumLanguage::Xml => "Xml",
            ArboriumLanguage::Yaml => "Yaml",
            ArboriumLanguage::Yuri => "Yuri",
            ArboriumLanguage::Zig => "Zig",
            ArboriumLanguage::Zsh => "Zsh",
        }
    }

    /// The language whose Arborium slug is `slug`; `None` for unknown slugs.
    pub fn from_slug(slug: &str) -> (r: Option<Self>)
        ensures
            r == catalog_with_slug(slug@),
    {
        if str_eq(slug, "rust") {
            return Some(ArboriumLanguage::Rust);
        }
        if str_eq(slug, "ada") {
            return Some(ArboriumLanguage::Ada);
        }
        if str_eq(slug, "agda") {
            return Some(ArboriumLanguage::Agda);
        }
        if str_eq(slug, "asciidoc") {
            return Some(ArboriumLanguage::Asciidoc);
        }
        if str_eq(slug, "asm") {
            return Some(ArboriumLanguage::Asm);
        }
        if str_eq(slug, "awk") {
            return Some(ArboriumLanguage::Awk);
        }
        if str_eq(slug, "bash") {
            return Some(ArboriumLanguage::Bash);
        }
        if str_eq(slug, "batch") {
            return Some(ArboriumLanguage::Batch);
        }
        if str_eq(slug, "c") {
            return Some(ArboriumLanguage::C);
        }
        if str_eq(slug, "c-sharp") {
            return Some(ArboriumLanguage::CSharp);
        }
        if str_eq(slug, "caddy") {
            return Some(ArboriumLanguage::Caddy);
        }
        if str_eq(slug, "capnp") {
            return Some(ArboriumLanguage::Capnp);
        }
        if str_eq(slug, "cedar") {
            return Some(ArboriumLanguage::Cedar);
        }
        if str_eq(slug, "cedarschema") {
            return Some(ArboriumLanguage::CedarSchema);
        }
        if str_eq(slug, "clojure") {
            return Some(ArboriumLanguage::Clojure);
        }
        if str_eq(slug, "cmake") {
            return Some(ArboriumLanguage::CMake);
        }
        if str_eq(slug, "cobol") {
            return Some(ArboriumLanguage::Cobol);
        }
        if str_eq(slug, "commonlisp") {
            return Some(ArboriumLanguage::CommonLisp);
        }
        if str_eq(slug, "cpp") {
            return Some(ArboriumLanguage::Cpp);
        }
        if str_eq(slug, "css") {
            return Some(ArboriumLanguage::Css);
        }
        if str_eq(slug, "d") {
            return Some(ArboriumLanguage::D);
        }
        if str_eq(slug, "dart") {
            return Some(ArboriumLanguage::Dart);
        }
        if str_eq(slug, "devicetree") {
            return Some(ArboriumLanguage::DeviceTree);
        }
        if str_eq(slug, "diff") {
            return Some(ArboriumLanguage::Diff);
        }
        if str_eq(slug, "dockerfile") {
            return Some(ArboriumLanguage::Dockerfile);
        }
        if str_eq(slug, "dot") {
            return Some(ArboriumLanguage::Dot);
        }
        if str_eq(slug, "elisp") {
            return Some(ArboriumLanguage::Elisp);
        }
        if str_eq(slug, "elixir") {
            return Some(ArboriumLanguage::Elixir);
        }
        if str_eq(slug, "elm") {
            return Some(ArboriumLanguage::Elm);
        }
        if str_eq(slug, "erlang") {
            return Some(ArboriumLanguage::Erlang);
        }
        if str_eq(slug, "fish") {
            return Some(ArboriumLanguage::Fish);
        }
        if str_eq(slug, "fsharp") {
            return Some(ArboriumLanguage::FSharp);
        }
        if str_eq(slug, "gleam") {
            return Some(ArboriumLanguage::Gleam);
        }
        if str_eq(slug, "glsl") {
            return Some(ArboriumLanguage::Glsl);
        }
        if str_eq(slug, "go") {
            return Some(ArboriumLanguage::Go);
        }
        if str_eq(slug, "graphql") {
            return Some(ArboriumLanguage::GraphQL);
        }
        if str_eq(slug, "groovy") {
            return Some(ArboriumLanguage::Groovy);
        }
        if str_eq(slug, "haskell") {
            return Some(ArboriumLanguage::Haskell);
        }
        if str_eq(slug, "hcl") {
            return Some(ArboriumLanguage::Hcl);
        }
        if str_eq(slug, "hlsl") {
            return Some(ArboriumLanguage::Hlsl);
        }
        if str_eq(slug, "html") {
            return Some(ArboriumLanguage::Html);
        }
        if str_eq(slug, "idris") {
            return Some(ArboriumLanguage::Idris);
        }
        if str_eq(slug, "ini") {
            return Some(ArboriumLanguage::Ini);
        }
        if str_eq(slug, "java") {
            return Some(ArboriumLanguage::Java);
        }
        if str_eq(slug, "javascript") {
            return Some(ArboriumLanguage::JavaScript);
        }
        if str_eq(slug, "jinja2") {
            return Some(ArboriumLanguage::Jinja2);
        }
        if str_eq(slug, "jq") {
            return Some(ArboriumLanguage::Jq);
        }
        if str_eq(slug, "json") {
            return Some(ArboriumLanguage::Json);
        }
        if str_eq(slug, "julia") {
            return Some(ArboriumLanguage::Julia);
        }
        if str_eq(slug, "kotlin") {
            return Some(ArboriumLanguage::Kotlin);
        }
        if str_eq(slug, "lean") {
            return Some(ArboriumLanguage::Lean);
        }
        if str_eq(slug, "lua") {
            return Some(ArboriumLanguage::Lua);
        }
        if str_eq(slug, "markdown") {
            return Some(ArboriumLanguage::Markdown);
        }
        if str_eq(slug, "matlab") {
            return Some(ArboriumLanguage::Matlab);
        }
        if str_eq(slug, "meson") {
            return Some(ArboriumLanguage::Meson);
        }
        if str_eq(slug, "nginx") {
            return Some(ArboriumLanguage::Nginx);
        }
        if str_eq(slug, "ninja") {
            return Some(ArboriumLanguage::Ninja);
        }
        if str_eq(slug, "nix") {
            return Some(ArboriumLanguage::Nix);
        }
        if str_eq(slug, "objc") {
            return Some(ArboriumLanguage::ObjectiveC);
        }
        if str_eq(slug, "ocaml") {
            return Some(ArboriumLanguage::OCaml);
        }
        if str_eq(slug, "perl") {
            return Some(ArboriumLanguage::Perl);
        }
        if str_eq(slug, "php") {
            return Some(ArboriumLanguage::Php);
        }
        if str_eq(slug, "postscript") {
            return Some(ArboriumLanguage::PostScript);
        }
        if str_eq(slug, "powershell") {
            return Some(ArboriumLanguage::PowerShell);
        }
        if str_eq(slug, "prolog") {
            return Some(ArboriumLanguage::Prolog);
        }
        if str_eq(slug, "python") {
            return Some(ArboriumLanguage::Python);
        }
        if str_eq(slug, "query") {
            return Some(ArboriumLanguage::Query);
        }
        if str_eq(slug, "r") {
            return Some(ArboriumLanguage::R);
        }
        if str_eq(slug, "rego") {
            return Some(ArboriumLanguage::Rego);
        }
        if str_eq(slug, "rescript") {
            return Some(ArboriumLanguage::Rescript);
        }
        if str_eq(slug, "ron") {
            return Some(ArboriumLanguage::Ron);
        }
        if str_eq(slug, "ruby") {
            return Some(ArboriumLanguage::Ruby);
        }
        if str_eq(slug, "scala") {
            return Some(ArboriumLanguage::Scala);
        }
        if str_eq(slug, "scheme") {
            return Some(ArboriumLanguage::Scheme);
        }
        if str_eq(slug, "scss") {
            return Some(ArboriumLanguage::Scss);
        }
        if str_eq(slug, "solidity") {
            return Some(ArboriumLanguage::Solidity);
        }
        if str_eq(slug, "sparql") {
            return Some(ArboriumLanguage::Sparql);
        }
        if str_eq(slug, "sql") {
            return Some(ArboriumLanguage::Sql);
        }
        if str_eq(slug, "ssh-config") {
            return Some(ArboriumLanguage::SshConfig);
        }
        if str_eq(slug, "starlark") {
            return Some(ArboriumLanguage::Starlark);
        }
        if str_eq(slug, "styx") {
            return Some(ArboriumLanguage::Styx);
        }
        if str_eq(slug, "svelte") {
            return Some(ArboriumLanguage::Svelte);
        }
        if str_eq(slug, "swift") {
            return Some(ArboriumLanguage::Swift);
        }
        if str_eq(slug, "textproto") {
            return Some(ArboriumLanguage::Textproto);
        }
        if str_eq(slug, "thrift") {
            return Some(ArboriumLanguage::Thrift);
        }
        if str_eq(slug, "tlaplus") {
            return Some(ArboriumLanguage::TlaPlus);
        }
        if str_eq(slug, "toml") {
            return Some(ArboriumLanguage::Toml);
        }
        if str_eq(slug, "tsx") {
            return Some(ArboriumLanguage::Tsx);
        }
        if str_eq(slug, "typescript") {
            return Some(ArboriumLanguage::TypeScript);
        }
        if str_eq(slug, "typst") {
            return Some(ArboriumLanguage::Typst);
        }
        if str_eq(slug, "uiua") {
            return Some(ArboriumLanguage::Uiua);
        }
        if str_eq(slug, "vb") {
            return Some(ArboriumLanguage::VisualBasic);
        }
        if str_eq(slug, "verilog") {
            return Some(ArboriumLanguage::Verilog);
        }
        if str_eq(slug, "vhdl") {
            return Some(ArboriumLanguage::Vhdl);
        }
        if str_eq(slug, "vim") {
            return Some(ArboriumLanguage::Vim);
        }
        if str_eq(slug, "vue") {
            return Some(ArboriumLanguage::Vue);
        }
        if str_eq(slug, "wit") {
            return Some(ArboriumLanguage::Wit);
        }
        if str_eq(slug, "x86asm") {
            return Some(ArboriumLanguage::X86Asm);
        }
        if str_eq(slug, "xml") {
            return Some(ArboriumLanguage::Xml);
        }
        if str_eq(slug, "yaml") {
            return Some(ArboriumLanguage::Yaml);
        }
        if str_eq(slug, "yuri") {
            return Some(ArboriumLanguage::Yuri);
        }
        if str_eq(slug, "zig") {
            return Some(ArboriumLanguage::Zig);
        }
        if str_eq(slug, "zsh") {
            return Some(ArboriumLanguage::Zsh);
        }
        None
    }

    /// The language whose variant is named `name`; `None` for other names.
    pub fn from_variant_name(name: &str) -> (r: Option<Self>)
        ensures
            r == catalog_with_variant_name(name@),
    {
        if str_eq(name, "Rust") {
            return Some(ArboriumLanguage::Rust);
        }
        if str_eq(name, "Ada") {
            return Some(ArboriumLanguage::Ada);
        }
        if str_eq(name, "Agda") {
            return Some(ArboriumLanguage::Agda);
        }
        if str_eq(name, "Asciidoc") {
            return Some(ArboriumLanguage::Asciidoc);
        }
        if str_eq(name, "Asm") {
            return Some(ArboriumLanguage::Asm);
        }
        if str_eq(name, "Awk") {
            return Some(ArboriumLanguage::Awk);
        }
        if str_eq(name, "Bash") {
            return Some(ArboriumLanguage::Bash);
        }
        if str_eq(name, "Batch") {
            return Some(ArboriumLanguage::Batch);
        }
        if str_eq(name, "C") {
            return Some(ArboriumLanguage::C);
        }
        if str_eq(name, "CSharp") {
            return Some(ArboriumLanguage::CSharp);
        }
        if str_eq(name, "Caddy") {
            return Some(ArboriumLanguage::Caddy);
        }
        if str_eq(name, "Capnp") {
            return Some(ArboriumLanguage::Capnp);
        }
        if str_eq(name, "Cedar") {
            return Some(ArboriumLanguage::Cedar);
        }
        if str_eq(name, "CedarSchema") {
            return Some(ArboriumLanguage::CedarSchema);
        }
        if str_eq(name, "Clojure") {
            return Some(ArboriumLanguage::Clojure);
        }
        if str_eq(name, "CMake") {
            return Some(ArboriumLanguage::CMake);
        }
        if str_eq(name, "Cobol") {
            return Some(ArboriumLanguage::Cobol);
        }
        if str_eq(name, "CommonLisp") {
            return Some(ArboriumLanguage::CommonLisp);
        }
        if str_eq(name, "Cpp") {
            return Some(ArboriumLanguage::Cpp);
        }
        if str_eq(name, "Css") {
            return Some(ArboriumLanguage::Css);
        }
        if str_eq(name, "D") {
            return Some(ArboriumLanguage::D);
        }
        if str_eq(name, "Dart") {
            return Some(ArboriumLanguage::Dart);
        }
        if str_eq(name, "DeviceTree") {
            return Some(ArboriumLanguage::DeviceTree);
        }
        if str_eq(name, "Diff") {
            return Some(ArboriumLanguage::Diff);
        }
        if str_eq(name, "Dockerfile") {
            return Some(ArboriumLanguage::Dockerfile);
        }
        if str_eq(name, "Dot") {
            return Some(ArboriumLanguage::Dot);
        }
        if str_eq(name, "Elisp") {
            return Some(ArboriumLanguage::Elisp);
        }
        if str_eq(name, "Elixir") {
            return Some(ArboriumLanguage::Elixir);
        }
        if str_eq(name, "Elm") {
            return Some(ArboriumLanguage::Elm);
        }
        if str_eq(name, "Erlang") {
            return Some(ArboriumLanguage::Erlang);
        }
        if str_eq(name, "Fish") {
            return Some(ArboriumLanguage::Fish);
        }
        if str_eq(name, "FSharp") {
            return Some(ArboriumLanguage::FSharp);
        }
        if str_eq(name, "Gleam") {
            return Some(ArboriumLanguage::Gleam);
        }
        if str_eq(name, "Glsl") {
            return Some(ArboriumLanguage::Glsl);
        }
        if str_eq(name, "Go") {
            return Some(ArboriumLanguage::Go);
        }
        if str_eq(name, "GraphQL") {
            return Some(ArboriumLanguage::GraphQL);
        }
        if str_eq(name, "Groovy") {
            return Some(ArboriumLanguage::Groovy);
        }
        if str_eq(name, "Haskell") {
            return Some(ArboriumLanguage::Haskell);
        }
        if str_eq(name, "Hcl") {
            return Some(ArboriumLanguage::Hcl);
        }
        if str_eq(name, "Hlsl") {
            return Some(ArboriumLanguage::Hlsl);
        }
        if str_eq(name, "Html") {
            return Some(ArboriumLanguage::Html);
        }
        if str_eq(name, "Idris") {
            return Some(ArboriumLanguage::Idris);
        }
        if str_eq(name, "Ini") {
            return Some(ArboriumLanguage::Ini);
        }
        if str_eq(name, "Java") {
            return Some(ArboriumLanguage::Java);
        }
        if str_eq(name, "JavaScript") {
            return Some(ArboriumLanguage::JavaScript);
        }
        if str_eq(name, "Jinja2") {
            return Some(ArboriumLanguage::Jinja2);
        }
        if str_eq(name, "Jq") {
            return Some(ArboriumLanguage::Jq);
        }
        if str_eq(name, "Json") {
            return Some(ArboriumLanguage::Json);
        }
        if str_eq(name, "Julia") {
            return Some(ArboriumLanguage::Julia);
        }
        if str_eq(name, "Kotlin") {
            return Some(ArboriumLanguage::Kotlin);
        }
        if str_eq(name, "Lean") {
            return Some(ArboriumLanguage::Lean);
        }
        if str_eq(name, "Lua") {
            return Some(ArboriumLanguage::Lua);
        }
        if str_eq(name, "Markdown") {
            return Some(ArboriumLanguage::Markdown);
        }
        if str_eq(name, "Matlab") {
            return Some(ArboriumLanguage::Matlab);
        }
        if str_eq(name, "Meson") {
            return Some(ArboriumLanguage::Meson);
        }
        if str_eq(name, "Nginx") {
            return Some(ArboriumLanguage::Nginx);
        }
        if str_eq(name, "Ninja") {
            return Some(ArboriumLanguage::Ninja);
        }
        if str_eq(name, "Nix") {
            return Some(ArboriumLanguage::Nix);
        }
        if str_eq(name, "ObjectiveC") {
            return Some(ArboriumLanguage::ObjectiveC);
        }
        if str_eq(name, "OCaml") {
            return Some(ArboriumLanguage::OCaml);
        }
        if str_eq(name, "Perl") {
            return Some(ArboriumLanguage::Perl);
        }
        if str_eq(name, "Php") {
            return Some(ArboriumLanguage::Php);
        }
        if str_eq(name, "PostScript") {
            return Some(ArboriumLanguage::PostScript);
        }
        if str_eq(name, "PowerShell") {
            return Some(ArboriumLanguage::PowerShell);
        }
        if str_eq(name, "Prolog") {
            return Some(ArboriumLanguage::Prolog);
        }
        if str_eq(name, "Python") {
            return Some(ArboriumLanguage::Python);
        }
        if str_eq(name, "Query") {
            return Some(ArboriumLanguage::Query);
        }
        if str_eq(name, "R") {
            return Some(ArboriumLanguage::R);
        }
        if str_eq(name, "Rego") {
            return Some(ArboriumLanguage::Rego);
        }
        if str_eq(name, "Rescript") {
            return Some(ArboriumLanguage::Rescript);
        }
        if str_eq(name, "Ron") {
            return Some(ArboriumLanguage::Ron);
        }
        if str_eq(name, "Ruby") {
            return Some(ArboriumLanguage::Ruby);
        }
        if str_eq(name, "Scala") {
            return Some(ArboriumLanguage::Scala);
        }
        if str_eq(name, "Scheme") {
            return Some(ArboriumLanguage::Scheme);
        }
        if str_eq(name, "Scss") {
            return Some(ArboriumLanguage::Scss);
        }
        if str_eq(name, "Solidity") {
            return Some(ArboriumLanguage::Solidity);
        }
        if str_eq(name, "Sparql") {
            return Some(ArboriumLanguage::Sparql);
        }
        if str_eq(name, "Sql") {
            return Some(ArboriumLanguage::Sql);
        }
        if str_eq(name, "SshConfig") {
            return Some(ArboriumLanguage::SshConfig);
        }
        if str_eq(name, "Starlark") {
            return Some(ArboriumLanguage::Starlark);
        }
        if str_eq(name, "Styx") {
            return Some(ArboriumLanguage::Styx);
        }
        if str_eq(name, "Svelte") {
            return Some(ArboriumLanguage::Svelte);
        }
        if str_eq(name, "Swift") {
            return Some(ArboriumLanguage::Swift);
        }
        if str_eq(name, "Textproto") {
            return Some(ArboriumLanguage::Textproto);
        }
        if str_eq(name, "Thrift") {
            return Some(ArboriumLanguage::Thrift);
        }
        if str_eq(name, "TlaPlus") {
            return Some(ArboriumLanguage::TlaPlus);
        }
        if str_eq(name, "Toml") {
            return Some(ArboriumLanguage::Toml);
        }
        if str_eq(name, "Tsx") {
            return Some(ArboriumLanguage::Tsx);
        }
        if str_eq(name, "TypeScript") {
            return Some(ArboriumLanguage::TypeScript);
        }
        if str_eq(name, "Typst") {
            return Some(ArboriumLanguage::Typst);
        }
        if str_eq(name, "Uiua") {
            return Some(ArboriumLanguage::Uiua);
        }
        if str_eq(name, "VisualBasic") {
            return Some(ArboriumLanguage::VisualBasic);
        }
        if str_eq(name, "Verilog") {
            return Some(ArboriumLanguage::Verilog);
        }
        if str_eq(name, "Vhdl") {
            return Some(ArboriumLanguage::Vhdl);
        }
        if str_eq(name, "Vim") {
            return Some(ArboriumLanguage::Vim);
        }
        if str_eq(name, "Vue") {
            return Some(ArboriumLanguage::Vue);
        }
        if str_eq(name, "Wit") {
            return Some(ArboriumLanguage::Wit);
        }
        if str_eq(name, "X86Asm") {
            return Some(ArboriumLanguage::X86Asm);
        }
        if str_eq(name, "Xml") {
            return Some(ArboriumLanguage::Xml);
        }
        if str_eq(name, "Yaml") {
            return Some(ArboriumLanguage::Yaml);
        }
        if str_eq(name, "Yuri") {
            return Some(ArboriumLanguage::Yuri);
        }
        if str_eq(name, "Zig") {
            return Some(ArboriumLanguage::Zig);
        }
        if str_eq(name, "Zsh") {
            return Some(ArboriumLanguage::Zsh);
        }
        None
    }

    /// The language a `betlang` model label stands for; `None` for labels
    /// without an Arborium grammar.
    pub fn from_betlang_label(label: &str) -> (r: Option<Self>)
        ensures
            r == catalog_for_betlang_label(label@),
    {
        if str_eq(label, "asm") {
            return Some(ArboriumLanguage::Asm);
        }
        if str_eq(label, "batch") {
            return Some(ArboriumLanguage::Batch);
        }
        if str_eq(label, "c") {
            return Some(ArboriumLanguage::C);
        }
        if str_eq(label, "clojure") {
            return Some(ArboriumLanguage::Clojure);
        }
        if str_eq(label, "cmake") {
            return Some(ArboriumLanguage::CMake);
        }
        if str_eq(label, "cobol") {
            return Some(ArboriumLanguage::Cobol);
        }
        if str_eq(label, "cpp") {
            return Some(ArboriumLanguage::Cpp);
        }
        if str_eq(label, "cs") {
            return Some(ArboriumLanguage::CSharp);
        }
        if str_eq(label, "css") {
            return Some(ArboriumLanguage::Css);
        }
        if str_eq(label, "dart") {
            return Some(ArboriumLanguage::Dart);
        }
        if str_eq(label, "dockerfile") {
            return Some(ArboriumLanguage::Dockerfile);
        }
        if str_eq(label, "elixir") {
            return Some(ArboriumLanguage::Elixir);
        }
        if str_eq(label, "erlang") {
            return Some(ArboriumLanguage::Erlang);
        }
        if str_eq(label, "gemfile") {
            return Some(ArboriumLanguage::Ruby);
        }
        if str_eq(label, "gemspec") {
            return Some(ArboriumLanguage::Ruby);
        }
        if str_eq(label, "ruby") {
            return Some(ArboriumLanguage::Ruby);
        }
        if str_eq(label, "go") {
            return Some(ArboriumLanguage::Go);
        }
        if str_eq(label, "gradle") {
            return Some(ArboriumLanguage::Groovy);
        }
        if str_eq(label, "groovy") {
            return Some(ArboriumLanguage::Groovy);
        }
        if str_eq(label, "haskell") {
            return Some(ArboriumLanguage::Haskell);
        }
        if str_eq(label, "html") {
            return Some(ArboriumLanguage::Html);
        }
        if str_eq(label, "ini") {
            return Some(ArboriumLanguage::Ini);
        }
        if str_eq(label, "java") {
            return Some(ArboriumLanguage::Java);
        }
        if str_eq(label, "javascript") {
            return Some(ArboriumLanguage::JavaScript);
        }
        if str_eq(label, "json") {
            return Some(ArboriumLanguage::Json);
        }
        if str_eq(label, "julia") {
            return Some(ArboriumLanguage::Julia);
        }
        if str_eq(label, "kotlin") {
            return Some(ArboriumLanguage::Kotlin);
        }
        if str_eq(label, "lisp") {
            return Some(ArboriumLanguage::CommonLisp);
        }
        if str_eq(label, "lua") {
            return Some(ArboriumLanguage::Lua);
        }
        if str_eq(label, "markdown") {
            return Some(ArboriumLanguage::Markdown);
        }
        if str_eq(label, "objectivec") {
            return Some(ArboriumLanguage::ObjectiveC);
        }
        if str_eq(label, "ocaml") {
            return Some(ArboriumLanguage::OCaml);
        }
        if str_eq(label, "perl") {
            return Some(ArboriumLanguage::Perl);
        }
        if str_eq(label, "php") {
            return Some(ArboriumLanguage::Php);
        }
        if str_eq(label, "powershell") {
            return Some(ArboriumLanguage::PowerShell);
        }
        if str_eq(label, "python") {
            return Some(ArboriumLanguage::Python);
        }
        if str_eq(label, "r") {
            return Some(ArboriumLanguage::R);
        }
        if str_eq(label, "rust") {
            return Some(ArboriumLanguage::Rust);
        }
        if str_eq(label, "scala") {
            return Some(ArboriumLanguage::Scala);
        }
        if str_eq(label, "shell") {
            return Some(ArboriumLanguage::Bash);
        }
        if str_eq(label, "sql") {
            return Some(ArboriumLanguage::Sql);
        }
        if str_eq(label, "swift") {
            return Some(ArboriumLanguage::Swift);
        }
        if str_eq(label, "toml") {
            return Some(ArboriumLanguage::Toml);
        }
        if str_eq(label, "typescript") {
            return Some(ArboriumLanguage::TypeScript);
        }
        if str_eq(label, "vba") {
            return Some(ArboriumLanguage::VisualBasic);
        }
        if str_eq(label, "verilog") {
            return Some(ArboriumLanguage::Verilog);
        }
        if str_eq(label, "xml") {
            return Some(ArboriumLanguage::Xml);
        }
        if str_eq(label, "yaml") {
            return Some(ArboriumLanguage::Yaml);
        }
        None
    }
}

} // verus!
