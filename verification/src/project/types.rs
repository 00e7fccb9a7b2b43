//! The context of a project and the kinds of project and framework.

use vstd::prelude::*;
use vstd::string::*;
use crate::text::{chars_eq, lowercase, to_chars, to_lowercase};
use crate::types::FileInfo;

verus! {

/// What is known of the open project.
#[derive(Debug)]
pub struct ProjectContext {
    pub root_path: String,
    pub project_type: String,
    pub open_files: Vec<FileInfo>,
    pub dependencies: Vec<String>,
    pub git_branch: Option<String>,
    pub active_framework: Option<String>,
}

impl ProjectContext {
    /// The context of a project of which only the root and the type are
    /// known.
    pub fn new(root_path: &str, project_type: &str) -> (c: Self)
        ensures
            c.root_path@ == root_path@,
            c.project_type@ == project_type@,
            c.open_files@.len() == 0,
            c.dependencies@.len() == 0,
            c.git_branch is None,
            c.active_framework is None,
    {
        ProjectContext {
            root_path: String::from_str(root_path),
            project_type: String::from_str(project_type),
            open_files: Vec::new(),
            dependencies: Vec::new(),
            git_branch: None,
            active_framework: None,
        }
    }

    /// The same context with `files` as its open files.
    pub fn with_files(self, files: Vec<FileInfo>) -> (c: Self)
        ensures
            c == (ProjectContext { open_files: files, ..self }),
    {
        ProjectContext { open_files: files, ..self }
    }

    /// The same context with `dependencies` as its dependencies.
    pub fn with_dependencies(self, dependencies: Vec<String>) -> (c: Self)
        ensures
            c == (ProjectContext { dependencies, ..self }),
    {
        ProjectContext { dependencies, ..self }
    }

    /// The same context on the branch `branch`.
    pub fn with_git_branch(self, branch: &str) -> (c: Self)
        ensures
            c.git_branch matches Some(b) && b@ == branch@,
            c == (ProjectContext { git_branch: c.git_branch, ..self }),
    {
        ProjectContext { git_branch: Some(String::from_str(branch)), ..self }
    }

    /// The same context with the framework `framework`.
    pub fn with_framework(self, framework: &str) -> (c: Self)
        ensures
            c.active_framework matches Some(f) && f@ == framework@,
            c == (ProjectContext { active_framework: c.active_framework, ..self }),
    {
        ProjectContext { active_framework: Some(String::from_str(framework)), ..self }
    }

    /// The number of open files.
    pub fn file_count(&self) -> (n: usize)
        ensures
            n == self.open_files@.len(),
    {
        self.open_files.len()
    }

    /// A framework is known.
    pub fn has_framework(&self) -> (r: bool)
        ensures
            r == self.active_framework is Some,
    {
        self.active_framework.is_some()
    }

    /// A branch is known, so the project is a repository.
    pub fn is_git_repository(&self) -> (r: bool)
        ensures
            r == self.git_branch is Some,
    {
        self.git_branch.is_some()
    }
}

/// The kind of a project.
#[derive(Debug, Clone, Copy, PartialEq, Eq, Structural)]
pub enum ProjectType {
    Rust,
    JavaScript,
    TypeScript,
    Python,
    Java,
    Go,
    PHP,
    Ruby,
    CSharp,
    Unknown,
}

/// The kind of project that the lower-case name `name` stands for.
pub open spec fn project_type_named(name: Seq<char>) -> ProjectType {
    if name == "rust"@ {
        ProjectType::Rust
    } else if name == "javascript"@ {
        ProjectType::JavaScript
    } else if name == "typescript"@ {
        ProjectType::TypeScript
    } else if name == "python"@ {
        ProjectType::Python
    } else if name == "java"@ {
        ProjectType::Java
    } else if name == "go"@ {
        ProjectType::Go
    } else if name == "php"@ {
        ProjectType::PHP
    } else if name == "ruby"@ {
        ProjectType::Ruby
    } else if name == "csharp"@ || name == "c#"@ {
        ProjectType::CSharp
    } else {
        ProjectType::Unknown
    }
}

/// The name of a kind of project.
pub open spec fn project_type_name(t: ProjectType) -> Seq<char> {
    match t {
        ProjectType::Rust => "rust"@,
        ProjectType::JavaScript => "javascript"@,
        ProjectType::TypeScript => "typescript"@,
        ProjectType::Python => "python"@,
        ProjectType::Java => "java"@,
        ProjectType::Go => "go"@,
        ProjectType::PHP => "php"@,
        ProjectType::Ruby => "ruby"@,
        ProjectType::CSharp => "csharp"@,
        ProjectType::Unknown => "unknown"@,
    }
}

/// The extensions that files of a kind of project typically have.
pub open spec fn project_type_extensions(t: ProjectType) -> Seq<Seq<char>> {
    match t {
        ProjectType::Rust => seq!["rs"@, "toml"@],
        ProjectType::JavaScript => seq!["js"@, "jsx"@, "json"@],
        ProjectType::TypeScript => seq!["ts"@, "tsx"@, "json"@],
        ProjectType::Python => seq!["py"@, "pyw"@, "txt"@, "toml"@],
        ProjectType::Java => seq!["java"@, "xml"@, "gradle"@],
        ProjectType::Go => seq!["go"@, "mod"@, "sum"@],
        ProjectType::PHP => seq!["php"@, "json"@],
        ProjectType::Ruby => seq!["rb"@, "gemfile"@],
        ProjectType::CSharp => seq!["cs"@, "csproj"@, "sln"@],
        ProjectType::Unknown => Seq::empty(),
    }
}

/// The texts that a vector of string slices holds, in order.
pub open spec fn str_texts(v: Seq<&'static str>) -> Seq<Seq<char>> {
    v.map_values(|s: &'static str| s@)
}

fn is(text: &Vec<char>, literal: &str) -> (r: bool)
    ensures
        r == (text@ == literal@),
{
    let other = to_chars(literal);
    chars_eq(text, &other)
}

impl ProjectType {
    /// The kind of project that a name in lower case stands for.
    pub fn from_lowercase(name: &str) -> (t: Self)
        ensures
            t == project_type_named(name@),
    {
        let n = to_chars(name);
        if is(&n, "rust") {
            ProjectType::Rust
        } else if is(&n, "javascript") {
            ProjectType::JavaScript
        } else if is(&n, "typescript") {
            ProjectType::TypeScript
        } else if is(&n, "python") {
            ProjectType::Python
        } else if is(&n, "java") {
            ProjectType::Java
        } else if is(&n, "go") {
            ProjectType::Go
        } else if is(&n, "php") {
            ProjectType::PHP
        } else if is(&n, "ruby") {
            ProjectType::Ruby
        } else if is(&n, "csharp") || is(&n, "c#") {
            ProjectType::CSharp
        } else {
            ProjectType::Unknown
        }
    }

    /// The kind of project that `s` names, without regard to case; `Unknown`
    /// for any other text.
    pub fn from_string(s: &str) -> (t: Self)
        ensures
            t == project_type_named(lowercase(s@)),
    {
        let lower = to_lowercase(s);
        ProjectType::from_lowercase(lower.as_str())
    }

    /// The name of the kind.
    pub fn to_string(&self) -> (r: &'static str)
        ensures
            r@ == project_type_name(*self),
    {
        match self {
            ProjectType::Rust => "rust",
            ProjectType::JavaScript => "javascript",
            ProjectType::TypeScript => "typescript",
            ProjectType::Python => "python",
            ProjectType::Java => "java",
            ProjectType::Go => "go",
            ProjectType::PHP => "php",
            ProjectType::Ruby => "ruby",
            ProjectType::CSharp => "csharp",
            ProjectType::Unknown => "unknown",
        }
    }

    /// The extensions that files of the kind typically have.
    pub fn typical_extensions(&self) -> (r: Vec<&'static str>)
        ensures
            str_texts(r@) == project_type_extensions(*self),
    {
        let mut r: Vec<&'static str> = Vec::new();
        match self {
            ProjectType::Rust => {
                r.push("rs");
                r.push("toml");
            },
            ProjectType::JavaScript => {
                r.push("js");
                r.push("jsx");
                r.push("json");
            },
            ProjectType::TypeScript => {
                r.push("ts");
                r.push("tsx");
                r.push("json");
            },
            ProjectType::Python => {
                r.push("py");
                r.push("pyw");
                r.push("txt");
                r.push("toml");
            },
            ProjectType::Java => {
                r.push("java");
                r.push("xml");
                r.push("gradle");
            },
            ProjectType::Go => {
                r.push("go");
                r.push("mod");
                r.push("sum");
            },
            ProjectType::PHP => {
                r.push("php");
                r.push("json");
            },
            ProjectType::Ruby => {
                r.push("rb");
                r.push("gemfile");
            },
            ProjectType::CSharp => {
                r.push("cs");
                r.push("csproj");
                r.push("sln");
            },
            ProjectType::Unknown => {},
        }
        assert(str_texts(r@) =~= project_type_extensions(*self));
        r
    }
}

/// Naming a kind of project and reading the name back gives the kind.
pub proof fn lemma_project_type_name_round_trip(t: ProjectType)
    ensures
        project_type_named(project_type_name(t)) == t,
{
    reveal_strlit("rust");
    reveal_strlit("javascript");
    reveal_strlit("typescript");
    reveal_strlit("python");
    reveal_strlit("java");
    reveal_strlit("go");
    reveal_strlit("php");
    reveal_strlit("ruby");
    reveal_strlit("csharp");
    reveal_strlit("c#");
    reveal_strlit("unknown");
    let n = project_type_name(t);
    assert("rust"@.len() == 4 && "java"@.len() == 4 && "ruby"@.len() == 4);
    assert("rust"@[1] == 'u' && "java"@[1] == 'a');
    assert("rust"@[0] == 'r' && "java"@[0] == 'j');
    assert("ruby"@[2] == 'b' && "rust"@[2] == 's');
    assert("javascript"@.len() == 10 && "typescript"@.len() == 10);
    assert("javascript"@[0] == 'j' && "typescript"@[0] == 't');
    assert("python"@.len() == 6 && "csharp"@.len() == 6);
    assert("python"@[0] == 'p' && "csharp"@[0] == 'c');
    assert("go"@.len() == 2 && "c#"@.len() == 2);
    assert("go"@[0] == 'g' && "c#"@[0] == 'c');
    assert("php"@.len() == 3);
    assert("unknown"@.len() == 7);
}

/// A framework.
#[derive(Debug, Clone, Copy, PartialEq, Eq, Structural)]
pub enum Framework {
    NextJs,
    React,
    Vue,
    Angular,
    Svelte,
    Nuxt,
    Tauri,
    Express,
    Django,
    Flask,
    SpringBoot,
    Generic,
}

/// The framework that the lower-case name `name` stands for.
pub open spec fn framework_named(name: Seq<char>) -> Framework {
    if name == "next.js"@ || name == "nextjs"@ {
        Framework::NextJs
    } else if name == "react"@ {
        Framework::React
    } else if name == "vue.js"@ || name == "vue"@ {
        Framework::Vue
    } else if name == "angular"@ {
        Framework::Angular
    } else if name == "svelte"@ {
        Framework::Svelte
    } else if name == "nuxt.js"@ || name == "nuxt"@ {
        Framework::Nuxt
    } else if name == "tauri"@ {
        Framework::Tauri
    } else if name == "express"@ {
        Framework::Express
    } else if name == "django"@ {
        Framework::Django
    } else if name == "flask"@ {
        Framework::Flask
    } else if name == "spring boot"@ || name == "springboot"@ {
        Framework::SpringBoot
    } else {
        Framework::Generic
    }
}

/// The name of a framework.
pub open spec fn framework_name(f: Framework) -> Seq<char> {
    match f {
        Framework::NextJs => "Next.js"@,
        Framework::React => "React"@,
        Framework::Vue => "Vue.js"@,
        Framework::Angular => "Angular"@,
        Framework::Svelte => "Svelte"@,
        Framework::Nuxt => "Nuxt.js"@,
        Framework::Tauri => "Tauri"@,
        Framework::Express => "Express"@,
        Framework::Django => "Django"@,
        Framework::Flask => "Flask"@,
        Framework::SpringBoot => "Spring Boot"@,
        Framework::Generic => "Generic"@,
    }
}

impl Framework {
    /// The framework that a name in lower case stands for.
    pub fn from_lowercase(name: &str) -> (f: Self)
        ensures
            f == framework_named(name@),
    {
        let n = to_chars(name);
        if is(&n, "next.js") || is(&n, "nextjs") {
            Framework::NextJs
        } else if is(&n, "react") {
            Framework::React
        } else if is(&n, "vue.js") || is(&n, "vue") {
            Framework::Vue
        } else if is(&n, "angular") {
            Framework::Angular
        } else if is(&n, "svelte") {
            Framework::Svelte
        } else if is(&n, "nuxt.js") || is(&n, "nuxt") {
            Framework::Nuxt
        } else if is(&n, "tauri") {
            Framework::Tauri
        } else if is(&n, "express") {
            Framework::Express
        } else if is(&n, "django") {
            Framework::Django
        } else if is(&n, "flask") {
            Framework::Flask
        } else if is(&n, "spring boot") || is(&n, "springboot") {
            Framework::SpringBoot
        } else {
            Framework::Generic
        }
    }

    /// The framework that `s` names, without regard to case; `Generic` for
    /// any other text.
    pub fn from_string(s: &str) -> (f: Self)
        ensures
            f == framework_named(lowercase(s@)),
    {
        let lower = to_lowercase(s);
        Framework::from_lowercase(lower.as_str())
    }

    /// The name of the framework.
    pub fn to_string(&self) -> (r: &'static str)
        ensures
            r@ == framework_name(*self),
    {
        match self {
            Framework::NextJs => "Next.js",
            Framework::React => "React",
            Framework::Vue => "Vue.js",
            Framework::Angular => "Angular",
            Framework::Svelte => "Svelte",
            Framework::Nuxt => "Nuxt.js",
            Framework::Tauri => "Tauri",
            Framework::Express => "Express",
            Framework::Django => "Django",
            Framework::Flask => "Flask",
            Framework::SpringBoot => "Spring Boot",
            Framework::Generic => "Generic",
        }
    }
}

} // verus!
