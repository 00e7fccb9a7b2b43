//! How the kind of a project, its framework, its branch and its
//! dependencies are told from what lies in its root.

use vstd::prelude::*;
use vstd::string::*;
use crate::errors::rendered;
use crate::file_utils::{access_refusal, validate_directory, PathFacts};
use crate::project::types::{
    framework_name, project_type_name, Framework, ProjectContext, ProjectType,
};
use crate::text::{
    before_char, chars_before, chars_contain, chars_eq, from_chars, has_prefix, has_substring,
    has_suffix, lines_of, matches_at, slice_chars, split_lines, str_contains, str_ends_with,
    string_texts, texts, to_chars, trim, trim_chars, trim_matching, trim_matching_chars,
};
use crate::types::{FileInfo, TauriResult};

verus! {

/// One of `names` is `name`.
pub open spec fn has_name(names: Seq<Seq<char>>, name: Seq<char>) -> bool {
    names.contains(name)
}

/// One of `names` ends with `suffix`.
pub open spec fn has_name_ending(names: Seq<Seq<char>>, suffix: Seq<char>) -> bool {
    exists|i: int| 0 <= i < names.len() && has_suffix(#[trigger] names[i], suffix)
}

/// The kind of the project whose root holds entries named `names`: the
/// first of the marks of a kind that is found. A `package.json` marks
/// TypeScript where there is a `tsconfig.json` beside it, and JavaScript
/// otherwise.
pub open spec fn project_type_of(names: Seq<Seq<char>>) -> ProjectType {
    if has_name(names, "Cargo.toml"@) {
        ProjectType::Rust
    } else if has_name(names, "package.json"@) {
        if has_name(names, "tsconfig.json"@) {
            ProjectType::TypeScript
        } else {
            ProjectType::JavaScript
        }
    } else if has_name(names, "requirements.txt"@) || has_name(names, "pyproject.toml"@) {
        ProjectType::Python
    } else if has_name(names, "pom.xml"@) || has_name(names, "build.gradle"@) {
        ProjectType::Java
    } else if has_name(names, "go.mod"@) {
        ProjectType::Go
    } else if has_name(names, "composer.json"@) {
        ProjectType::PHP
    } else if has_name(names, "Gemfile"@) {
        ProjectType::Ruby
    } else if has_name_ending(names, ".csproj"@) || has_name_ending(names, ".sln"@) {
        ProjectType::CSharp
    } else {
        ProjectType::Unknown
    }
}

fn any_ends_with(names: &Vec<String>, suffix: &str) -> (r: bool)
    ensures
        r == has_name_ending(string_texts(names@), suffix@),
{
    let mut i: usize = 0;
    while i < names.len()
        invariant
            i <= names.len(),
            forall|k: int| 0 <= k < i ==> !has_suffix(#[trigger] string_texts(names@)[k], suffix@),
        decreases names.len() - i,
    {
        assert(string_texts(names@)[i as int] == names@[i as int]@);
        if str_ends_with(names[i].as_str(), suffix) {
            return true;
        }
        i += 1;
    }
    false
}

/// Tells the kind of a project from the names of the entries of its root.
pub fn detect_project_type(names: &Vec<String>) -> (t: ProjectType)
    ensures
        t == project_type_of(string_texts(names@)),
{
    if crate::text::list_has(names, "Cargo.toml") {
        ProjectType::Rust
    } else if crate::text::list_has(names, "package.json") {
        if crate::text::list_has(names, "tsconfig.json") {
            ProjectType::TypeScript
        } else {
            ProjectType::JavaScript
        }
    } else if crate::text::list_has(names, "requirements.txt") || crate::text::list_has(
        names,
        "pyproject.toml",
    ) {
        ProjectType::Python
    } else if crate::text::list_has(names, "pom.xml") || crate::text::list_has(
        names,
        "build.gradle",
    ) {
        ProjectType::Java
    } else if crate::text::list_has(names, "go.mod") {
        ProjectType::Go
    } else if crate::text::list_has(names, "composer.json") {
        ProjectType::PHP
    } else if crate::text::list_has(names, "Gemfile") {
        ProjectType::Ruby
    } else if any_ends_with(names, ".csproj") || any_ends_with(names, ".sln") {
        ProjectType::CSharp
    } else {
        ProjectType::Unknown
    }
}

/// What a member of a JSON document is, as far as dependencies go.
#[derive(Debug)]
pub enum JsonMember {
    /// The text is no JSON document.
    Invalid,
    /// The document has no such member.
    Missing,
    /// The member is no object.
    NotAnObject,
    /// The member is an object with these keys, in the order the reader
    /// gives them.
    Keys(Vec<String>),
}

/// What a `JsonMember` holds.
pub enum MemberView {
    Invalid,
    Missing,
    NotAnObject,
    Keys(Seq<Seq<char>>),
}

impl View for JsonMember {
    type V = MemberView;

    open spec fn view(&self) -> MemberView {
        match self {
            JsonMember::Invalid => MemberView::Invalid,
            JsonMember::Missing => MemberView::Missing,
            JsonMember::NotAnObject => MemberView::NotAnObject,
            JsonMember::Keys(k) => MemberView::Keys(string_texts(k@)),
        }
    }
}

/// The member `name` of the JSON document `content`, as the reader of the
/// `serde_json` crate finds it.
pub uninterp spec fn json_member(content: Seq<char>, name: Seq<char>) -> MemberView;

/// Reads `content` with `serde_json::from_str` and looks the member `name`
/// up with `Value::get` and `Value::as_object`. What is found depends on
/// the two texts alone.
#[verifier::external_body]
fn read_json_member(content: &str, name: &str) -> (r: JsonMember)
    ensures
        r@ == json_member(content@, name@),
{
    match serde_json::from_str::<serde_json::Value>(content) {
        Err(_) => JsonMember::Invalid,
        Ok(document) => match document.get(name) {
            None => JsonMember::Missing,
            Some(member) => match member.as_object() {
                None => JsonMember::NotAnObject,
                Some(object) => JsonMember::Keys(object.keys().cloned().collect()),
            },
        },
    }
}

/// The packages that decide the framework of a project with the manifest
/// `package_json`: the keys of its dependencies, or, where it names none,
/// of its development dependencies.
pub open spec fn deciding_packages(dependencies: MemberView, dev_dependencies: MemberView) -> Option<
    Seq<Seq<char>>,
> {
    match dependencies {
        MemberView::Invalid => None,
        MemberView::NotAnObject => None,
        MemberView::Keys(k) => Some(k),
        MemberView::Missing => match dev_dependencies {
            MemberView::Keys(k) => Some(k),
            _ => None,
        },
    }
}

/// The framework that one of the packages `packages` brings, the first in
/// the order Next.js, React, Vue, Angular, Svelte, Nuxt, Express.
pub open spec fn framework_of_packages(packages: Seq<Seq<char>>) -> Option<Framework> {
    if packages.contains("next"@) {
        Some(Framework::NextJs)
    } else if packages.contains("react"@) {
        Some(Framework::React)
    } else if packages.contains("vue"@) {
        Some(Framework::Vue)
    } else if packages.contains("@angular/core"@) {
        Some(Framework::Angular)
    } else if packages.contains("svelte"@) {
        Some(Framework::Svelte)
    } else if packages.contains("nuxt"@) {
        Some(Framework::Nuxt)
    } else if packages.contains("express"@) {
        Some(Framework::Express)
    } else {
        None
    }
}

/// The framework that `packages` brings.
pub fn framework_among(packages: &Vec<String>) -> (r: Option<Framework>)
    ensures
        r == framework_of_packages(string_texts(packages@)),
{
    if crate::text::list_has(packages, "next") {
        Some(Framework::NextJs)
    } else if crate::text::list_has(packages, "react") {
        Some(Framework::React)
    } else if crate::text::list_has(packages, "vue") {
        Some(Framework::Vue)
    } else if crate::text::list_has(packages, "@angular/core") {
        Some(Framework::Angular)
    } else if crate::text::list_has(packages, "svelte") {
        Some(Framework::Svelte)
    } else if crate::text::list_has(packages, "nuxt") {
        Some(Framework::Nuxt)
    } else if crate::text::list_has(packages, "express") {
        Some(Framework::Express)
    } else {
        None
    }
}

/// What is read of the root of a project to tell its framework, its branch
/// and its dependencies. A text is absent where the file does not exist or
/// could not be read.
#[derive(Debug)]
pub struct ProjectFiles {
    /// The text of `package.json`.
    pub package_json: Option<String>,
    /// The text of `requirements.txt`.
    pub requirements: Option<String>,
    /// The text of `pom.xml`.
    pub pom: Option<String>,
    /// The text of `Cargo.toml`.
    pub cargo_toml: Option<String>,
    /// The text of `.git/HEAD`.
    pub git_head: Option<String>,
    /// There is a `src-tauri` in the root.
    pub has_src_tauri: bool,
}

/// The framework of a project: what its packages bring; else Tauri where
/// there is a `src-tauri`; else Django or Flask where the requirements name
/// one; else Spring Boot where the `pom.xml` names it.
pub open spec fn framework_of(files: ProjectFiles) -> Option<Framework> {
    let from_packages = match files.package_json {
        Some(text) => match deciding_packages(
            json_member(text@, "dependencies"@),
            json_member(text@, "devDependencies"@),
        ) {
            Some(packages) => framework_of_packages(packages),
            None => None,
        },
        None => None,
    };
    if from_packages is Some {
        from_packages
    } else if files.has_src_tauri {
        Some(Framework::Tauri)
    } else if files.requirements matches Some(r) && has_substring(r@, "Django"@) {
        Some(Framework::Django)
    } else if files.requirements matches Some(r) && has_substring(r@, "Flask"@) {
        Some(Framework::Flask)
    } else if files.pom matches Some(p) && has_substring(p@, "spring-boot"@) {
        Some(Framework::SpringBoot)
    } else {
        None
    }
}

/// Tells the framework of a project.
pub fn detect_framework(files: &ProjectFiles) -> (r: Option<Framework>)
    ensures
        r == framework_of(*files),
{
    if let Some(text) = &files.package_json {
        let packages = match read_json_member(text.as_str(), "dependencies") {
            JsonMember::Keys(k) => Some(k),
            JsonMember::Missing => match read_json_member(text.as_str(), "devDependencies") {
                JsonMember::Keys(k) => Some(k),
                _ => None,
            },
            _ => None,
        };
        if let Some(p) = packages {
            if let Some(f) = framework_among(&p) {
                return Some(f);
            }
        }
    }
    if files.has_src_tauri {
        return Some(Framework::Tauri);
    }
    if let Some(r) = &files.requirements {
        if str_contains(r.as_str(), "Django") {
            return Some(Framework::Django);
        }
        if str_contains(r.as_str(), "Flask") {
            return Some(Framework::Flask);
        }
    }
    if let Some(p) = &files.pom {
        if str_contains(p.as_str(), "spring-boot") {
            return Some(Framework::SpringBoot);
        }
    }
    None
}

/// The branch that the text of `.git/HEAD` names, where it names one.
pub open spec fn branch_of(head: Option<Seq<char>>) -> Option<Seq<char>> {
    match head {
        None => None,
        Some(text) => {
            let line = trim(text);
            if has_prefix(line, "ref: refs/heads/"@) {
                Some(line.skip("ref: refs/heads/"@.len() as int))
            } else {
                None
            }
        },
    }
}

/// Tells the branch of a project from the text of its `.git/HEAD`.
pub fn detect_git_branch(head: Option<&str>) -> (r: Option<String>)
    ensures
        crate::errors::opt_text(r) == branch_of(
            match head {
                Some(h) => Some(h@),
                None => None,
            },
        ),
{
    match head {
        None => None,
        Some(text) => {
            let chars = to_chars(text);
            let line = trim_chars(&chars);
            let prefix = to_chars("ref: refs/heads/");
            if matches_at(&line, &prefix, 0) {
                let rest = slice_chars(&line, prefix.len(), line.len());
                proof {
                    assert(line@.subrange(prefix.len() as int, line.len() as int) =~= line@.skip(
                        prefix.len() as int,
                    ));
                }
                Some(from_chars(&rest))
            } else {
                None
            }
        },
    }
}

/// The dependencies that the lines `lines` of a `Cargo.toml` name: in the
/// section `[dependencies]`, what stands before the first `=` of each line
/// that has one, without white space and quotation marks around it.
/// `inside` says whether the lines begin inside the section.
pub open spec fn cargo_dependencies(lines: Seq<Seq<char>>, inside: bool) -> Seq<Seq<char>>
    decreases lines.len(),
{
    if lines.len() == 0 {
        Seq::empty()
    } else {
        let line = trim(lines[0]);
        let rest = lines.drop_first();
        if line == "[dependencies]"@ {
            cargo_dependencies(rest, true)
        } else if line.len() > 0 && line[0] == '[' {
            cargo_dependencies(rest, false)
        } else if inside && line.contains('=') {
            seq![trim_matching(trim(before_char(line, '=')), '"')] + cargo_dependencies(rest, inside)
        } else {
            cargo_dependencies(rest, inside)
        }
    }
}

/// The dependencies that the lines `lines` of a `requirements.txt` name:
/// what stands before the first `=` of each line that is neither empty nor
/// a comment, without white space around it.
pub open spec fn python_dependencies(lines: Seq<Seq<char>>) -> Seq<Seq<char>>
    decreases lines.len(),
{
    if lines.len() == 0 {
        Seq::empty()
    } else {
        let line = trim(lines[0]);
        let rest = lines.drop_first();
        if line.len() > 0 && line[0] != '#' {
            seq![trim(before_char(line, '='))] + python_dependencies(rest)
        } else {
            python_dependencies(rest)
        }
    }
}

/// The keys of a member of a manifest, where it is an object.
pub open spec fn member_keys(m: MemberView) -> Seq<Seq<char>> {
    match m {
        MemberView::Keys(k) => k,
        _ => Seq::empty(),
    }
}

/// The dependencies of a project of the kind `t`.
pub open spec fn dependencies_of(t: ProjectType, files: ProjectFiles) -> Seq<Seq<char>> {
    match t {
        ProjectType::Rust => match files.cargo_toml {
            Some(text) => cargo_dependencies(lines_of(text@), false),
            None => Seq::empty(),
        },
        ProjectType::JavaScript | ProjectType::TypeScript => match files.package_json {
            Some(text) => if json_member(text@, "dependencies"@) is Invalid {
                Seq::empty()
            } else {
                member_keys(json_member(text@, "dependencies"@)) + member_keys(
                    json_member(text@, "devDependencies"@),
                )
            },
            None => Seq::empty(),
        },
        ProjectType::Python => match files.requirements {
            Some(text) => python_dependencies(lines_of(text@)),
            None => Seq::empty(),
        },
        _ => Seq::empty(),
    }
}

fn cargo_names(text: &str) -> (r: Vec<String>)
    ensures
        string_texts(r@) == cargo_dependencies(lines_of(text@), false),
{
    let chars = to_chars(text);
    let lines = split_lines(&chars);
    let section = to_chars("[dependencies]");
    let mut r: Vec<String> = Vec::new();
    let mut inside = false;
    let mut i: usize = 0;
    proof {
        assert(texts(lines@).skip(0) =~= texts(lines@));
        assert(string_texts(r@) =~= Seq::empty());
    }
    while i < lines.len()
        invariant
            i <= lines.len(),
            section@ == "[dependencies]"@,
            cargo_dependencies(texts(lines@), false) == string_texts(r@) + cargo_dependencies(
                texts(lines@).skip(i as int),
                inside,
            ),
        decreases lines.len() - i,
    {
        proof {
            assert(texts(lines@).skip(i as int).drop_first() =~= texts(lines@).skip(i + 1));
            assert(texts(lines@).skip(i as int)[0] == lines@[i as int]@);
        }
        let line = trim_chars(&lines[i]);
        if chars_eq(&line, &section) {
            inside = true;
        } else if line.len() > 0 && line[0] == '[' {
            inside = false;
        } else if inside && chars_contain(&line, '=') {
            let name = trim_matching_chars(&trim_chars(&chars_before(&line, '=')), '"');
            let ghost old_r = r@;
            let s = from_chars(&name);
            r.push(s);
            proof {
                assert(string_texts(r@) =~= string_texts(old_r).push(name@));
                assert(string_texts(old_r) + (seq![name@] + cargo_dependencies(
                    texts(lines@).skip(i + 1),
                    inside,
                )) =~= string_texts(old_r).push(name@) + cargo_dependencies(
                    texts(lines@).skip(i + 1),
                    inside,
                ));
            }
        }
        i += 1;
    }
    proof {
        assert(string_texts(r@) + Seq::<Seq<char>>::empty() =~= string_texts(r@));
    }
    r
}

fn python_names(text: &str) -> (r: Vec<String>)
    ensures
        string_texts(r@) == python_dependencies(lines_of(text@)),
{
    let chars = to_chars(text);
    let lines = split_lines(&chars);
    let mut r: Vec<String> = Vec::new();
    let mut i: usize = 0;
    proof {
        assert(texts(lines@).skip(0) =~= texts(lines@));
        assert(string_texts(r@) =~= Seq::empty());
    }
    while i < lines.len()
        invariant
            i <= lines.len(),
            python_dependencies(texts(lines@)) == string_texts(r@) + python_dependencies(
                texts(lines@).skip(i as int),
            ),
        decreases lines.len() - i,
    {
        proof {
            assert(texts(lines@).skip(i as int).drop_first() =~= texts(lines@).skip(i + 1));
            assert(texts(lines@).skip(i as int)[0] == lines@[i as int]@);
        }
        let line = trim_chars(&lines[i]);
        if line.len() > 0 && line[0] != '#' {
            let name = trim_chars(&chars_before(&line, '='));
            let ghost old_r = r@;
            let s = from_chars(&name);
            r.push(s);
            proof {
                assert(string_texts(r@) =~= string_texts(old_r).push(name@));
                assert(string_texts(old_r) + (seq![name@] + python_dependencies(
                    texts(lines@).skip(i + 1),
                )) =~= string_texts(old_r).push(name@) + python_dependencies(
                    texts(lines@).skip(i + 1),
                ));
            }
        }
        i += 1;
    }
    proof {
        assert(string_texts(r@) + Seq::<Seq<char>>::empty() =~= string_texts(r@));
    }
    r
}

fn keys_of(member: JsonMember) -> (r: Vec<String>)
    ensures
        string_texts(r@) == member_keys(member@),
{
    match member {
        JsonMember::Keys(k) => k,
        _ => {
            let r: Vec<String> = Vec::new();
            assert(string_texts(r@) =~= Seq::empty());
            r
        },
    }
}

/// Tells the dependencies of a project of the kind `project_type`.
pub fn detect_dependencies(project_type: ProjectType, files: &ProjectFiles) -> (r: Vec<String>)
    ensures
        string_texts(r@) == dependencies_of(project_type, *files),
{
    let mut none: Vec<String> = Vec::new();
    proof {
        assert(string_texts(none@) =~= Seq::empty());
    }
    match project_type {
        ProjectType::Rust => match &files.cargo_toml {
            Some(text) => cargo_names(text.as_str()),
            None => none,
        },
        ProjectType::JavaScript | ProjectType::TypeScript => match &files.package_json {
            Some(text) => {
                let first = read_json_member(text.as_str(), "dependencies");
                if let JsonMember::Invalid = first {
                    return none;
                }
                let mut all = keys_of(first);
                let mut more = keys_of(read_json_member(text.as_str(), "devDependencies"));
                let ghost a = all@;
                let ghost b = more@;
                all.append(&mut more);
                proof {
                    assert(string_texts(all@) =~= string_texts(a) + string_texts(b));
                }
                all
            },
            None => none,
        },
        ProjectType::Python => match &files.requirements {
            Some(text) => python_names(text.as_str()),
            None => none,
        },
        _ => none,
    }
}

/// The files that are read first of a project of the kind `t`, in order.
pub open spec fn initial_files(t: ProjectType) -> Seq<Seq<char>> {
    match t {
        ProjectType::Rust => seq!["Cargo.toml"@, "README.md"@, "src/main.rs"@, "src/lib.rs"@],
        ProjectType::JavaScript | ProjectType::TypeScript => seq![
            "package.json"@,
            "README.md"@,
            "index.js"@,
            "index.ts"@,
            "src/index.js"@,
            "src/index.ts"@,
        ],
        ProjectType::Python => seq![
            "requirements.txt"@,
            "README.md"@,
            "main.py"@,
            "app.py"@,
            "setup.py"@,
        ],
        ProjectType::Java => seq!["pom.xml"@, "build.gradle"@, "README.md"@],
        ProjectType::Go => seq!["go.mod"@, "go.sum"@, "README.md"@, "main.go"@],
        _ => seq!["README.md"@],
    }
}

/// The files that are read first of a project of the kind `t`.
pub fn read_initial_project_files(t: ProjectType) -> (r: Vec<&'static str>)
    ensures
        crate::project::types::str_texts(r@) == initial_files(t),
{
    let mut r: Vec<&'static str> = Vec::new();
    match t {
        ProjectType::Rust => {
            r.push("Cargo.toml");
            r.push("README.md");
            r.push("src/main.rs");
            r.push("src/lib.rs");
        },
        ProjectType::JavaScript | ProjectType::TypeScript => {
            r.push("package.json");
            r.push("README.md");
            r.push("index.js");
            r.push("index.ts");
            r.push("src/index.js");
            r.push("src/index.ts");
        },
        ProjectType::Python => {
            r.push("requirements.txt");
            r.push("README.md");
            r.push("main.py");
            r.push("app.py");
            r.push("setup.py");
        },
        ProjectType::Java => {
            r.push("pom.xml");
            r.push("build.gradle");
            r.push("README.md");
        },
        ProjectType::Go => {
            r.push("go.mod");
            r.push("go.sum");
            r.push("README.md");
            r.push("main.go");
        },
        _ => {
            r.push("README.md");
        },
    }
    assert(crate::project::types::str_texts(r@) =~= initial_files(t));
    r
}

/// What opening a project answers: the failure where the path is no
/// existing directory, else the context of the project.
pub open spec fn open_answer(
    path: Seq<char>,
    facts: PathFacts,
    names: Seq<Seq<char>>,
    files: ProjectFiles,
    open_files: Vec<FileInfo>,
    r: TauriResult<ProjectContext>,
) -> bool {
    &&& r.well_formed()
    &&& match access_refusal(facts, "directory access"@) {
        Some((code, message)) => r.is_error(rendered(code, message)),
        None => r.success && (r.data matches Some(c) && {
            &&& c.root_path@ == path
            &&& c.project_type@ == project_type_name(project_type_of(names))
            &&& c.open_files == open_files
            &&& string_texts(c.dependencies@) == dependencies_of(project_type_of(names), files)
            &&& crate::errors::opt_text(c.git_branch) == branch_of(
                crate::errors::opt_text(files.git_head),
            )
            &&& crate::errors::opt_text(c.active_framework) == (match framework_of(files) {
                Some(f) => Some(framework_name(f)),
                None => None,
            })
        }),
    }
}

/// Opens the project at `path`: tells its kind from the names of the
/// entries of its root, and its framework, branch and dependencies from
/// the files read of it. `open_files` are the files that were read first.
pub fn open_project(
    path: &str,
    facts: PathFacts,
    names: &Vec<String>,
    files: &ProjectFiles,
    open_files: Vec<FileInfo>,
) -> (r: TauriResult<ProjectContext>)
    ensures
        open_answer(path@, facts, string_texts(names@), *files, open_files, r),
{
    if let Err(e) = validate_directory(path, facts) {
        let text = e.render();
        return TauriResult::error(text.as_str());
    }
    let project_type = detect_project_type(names);
    let framework = detect_framework(files);
    let branch = detect_git_branch(
        match &files.git_head {
            Some(h) => Some(h.as_str()),
            None => None,
        },
    );
    let dependencies = detect_dependencies(project_type, files);
    let context = ProjectContext {
        root_path: String::from_str(path),
        project_type: String::from_str(project_type.to_string()),
        open_files,
        dependencies,
        git_branch: branch,
        active_framework: match framework {
            Some(f) => Some(String::from_str(f.to_string())),
            None => None,
        },
    };
    TauriResult::success(context)
}

} // verus!
