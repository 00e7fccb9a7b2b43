use syntari_desktop_lib::file_utils::PathFacts;
use syntari_desktop_lib::project::commands::{
    detect_dependencies, detect_framework, detect_git_branch, detect_project_type,
    framework_among, open_project, read_initial_project_files, ProjectFiles,
};
use syntari_desktop_lib::project::types::{Framework, ProjectContext, ProjectType};

fn names(list: &[&str]) -> Vec<String> {
    list.iter().map(|s| s.to_string()).collect()
}

fn no_files() -> ProjectFiles {
    ProjectFiles {
        package_json: None,
        requirements: None,
        pom: None,
        cargo_toml: None,
        git_head: None,
        has_src_tauri: false,
    }
}

#[test]
fn project_kinds_are_told_from_their_marks() {
    assert_eq!(detect_project_type(&names(&["src", "Cargo.toml", "package.json"])), ProjectType::Rust);
    assert_eq!(detect_project_type(&names(&["package.json"])), ProjectType::JavaScript);
    assert_eq!(detect_project_type(&names(&["tsconfig.json", "package.json"])), ProjectType::TypeScript);
    assert_eq!(detect_project_type(&names(&["requirements.txt"])), ProjectType::Python);
    assert_eq!(detect_project_type(&names(&["pyproject.toml", "pom.xml"])), ProjectType::Python);
    assert_eq!(detect_project_type(&names(&["build.gradle"])), ProjectType::Java);
    assert_eq!(detect_project_type(&names(&["go.mod"])), ProjectType::Go);
    assert_eq!(detect_project_type(&names(&["composer.json"])), ProjectType::PHP);
    assert_eq!(detect_project_type(&names(&["Gemfile"])), ProjectType::Ruby);
    assert_eq!(detect_project_type(&names(&["App.csproj"])), ProjectType::CSharp);
    assert_eq!(detect_project_type(&names(&["All.sln"])), ProjectType::CSharp);
    assert_eq!(detect_project_type(&names(&["cargo.toml", "README.md"])), ProjectType::Unknown);
    assert_eq!(detect_project_type(&Vec::new()), ProjectType::Unknown);
}

#[test]
fn kinds_and_frameworks_have_names() {
    assert_eq!(ProjectType::from_string("Rust"), ProjectType::Rust);
    assert_eq!(ProjectType::from_string("C#"), ProjectType::CSharp);
    assert_eq!(ProjectType::from_string("CSHARP"), ProjectType::CSharp);
    assert_eq!(ProjectType::from_string("cobol"), ProjectType::Unknown);
    assert_eq!(ProjectType::from_lowercase("Rust"), ProjectType::Unknown);
    for t in [
        ProjectType::Rust, ProjectType::JavaScript, ProjectType::TypeScript, ProjectType::Python,
        ProjectType::Java, ProjectType::Go, ProjectType::PHP, ProjectType::Ruby, ProjectType::CSharp,
        ProjectType::Unknown,
    ] {
        assert_eq!(ProjectType::from_string(t.to_string()), t);
    }
    assert_eq!(ProjectType::Python.typical_extensions(), vec!["py", "pyw", "txt", "toml"]);
    assert!(ProjectType::Unknown.typical_extensions().is_empty());
    assert_eq!(Framework::from_string("Next.js"), Framework::NextJs);
    assert_eq!(Framework::from_string("SPRING BOOT"), Framework::SpringBoot);
    assert_eq!(Framework::from_string("rails"), Framework::Generic);
    assert_eq!(Framework::Vue.to_string(), "Vue.js");
    for f in [
        Framework::NextJs, Framework::React, Framework::Vue, Framework::Angular, Framework::Svelte,
        Framework::Nuxt, Framework::Tauri, Framework::Express, Framework::Django, Framework::Flask,
        Framework::SpringBoot,
    ] {
        assert_eq!(Framework::from_string(f.to_string()), f);
    }
}

#[test]
fn frameworks_are_told_from_the_manifest() {
    let mut files = no_files();
    files.package_json = Some(r#"{"dependencies": {"react": "18", "express": "4"}}"#.to_string());
    assert_eq!(detect_framework(&files), Some(Framework::React));
    files.package_json = Some(r#"{"devDependencies": {"svelte": "4"}}"#.to_string());
    assert_eq!(detect_framework(&files), Some(Framework::Svelte));
    files.package_json = Some(r#"{"dependencies": {"left-pad": "1"}, "devDependencies": {"vue": "3"}}"#.to_string());
    assert_eq!(detect_framework(&files), None);
    files.package_json = Some(r#"{"dependencies": 5, "devDependencies": {"vue": "3"}}"#.to_string());
    assert_eq!(detect_framework(&files), None);
    files.has_src_tauri = true;
    assert_eq!(detect_framework(&files), Some(Framework::Tauri));
    files.package_json = Some("not json".to_string());
    assert_eq!(detect_framework(&files), Some(Framework::Tauri));
    files.has_src_tauri = false;
    files.requirements = Some("Flask==2.0\nDjango==4".to_string());
    assert_eq!(detect_framework(&files), Some(Framework::Django));
    files.requirements = Some("Flask==2.0".to_string());
    assert_eq!(detect_framework(&files), Some(Framework::Flask));
    files.requirements = None;
    files.pom = Some("<artifactId>spring-boot-starter</artifactId>".to_string());
    assert_eq!(detect_framework(&files), Some(Framework::SpringBoot));
    assert_eq!(detect_framework(&no_files()), None);
    assert_eq!(framework_among(&names(&["nuxt", "next"])), Some(Framework::NextJs));
    assert_eq!(framework_among(&names(&["@angular/core"])), Some(Framework::Angular));
}

#[test]
fn the_branch_is_read_from_the_head() {
    assert_eq!(detect_git_branch(Some("ref: refs/heads/main\n")), Some("main".to_string()));
    assert_eq!(detect_git_branch(Some("  ref: refs/heads/feature/x  ")), Some("feature/x".to_string()));
    assert_eq!(detect_git_branch(Some("ref: refs/heads/")), Some("".to_string()));
    assert_eq!(detect_git_branch(Some("4b825dc642cb6eb9a060e54bf8d69288fbee4904")), None);
    assert_eq!(detect_git_branch(Some("")), None);
    assert_eq!(detect_git_branch(None), None);
}

#[test]
fn dependencies_are_read_from_the_manifests() {
    let mut files = no_files();
    files.cargo_toml = Some(
        "[package]\nname = \"x\"\n\n[dependencies]\nserde = \"1\"\n\"quoted\" = { version = \"2\" }\n# note\n  regex=\"1\"\n\n[dev-dependencies]\ntempfile = \"3\"\n[dependencies]\nlast = \"0\"\n"
            .to_string(),
    );
    assert_eq!(detect_dependencies(ProjectType::Rust, &files), vec!["serde", "quoted", "regex", "last"]);
    files.requirements = Some("# deps\nrequests==2.31\n\nflask>=2\n  numpy  \n".to_string());
    assert_eq!(detect_dependencies(ProjectType::Python, &files), vec!["requests", "flask>", "numpy"]);
    files.package_json =
        Some(r#"{"dependencies": {"b": "1", "a": "2"}, "devDependencies": {"c": "3"}}"#.to_string());
    assert_eq!(detect_dependencies(ProjectType::JavaScript, &files), vec!["a", "b", "c"]);
    assert_eq!(detect_dependencies(ProjectType::TypeScript, &files), vec!["a", "b", "c"]);
    files.package_json = Some(r#"{"devDependencies": {"c": "3"}}"#.to_string());
    assert_eq!(detect_dependencies(ProjectType::JavaScript, &files), vec!["c"]);
    files.package_json = Some("{".to_string());
    assert!(detect_dependencies(ProjectType::JavaScript, &files).is_empty());
    assert!(detect_dependencies(ProjectType::Go, &files).is_empty());
    assert!(detect_dependencies(ProjectType::Rust, &no_files()).is_empty());
}

#[test]
fn the_first_files_depend_on_the_kind() {
    assert_eq!(read_initial_project_files(ProjectType::Rust), vec!["Cargo.toml", "README.md", "src/main.rs", "src/lib.rs"]);
    assert_eq!(read_initial_project_files(ProjectType::TypeScript).len(), 6);
    assert_eq!(read_initial_project_files(ProjectType::Go), vec!["go.mod", "go.sum", "README.md", "main.go"]);
    assert_eq!(read_initial_project_files(ProjectType::Ruby), vec!["README.md"]);
}

#[test]
fn a_project_is_opened() {
    let dir = PathFacts { exists: true, is_dir: true, is_file: false };
    let mut files = no_files();
    files.cargo_toml = Some("[dependencies]\nserde = \"1\"\n".to_string());
    files.git_head = Some("ref: refs/heads/dev\n".to_string());
    files.has_src_tauri = true;
    let r = open_project("/ws", dir, &names(&["Cargo.toml", "src-tauri"]), &files, Vec::new());
    assert!(r.success);
    let context = r.data.unwrap();
    assert_eq!(context.root_path, "/ws");
    assert_eq!(context.project_type, "rust");
    assert_eq!(context.dependencies, vec!["serde"]);
    assert_eq!(context.git_branch, Some("dev".to_string()));
    assert_eq!(context.active_framework, Some("Tauri".to_string()));
    assert!(context.is_git_repository());
    assert!(context.has_framework());
    assert_eq!(context.file_count(), 0);
    let missing = PathFacts { exists: false, is_dir: false, is_file: false };
    let r = open_project("/ws", missing, &Vec::new(), &no_files(), Vec::new());
    assert_eq!(r.error, Some("[PATH_NOT_FOUND] Path does not exist for directory access".to_string()));
    let file = PathFacts { exists: true, is_dir: false, is_file: true };
    let r = open_project("/ws", file, &Vec::new(), &no_files(), Vec::new());
    assert_eq!(r.error, Some("[NOT_A_DIRECTORY] Path is not a directory".to_string()));
}

#[test]
fn a_context_is_built_step_by_step() {
    let context = ProjectContext::new("/ws", "go")
        .with_dependencies(vec!["x".to_string()])
        .with_git_branch("main")
        .with_framework("Express")
        .with_files(Vec::new());
    assert_eq!(context.root_path, "/ws");
    assert_eq!(context.project_type, "go");
    assert_eq!(context.dependencies, vec!["x"]);
    assert_eq!(context.git_branch, Some("main".to_string()));
    assert_eq!(context.active_framework, Some("Express".to_string()));
    let bare = ProjectContext::new("/ws", "go");
    assert!(!bare.has_framework());
    assert!(!bare.is_git_repository());
    assert_eq!(bare.file_count(), 0);
}
