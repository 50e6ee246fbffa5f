//! New projects: the skeleton that `run_project` lays out, and the template
//! generator invocation that `new` runs.
use vstd::prelude::*;
use vstd::string::*;
use crate::text::{views, joined_path, join_path};
use crate::cli::make::{lowercase, to_lowercase};
use crate::cli::error::CliError;

verus! {

/// The directories of a new project, relative to its root, in creation order.
pub open spec fn project_dirs() -> Seq<Seq<char>> {
    seq![
        "src/app/controllers"@,
        "src/app/models"@,
        "src/app/views"@,
        "src/app/middleware"@,
        "src/config"@,
        "src/routes"@,
        "src/public"@,
        "src/resources/js"@,
        "src/resources/css"@,
        "migrations"@,
    ]
}

/// The files of a new project, relative to its root, with their contents, in
/// creation order.
pub open spec fn project_files() -> Seq<(Seq<char>, Seq<char>)> {
    seq![
        ("src/main.rs"@, "fn main() { println!(\"Hello, world!\"); }"@),
        ("src/lib.rs"@, "// Library code goes here"@),
        ("Cargo.toml"@, "[package]\nname = \"project\"\nversion = \"0.1.0\"\nedition = \"2021\""@),
        (".env"@, "# Environment variables go here"@),
        (".gitignore"@, "/target\n/Cargo.lock"@),
        ("README.md"@, "# Project\n\nA new Ruskit project."@),
    ]
}

/// What `run_project` creates for a project named `name`: the project directory,
/// then each directory, then each file with its contents, all under it.
pub struct ProjectLayout {
    pub root: String,
    pub dirs: Vec<String>,
    pub files: Vec<(String, String)>,
}

/// The paths and contents of a vector of files.
pub open spec fn file_views(files: Seq<(String, String)>) -> Seq<(Seq<char>, Seq<char>)> {
    files.map_values(|f: (String, String)| (f.0@, f.1@))
}

/// The skeleton of a project named `name`.
pub open spec fn layout_of(name: Seq<char>) -> (Seq<Seq<char>>, Seq<(Seq<char>, Seq<char>)>) {
    (
        project_dirs().map_values(|d: Seq<char>| joined_path(name, d)),
        project_files().map_values(|f: (Seq<char>, Seq<char>)| (joined_path(name, f.0), f.1)),
    )
}

fn relative_dirs() -> (v: Vec<&'static str>)
    ensures
        v@.map_values(|d: &str| d@) == project_dirs(),
{
    let v = vec![
        "src/app/controllers",
        "src/app/models",
        "src/app/views",
        "src/app/middleware",
        "src/config",
        "src/routes",
        "src/public",
        "src/resources/js",
        "src/resources/css",
        "migrations",
    ];
    assert(v@.map_values(|d: &str| d@) =~= project_dirs());
    v
}

fn relative_files() -> (v: Vec<(&'static str, &'static str)>)
    ensures
        v@.map_values(|f: (&str, &str)| (f.0@, f.1@)) == project_files(),
{
    let v = vec![
        ("src/main.rs", "fn main() { println!(\"Hello, world!\"); }"),
        ("src/lib.rs", "// Library code goes here"),
        ("Cargo.toml", "[package]\nname = \"project\"\nversion = \"0.1.0\"\nedition = \"2021\""),
        (".env", "# Environment variables go here"),
        (".gitignore", "/target\n/Cargo.lock"),
        ("README.md", "# Project\n\nA new Ruskit project."),
    ];
    assert(v@.map_values(|f: (&str, &str)| (f.0@, f.1@)) =~= project_files());
    v
}

/// The skeleton that `run_project` creates for `name`.
pub fn project_layout(name: &str) -> (l: ProjectLayout)
    ensures
        l.root@ == name@,
        views(l.dirs@) == layout_of(name@).0,
        file_views(l.files@) == layout_of(name@).1,
{
    let rel_dirs = relative_dirs();
    let ghost rd = project_dirs();
    let mut dirs: Vec<String> = Vec::new();
    let mut i: usize = 0;
    while i < rel_dirs.len()
        invariant
            i <= rel_dirs.len(),
            rel_dirs@.map_values(|d: &str| d@) == rd,
            rd == project_dirs(),
            views(dirs@) =~= rd.take(i as int).map_values(|d: Seq<char>| joined_path(name@, d)),
        decreases rel_dirs.len() - i,
    {
        let ghost before = dirs@;
        dirs.push(join_path(name, rel_dirs[i]));
        assert(rd[i as int] == rel_dirs@[i as int]@);
        assert(rd.take(i + 1) =~= rd.take(i as int).push(rd[i as int]));
        assert(views(dirs@) =~= views(before).push(joined_path(name@, rd[i as int])));
        i = i + 1;
    }
    assert(rd.take(rel_dirs.len() as int) =~= rd);
    let rel_files = relative_files();
    let ghost rf = project_files();
    let mut files: Vec<(String, String)> = Vec::new();
    let mut j: usize = 0;
    while j < rel_files.len()
        invariant
            j <= rel_files.len(),
            rel_files@.map_values(|f: (&str, &str)| (f.0@, f.1@)) == rf,
            rf == project_files(),
            file_views(files@) =~= rf.take(j as int).map_values(
                |f: (Seq<char>, Seq<char>)| (joined_path(name@, f.0), f.1),
            ),
        decreases rel_files.len() - j,
    {
        let (path, content) = rel_files[j];
        let ghost before = files@;
        files.push((join_path(name, path), String::from_str(content)));
        assert(rf[j as int] == (path@, content@));
        assert(rf.take(j + 1) =~= rf.take(j as int).push(rf[j as int]));
        assert(file_views(files@) =~= file_views(before).push((joined_path(name@, path@), content@)));
        j = j + 1;
    }
    assert(rf.take(rel_files.len() as int) =~= rf);
    ProjectLayout { root: String::from_str(name), dirs, files }
}

/// The repository that new projects are generated from.
pub const TEMPLATE_REPOSITORY: &'static str = "https://github.com/dayemsiddiqui/ruskit";

/// A program to run: its name, its arguments and the environment variables it gets.
pub struct Invocation {
    pub program: String,
    pub args: Vec<String>,
    pub env: Vec<(String, String)>,
}

/// The arguments of the template generator for a project named `name`.
pub open spec fn generate_args(name: Seq<char>) -> Seq<Seq<char>> {
    seq![
        "generate"@,
        "--git"@,
        TEMPLATE_REPOSITORY@,
        "--branch"@,
        "main"@,
        "--name"@,
        name,
        "--force"@,
    ]
}

/// The variables that name the generated project, its crate and its binary.
pub open spec fn generate_env(name: Seq<char>) -> Seq<(Seq<char>, Seq<char>)> {
    seq![
        ("CARGO_GENERATE_VALUE_PROJECT_NAME"@, name),
        ("CARGO_GENERATE_VALUE_CRATE_NAME"@, lowercase(name)),
        ("CARGO_GENERATE_VALUE_BIN_NAME"@, lowercase(name)),
    ]
}

/// The `cargo-generate` run that creates a project named `name` from the template.
pub fn generate_invocation(name: &str) -> (inv: Invocation)
    ensures
        inv.program@ == "cargo-generate"@,
        views(inv.args@) == generate_args(name@),
        file_views(inv.env@) == generate_env(name@),
{
    let mut args: Vec<String> = Vec::new();
    args.push(String::from_str("generate"));
    args.push(String::from_str("--git"));
    args.push(String::from_str(TEMPLATE_REPOSITORY));
    args.push(String::from_str("--branch"));
    args.push(String::from_str("main"));
    args.push(String::from_str("--name"));
    args.push(String::from_str(name));
    args.push(String::from_str("--force"));
    let lower = to_lowercase(name);
    let mut env: Vec<(String, String)> = Vec::new();
    env.push((String::from_str("CARGO_GENERATE_VALUE_PROJECT_NAME"), String::from_str(name)));
    env.push((String::from_str("CARGO_GENERATE_VALUE_CRATE_NAME"), lower.clone()));
    env.push((String::from_str("CARGO_GENERATE_VALUE_BIN_NAME"), lower));
    assert(views(args@) =~= generate_args(name@));
    assert(file_views(env@) =~= generate_env(name@));
    Invocation { program: String::from_str("cargo-generate"), args, env }
}

/// The run that installs the template generator when it is missing.
pub fn install_generator_invocation() -> (inv: Invocation)
    ensures
        inv.program@ == "cargo"@,
        views(inv.args@) == seq!["install"@, "cargo-generate"@],
        inv.env@.len() == 0,
{
    let mut args: Vec<String> = Vec::new();
    args.push(String::from_str("install"));
    args.push(String::from_str("cargo-generate"));
    assert(views(args@) =~= seq!["install"@, "cargo-generate"@]);
    Invocation { program: String::from_str("cargo"), args, env: Vec::new() }
}

/// What `new` reports once the generator has exited: success, or a project
/// creation error when the generator failed.
pub fn generation_result(succeeded: bool) -> (r: Result<(), CliError>)
    ensures
        succeeded ==> r is Ok,
        !succeeded ==> (r matches Err(CliError::ProjectCreationError(m)) && m@ == "Failed to generate project"@),
{
    if succeeded {
        Ok(())
    } else {
        Err(CliError::ProjectCreationError(String::from_str("Failed to generate project")))
    }
}

/// Every directory and file of a new project lies inside the project directory: each
/// is the project's name, a `/`, then its path in the skeleton.
pub proof fn layout_lies_under_root(name: Seq<char>)
    requires
        name.len() > 0,
        name.last() != '/',
    ensures
        forall|i: int| 0 <= i < project_dirs().len()
            ==> #[trigger] layout_of(name).0[i] == name + seq!['/'] + project_dirs()[i],
        forall|i: int| 0 <= i < project_files().len()
            ==> #[trigger] layout_of(name).1[i] == (name + seq!['/'] + project_files()[i].0, project_files()[i].1),
{
    reveal_strlit("src/app/controllers");
    reveal_strlit("src/app/models");
    reveal_strlit("src/app/views");
    reveal_strlit("src/app/middleware");
    reveal_strlit("src/config");
    reveal_strlit("src/routes");
    reveal_strlit("src/public");
    reveal_strlit("src/resources/js");
    reveal_strlit("src/resources/css");
    reveal_strlit("migrations");
    reveal_strlit("src/main.rs");
    reveal_strlit("src/lib.rs");
    reveal_strlit("Cargo.toml");
    reveal_strlit(".env");
    reveal_strlit(".gitignore");
    reveal_strlit("README.md");
    assert forall|i: int| 0 <= i < project_dirs().len() implies project_dirs()[i][0] != '/' by {
        assert(project_dirs()[i].len() > 0);
    }
    assert forall|i: int| 0 <= i < project_files().len() implies project_files()[i].0[0] != '/' by {
        assert(project_files()[i].0.len() > 0);
    }
}

} // verus!
