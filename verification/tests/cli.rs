use ruskit::cli::commands::{Commands, ResourceType, ScheduleCommand};
use ruskit::cli::error::CliError;
use ruskit::cli::make::{
    controller_file_content, controller_output, dto_content, dto_output, dto_source, model_source,
    page_component_file_content, page_component_output, page_controller_output, page_dto_file_content,
    page_dto_output, add_line, add_separated_line, controller_mod_line_content, contains, controller_file_name, has_suffix, model_files, output_file, render_template, replace, template_file,
};
use ruskit::cli::project::{generate_invocation, generation_result, install_generator_invocation, project_layout};
use ruskit::cli::{plan_command, Step};
use ruskit::kit::error::CliError as KitError;

#[test]
fn inertia_page_runs_three_steps() {
    let steps = plan_command(Some(Commands::InertiaPage { name: "Dashboard".to_string() }));
    assert_eq!(steps.len(), 3);
    assert!(matches!(&steps[0], Step::MakePageDto(n) if n == "Dashboard"));
    assert!(matches!(&steps[1], Step::MakePageController(n) if n == "Dashboard"));
    assert!(matches!(&steps[2], Step::MakePageComponent(n) if n == "Dashboard"));
}

#[test]
fn other_commands_plan() {
    assert!(plan_command(None).is_empty());
    let dev = plan_command(Some(Commands::Dev));
    assert!(matches!(dev[0], Step::StartServer { dev: true }));
    let serve = plan_command(Some(Commands::Serve));
    assert!(matches!(serve[0], Step::StartServer { dev: false }));
    let ctl = plan_command(Some(Commands::MakeController { name: "Post".to_string() }));
    assert!(matches!(&ctl[0], Step::Make(n, ResourceType::Controller) if n == "Post"));
    let sched = plan_command(Some(Commands::Schedule(ScheduleCommand { daemon: false })));
    assert!(matches!(sched[0], Step::RunSchedule));
}

#[test]
fn resource_names() {
    assert_eq!(ResourceType::Controller.to_string(), "controller");
    assert_eq!(ResourceType::Middleware.name(), "middleware");
    assert_eq!(template_file(ResourceType::Seeder), "templates/seeder.rs");
}

#[test]
fn output_paths_use_the_lower_case_name() {
    assert_eq!(output_file(ResourceType::Controller, "UserProfile"), "src/app/controllers/userprofile_controller.rs");
    assert_eq!(output_file(ResourceType::Factory, "Post"), "src/database/factories/post_factory.rs");
    assert_eq!(controller_file_name("post"), "post_controller.rs");
}

#[test]
fn model_files_use_the_plural_table() {
    let f = model_files("BlogPost");
    assert_eq!(f.file_stem, "blogpost");
    assert_eq!(f.table_name, "blogposts");
    assert_eq!(f.mod_line, "mod blogpost;");
    assert_eq!(f.use_line, "pub use blogpost::BlogPost;");
    assert!(f.model.contains("blogposts"));
    let g = model_files("Category");
    assert_eq!(g.table_name, "categories");
}

#[test]
fn templates_are_rendered() {
    assert_eq!(render_template("struct {{name}}; // {{timestamp}}", "User", 42), "struct User; // 42");
    assert_eq!(render_template("no placeholders", "User", 1), "no placeholders");
    assert_eq!(replace("a-b-c", "-", "+"), "a+b+c");
    assert!(contains("hello world", "o w"));
    assert!(!contains("hello", "xyz"));
    assert!(has_suffix("UserController", "Controller"));
    assert!(!has_suffix("User", "Controller"));
}

#[test]
fn project_layout_is_under_the_project() {
    let l = project_layout("blog");
    assert_eq!(l.root, "blog");
    assert_eq!(l.dirs.len(), 10);
    assert_eq!(l.dirs[0], "blog/src/app/controllers");
    assert_eq!(l.dirs[9], "blog/migrations");
    assert_eq!(l.files.len(), 6);
    assert_eq!(l.files[0], ("blog/src/main.rs".to_string(), "fn main() { println!(\"Hello, world!\"); }".to_string()));
    assert_eq!(l.files[5].0, "blog/README.md");
    let trailing = project_layout("blog/");
    assert_eq!(trailing.dirs[4], "blog/src/config");
}

#[test]
fn generator_invocation() {
    let inv = generate_invocation("MyApp");
    assert_eq!(inv.program, "cargo-generate");
    assert_eq!(
        inv.args,
        vec!["generate", "--git", "https://github.com/dayemsiddiqui/ruskit", "--branch", "main", "--name", "MyApp", "--force"]
            .into_iter()
            .map(String::from)
            .collect::<Vec<String>>()
    );
    assert_eq!(inv.env[0], ("CARGO_GENERATE_VALUE_PROJECT_NAME".to_string(), "MyApp".to_string()));
    assert_eq!(inv.env[1], ("CARGO_GENERATE_VALUE_CRATE_NAME".to_string(), "myapp".to_string()));
    assert_eq!(inv.env[2], ("CARGO_GENERATE_VALUE_BIN_NAME".to_string(), "myapp".to_string()));
    let install = install_generator_invocation();
    assert_eq!(install.program, "cargo");
    assert_eq!(install.args, vec!["install".to_string(), "cargo-generate".to_string()]);
    assert!(generation_result(true).is_ok());
    match generation_result(false) {
        Err(e) => assert_eq!(e.message(), "Project Creation Error: Failed to generate project"),
        Ok(()) => panic!("expected a failure"),
    }
}

#[test]
fn cli_error_messages() {
    let io = CliError::from(std::io::Error::new(std::io::ErrorKind::Other, "disk full"));
    assert_eq!(io.message(), "IO Error: disk full");
    assert_eq!(CliError::from("oops".to_string()).message(), "oops");
    assert_eq!(KitError::DatabaseError("down".to_string()).message(), "Database Error: down");
    assert_eq!(KitError::MigrationError("bad".to_string()).message(), "Migration Error: bad");
    assert_eq!(KitError::FileNotFoundError("a.rs".to_string()).message(), "File Not Found: a.rs");
    assert_eq!(KitError::ProjectCreationError("x".to_string()).message(), "Project Creation Error: x");
    let kio = KitError::from(std::io::Error::new(std::io::ErrorKind::Other, "denied"));
    assert_eq!(kio.message(), "IO Error: denied");
}

#[test]
fn adding_a_mod_line_twice_adds_it_once() {
    let line = controller_mod_line_content("post");
    assert_eq!(line, "pub mod post_controller;\npub use post_controller::*;\n");
    let mut content = String::from("pub mod user_controller;\n");
    add_line(&mut content, &line);
    let once = content.clone();
    add_line(&mut content, &line);
    assert_eq!(content, once);
    let mut mods = String::new();
    add_separated_line(&mut mods, "mod post;");
    add_separated_line(&mut mods, "pub use post::Post;");
    add_separated_line(&mut mods, "mod post;");
    assert_eq!(mods, "mod post;\npub use post::Post;");
}

#[test]
fn generated_sources_are_lowercased() {
    assert_eq!(model_source("BlogPost"), "src/app/models/blogpost.rs");
    assert_eq!(dto_source("BlogPost"), "src/app/dtos/blogpost.rs");
}

#[test]
fn controller_output_for_a_model() {
    let f = controller_output("Post", true, false);
    assert_eq!(f.file_name, "post_controller.rs");
    assert_eq!(f.content, controller_file_content("Post", "post", true, false));
    assert_eq!(f.mod_lines, vec!["pub mod post_controller;\npub use post_controller::*;\n".to_string()]);
}

#[test]
fn dto_output_declares_the_module() {
    let f = dto_output("Post", false);
    assert_eq!(f.file_name, "post.rs");
    assert_eq!(f.content, dto_content("Post", false));
    assert_eq!(f.mod_lines, vec!["pub mod post;\n".to_string()]);
}

#[test]
fn page_outputs() {
    let d = page_dto_output("Dashboard");
    assert_eq!(d.file_name, "dashboard.rs");
    assert_eq!(d.content, page_dto_file_content("Dashboard"));
    assert_eq!(d.mod_lines, vec!["pub mod dashboard;\n".to_string(), "pub use dashboard::DashboardProps;\n".to_string()]);
    let c = page_controller_output("Dashboard");
    assert_eq!(c.file_name, "dashboard_controller.rs");
    assert!(c.content.contains("DashboardController"));
    assert_eq!(c.mod_lines, vec!["pub mod dashboard_controller;\npub use dashboard_controller::*;\n".to_string()]);
    let p = page_component_output("Dashboard");
    assert_eq!(p.file_name, "Dashboard.tsx");
    assert_eq!(p.content, page_component_file_content("Dashboard"));
    assert!(p.mod_lines.is_empty());
}
