use chp::config::{read_config, Config, Profiles};
use chp::error::ChpError;
use chp::pipeline::{Finish, Outcome};
use chp::scaffold::{
    init_project, render_config, target_dir, write_project, Effect, Plan, TargetState,
    MAIN_FILE_CONTENT,
};

fn strings(items: &[&str]) -> Vec<String> {
    items.iter().map(|s| s.to_string()).collect()
}

fn refusal(error: ChpError, stderr: &[u8]) -> Plan {
    Plan::Finish(Finish { stdout: Vec::new(), stderr: stderr.to_vec(), result: Err(error) })
}

#[test]
fn target_is_the_current_directory_or_a_new_one_inside_it() {
    assert_eq!(target_dir("/home/me/work", None), "/home/me/work");
    assert_eq!(target_dir("/home/me/work", Some("demo")), "/home/me/work/demo");
}

#[test]
fn occupied_directory_is_refused_and_nothing_is_planned() {
    assert_eq!(
        init_project("/home/me/work", TargetState::Occupied),
        refusal(ChpError::NonEmptyDirectory, b"")
    );
}

#[test]
fn empty_or_absent_directory_is_created_then_put_under_version_control() {
    for state in [TargetState::Absent, TargetState::Empty] {
        assert_eq!(
            init_project("/w/demo", state),
            Plan::Perform(vec![
                Effect::CreateDir("/w/demo".to_string()),
                Effect::InitGit("/w/demo".to_string()),
            ])
        );
    }
}

#[test]
fn version_control_that_cannot_start_is_an_error() {
    assert_eq!(
        write_project("/w/demo", "demo", Outcome::SpawnFailed),
        refusal(ChpError::GitInitError, b"")
    );
}

#[test]
fn version_control_that_complains_is_an_error_and_its_words_are_passed_on() {
    assert_eq!(
        write_project(
            "/w/demo",
            "demo",
            Outcome::Exited { stdout: b"Initialized".to_vec(), stderr: b"fatal: no\n".to_vec() }
        ),
        refusal(ChpError::GitInitError, b"fatal: no\n")
    );
}

#[test]
fn fresh_project_gets_its_files_in_order() {
    let plan = write_project(
        "/w/demo",
        "demo",
        Outcome::Exited { stdout: b"Initialized empty Git repository".to_vec(), stderr: Vec::new() },
    );
    assert_eq!(
        plan,
        Plan::Perform(vec![
            Effect::WriteFile { path: "/w/demo/chp.toml".to_string(), content: render_config("demo") },
            Effect::CreateDir("/w/demo/src".to_string()),
            Effect::WriteFile {
                path: "/w/demo/src/main.cpp".to_string(),
                content: MAIN_FILE_CONTENT.to_string(),
            },
            Effect::CreateDir("/w/demo/build/debug".to_string()),
            Effect::CreateDir("/w/demo/build/release".to_string()),
        ])
    );
}

#[test]
fn default_description_carries_the_name_in_three_places() {
    let text = render_config("demo");
    assert!(text.starts_with("name = \"demo\"\ncommand = \"g++\"\n"));
    assert!(text.contains("    \"build/debug/demo.exe\",\n"));
    assert!(text.ends_with("    \"-o\", \n    \"build/release/demo.exe\",\n]\n"));
    assert_eq!(text.matches("demo").count(), 3);
    assert_eq!(render_config("").len() + 3 * "demo".len(), text.len());
}

#[test]
fn default_description_reads_back_as_a_project() {
    let common = [
        "-fdiagnostics-color=always",
        "-std=c++20",
        "-Wall",
        "-Wextra",
        "-pedantic",
        "-Weffc++",
        "-Wsuggest-attribute=const",
        "-fconcepts",
    ];
    let mut debug = strings(&common);
    debug.extend(strings(&["-Og", "-g", "-o", "build/debug/hello.exe"]));
    let mut release = strings(&common);
    release.extend(strings(&["-O2", "-o", "build/release/hello.exe"]));
    assert_eq!(
        read_config(Some(&render_config("hello"))),
        Ok(Config {
            name: "hello".to_string(),
            command: "g++".to_string(),
            source_dirs: Some(strings(&["src"])),
            profiles: Profiles { debug, release },
        })
    );
}

#[test]
fn default_source_file_is_hello_world() {
    assert_eq!(
        MAIN_FILE_CONTENT,
        "#include <iostream>\n\nint main() {\n    std::cout << \"Hello, World\" << std::endl;\n}\n"
    );
}
