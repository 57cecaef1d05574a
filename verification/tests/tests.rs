use concurrently::config::{
    CargoTaskOptions, Command, ShellTaskOptions, TaskOptions, TaskTypeOptions,
};
use concurrently::executor::{route_stdout, LineAction};
use concurrently::log::{error, info, note, warn};
use concurrently::schedule::{exit_code, Scheduled};
use concurrently::style::Hue;
use concurrently::task::{Task, Verdict};
use concurrently::{badge, expand, read_tasks_from_file, task_from_cli, TaskNamer};

fn shell(command: &str, prepare: Option<&str>) -> TaskOptions {
    TaskOptions {
        task_options: TaskTypeOptions::Shell(ShellTaskOptions {
            command: Command::String(command.to_string()),
        }),
        prepare: prepare.map(|p| p.to_string()),
        delay: None,
        retries: 0,
    }
}

fn printed(action: LineAction) -> String {
    match action {
        LineAction::Print(line) => line,
        other => panic!("not printed: {:?}", other),
    }
}

#[test]
fn it_runs_basic_commands() {
    colored::control::set_override(false);
    let mut namer = TaskNamer::new();
    let mut out = vec![info("Running tasks")];
    let mut tasks: Vec<Scheduled> = ["sleep 0.5; echo World", "sleep 0.1; echo Hello"]
        .iter()
        .map(|param| Scheduled::new(task_from_cli(param, &mut namer, 3, "/x")))
        .collect();
    for scheduled in tasks.iter_mut() {
        let line = scheduled.start_run().unwrap();
        out.push(printed(route_stdout(
            &format!("Running {}", line[4]),
            &scheduled.task.tag,
            false,
        )));
    }
    for (index, word) in [(1, "Hello"), (0, "World")] {
        let scheduled = &mut tasks[index];
        out.push(printed(route_stdout(word, &scheduled.task.tag, false)));
        assert_eq!(scheduled.finish_run(true, false), Some(Verdict::Succeeded));
        out.push(scheduled.task.exit_line("exit status: 0", true));
    }
    let expected = r#"--> Running tasks
 Task 1  Running sleep 0.5; echo World
 Task 2  Running sleep 0.1; echo Hello
 Task 2  Hello
 Task 2  process exited with status code exit status: 0
 Task 1  World
 Task 1  process exited with status code exit status: 0
"#;
    assert_eq!(expected, out.join("\n") + "\n");
    let phases = tasks.iter().map(|s| s.phase).collect();
    assert_eq!(exit_code(&phases), 0);
}

#[test]
fn cargo_parameters_are_written_out() {
    assert_eq!(expand("cargo:api"), "cargo run --color always --package api");
    assert_eq!(expand("cargo:"), "cargo run --color always --package ");
    assert_eq!(expand("cargo:a:b"), "cargo run --color always --package a:b");
}

#[test]
fn other_parameters_stay_as_they_are() {
    for param in ["ls -l", "cargo", "cargo build", "xcargo:api", " cargo:api", "", ":", "Cargo:x"] {
        assert_eq!(expand(param), param);
    }
}

#[test]
fn badges_hold_the_name_between_spaces() {
    assert_eq!(badge("db"), " db ");
    assert_eq!(badge(""), "  ");
    colored::control::set_override(false);
    let mut namer = TaskNamer::new();
    assert_eq!(namer.next(), " Task 1 ");
    assert_eq!(namer.next_with_name("db"), " db ");
    assert_eq!(namer.next(), " Task 3 ");
    assert_eq!(namer.next_name(), "Task 4");
}

#[test]
fn a_namer_outlasts_its_palette() {
    colored::control::set_override(false);
    let mut namer = TaskNamer::new();
    let first = namer.next_color();
    for i in 1..=20 {
        assert_eq!(namer.next(), format!(" Task {} ", i));
    }
    assert_eq!(first, Hue::Blue);
    assert_eq!(namer.next_color(), Hue::Cyan);
    assert_eq!(namer.issue("kept".to_string()), "kept");
    assert_eq!(namer.next_color(), Hue::Yellow);
}

#[test]
fn a_command_line_task_is_a_numbered_shell_task() {
    colored::control::set_override(false);
    let mut namer = TaskNamer::new();
    let first = task_from_cli("cargo:api", &mut namer, 3, "/x");
    let second = task_from_cli("ls", &mut namer, 0, "/x");
    assert_eq!(first.name, "Task 1");
    assert_eq!(first.tag, " Task 1 ");
    assert_eq!(first.color, Hue::Blue);
    assert_eq!(first.max_retries, 3);
    assert_eq!(first.retries, 0);
    assert_eq!(first.prepare, None);
    assert_eq!(first.delay, None);
    assert_eq!(first.run_command(), vec![
        "/x",
        "--fake-tty",
        "sh",
        "-c",
        "cargo run --color always --package api"
    ]);
    assert_eq!(second.name, "Task 2");
    assert_eq!(second.color, Hue::Magenta);
    assert_eq!(second.max_retries, 0);
    assert_eq!(
        second.opts,
        TaskTypeOptions::Shell(ShellTaskOptions { command: Command::String("ls".to_string()) })
    );
}

#[test]
fn a_file_of_commands_gives_tasks_and_tasks_to_run_before() {
    colored::control::set_override(false);
    let entries = vec![
        ("web".to_string(), shell("cargo:web", Some("npm install"))),
        ("db".to_string(), shell(" postgres\n-D data ", None)),
        (
            "api".to_string(),
            TaskOptions {
                task_options: TaskTypeOptions::Cargo(CargoTaskOptions {
                    release: true,
                    features: vec![],
                }),
                prepare: Some("make".to_string()),
                delay: None,
                retries: 9,
            },
        ),
    ];
    let mut namer = TaskNamer::new();
    let mut before = Vec::new();
    let mut tasks = vec![Task::shell(
        "kept".to_string(),
        Hue::Red,
        "kept".to_string(),
        "true".to_string(),
        1,
        "/x".to_string(),
    )];
    read_tasks_from_file(entries, &mut before, &mut tasks, &mut namer, "/x");
    let names: Vec<&str> = tasks.iter().map(|t| t.name.as_str()).collect();
    assert_eq!(names, vec!["kept", "web", "db", "api"]);
    let tags: Vec<&str> = tasks.iter().map(|t| t.tag.as_str()).collect();
    assert_eq!(tags, vec!["kept", " web ", " db ", " api "]);
    assert_eq!(tasks[1].run_command()[4], "cargo run --color always --package web");
    assert_eq!(tasks[2].run_command()[4], "postgres -D data");
    assert_eq!(tasks[3].run_command()[2], "./target/release/api");
    for task in &tasks[1..] {
        assert_eq!(task.max_retries, 3);
        assert_eq!(task.retries, 0);
        assert_eq!(task.prepare, None);
        assert_eq!(task.delay, None);
    }
    let names: Vec<&str> = before.iter().map(|t| t.name.as_str()).collect();
    assert_eq!(names, vec!["(before) web", "(before) api"]);
    assert_eq!(before[0].tag, " (before) web ");
    assert_eq!(before[0].run_command()[4], "npm install");
    assert_eq!(before[1].run_command()[4], "make");
    assert_eq!(before[1].max_retries, 3);
    assert_eq!(tasks[1].color, Hue::Blue);
    assert_eq!(before[0].color, Hue::Magenta);
    assert_eq!(tasks[2].color, Hue::Cyan);
    assert_eq!(namer.next_name(), "Task 6");
}

#[test]
fn log_lines_are_plain_where_colour_is_off() {
    colored::control::set_override(false);
    assert_eq!(note("nothing to run"), "--> nothing to run");
    assert_eq!(info("nothing to run"), "--> nothing to run");
    assert_eq!(error("task preparation failed"), "[error]  task preparation failed");
    assert_eq!(warn("careful"), "[warn]  careful");
}
