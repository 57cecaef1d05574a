use concurrently::config::{Command, ShellTaskOptions, TaskOptions, TaskTypeOptions};
use concurrently::executor::report_header;
use concurrently::log::{error, info, warn};
use concurrently::style::{badge_color, tag_color, Hue};
use concurrently::task::Task;
use concurrently::TaskNamer;

fn options() -> TaskOptions {
    TaskOptions {
        task_options: TaskTypeOptions::Shell(ShellTaskOptions {
            command: Command::String("x".to_string()),
        }),
        prepare: None,
        delay: None,
        retries: 0,
    }
}

#[test]
fn tag_colours_cycle_through_the_palette() {
    let palette = [
        Hue::Green,
        Hue::Yellow,
        Hue::Blue,
        Hue::Magenta,
        Hue::Cyan,
        Hue::BrightGreen,
        Hue::BrightBlue,
        Hue::BrightMagenta,
        Hue::BrightCyan,
        Hue::BrightYellow,
    ];
    for i in 0..35 {
        assert_eq!(tag_color(i), palette[i % 10]);
    }
    assert_eq!(tag_color(usize::MAX), palette[usize::MAX % 10]);
}

#[test]
fn badge_colours_cycle_through_the_palette() {
    let palette = [
        Hue::Blue,
        Hue::Magenta,
        Hue::Cyan,
        Hue::Yellow,
        Hue::BrightGreen,
        Hue::BrightBlue,
        Hue::BrightMagenta,
        Hue::BrightCyan,
        Hue::BrightYellow,
    ];
    for i in 0..30 {
        assert_eq!(badge_color(i), palette[i % 9]);
    }
}

#[test]
fn a_tag_is_coloured_where_colour_is_on() {
    colored::control::set_override(true);
    let task = Task::from_options("api".to_string(), Hue::Blue, 1, options(), "/x".to_string());
    assert_eq!(task.tag, "\u{1b}[1;34mapi\u{1b}[0m   \u{1b}[1;34m|\u{1b}[0m ");
    let task =
        Task::from_options("api".to_string(), Hue::BrightCyan, 0, options(), "/x".to_string());
    assert_eq!(task.tag, "\u{1b}[1;96mapi\u{1b}[0m  \u{1b}[1;96m|\u{1b}[0m ");
}

#[test]
fn every_colour_has_its_own_code() {
    colored::control::set_override(true);
    let codes = [
        (Hue::Red, "31"),
        (Hue::Green, "32"),
        (Hue::Yellow, "33"),
        (Hue::Blue, "34"),
        (Hue::Magenta, "35"),
        (Hue::Cyan, "36"),
        (Hue::White, "37"),
        (Hue::BrightGreen, "92"),
        (Hue::BrightYellow, "93"),
        (Hue::BrightBlue, "94"),
        (Hue::BrightMagenta, "95"),
        (Hue::BrightCyan, "96"),
    ];
    for (hue, code) in codes {
        let task = Task::from_options("n".to_string(), hue, 0, options(), "/x".to_string());
        assert_eq!(task.tag, format!("\u{1b}[1;{code}mn\u{1b}[0m  \u{1b}[1;{code}m|\u{1b}[0m "));
    }
}

#[test]
fn badges_are_bold_white_on_their_background() {
    colored::control::set_override(true);
    let mut namer = TaskNamer::new();
    assert_eq!(namer.next(), "\u{1b}[1;44;37m Task 1 \u{1b}[0m");
    assert_eq!(namer.next_with_name("db"), "\u{1b}[1;45;37m db \u{1b}[0m");
    assert_eq!(namer.next(), "\u{1b}[1;46;37m Task 3 \u{1b}[0m");
}

#[test]
fn log_lines_are_coloured_where_colour_is_on() {
    colored::control::set_override(true);
    assert_eq!(info("hello"), "\u{1b}[37m--> hello\u{1b}[0m");
    assert_eq!(error("bad"), "\u{1b}[1;31m[error] \u{1b}[0m bad");
    assert_eq!(warn("careful"), "\u{1b}[1;33m[warn] \u{1b}[0m careful");
    assert_eq!(report_header(), "\u{1b}[1;37mshowing last 20 lines of stderr...\u{1b}[0m");
}

#[test]
fn the_exit_line_is_white_or_red() {
    colored::control::set_override(true);
    let task = Task::assemble(
        "w".to_string(),
        Hue::Blue,
        "w".to_string(),
        "|".to_string(),
        0,
        options(),
        "/x".to_string(),
    );
    assert_eq!(
        task.exit_line("exit status: 0", true),
        "w  |  \u{1b}[1;37mprocess exited with status code exit status: 0\u{1b}[0m"
    );
    assert_eq!(
        task.exit_line("exit status: 3", false),
        "w  |  \u{1b}[1;31mprocess exited with status code exit status: 3\u{1b}[0m"
    );
}
