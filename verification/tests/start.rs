use glue::error::{CommandError, GlueError, ParseError};
use glue::start::{lock, other_instance_runs, run_commands, start, wake_up, CommandBuilder};
use std::cell::RefCell;

fn none_running(_name: String) -> Result<Vec<u8>, String> {
    Ok(Vec::new())
}

#[test]
fn builder_joins_name_and_arguments() {
    let builder = CommandBuilder::new("eww");
    assert_eq!(builder.command(), "eww");
    assert_eq!(builder.name(), "eww");
    assert_eq!(builder.arguments(), Vec::<String>::new());
    let builder = builder.args(vec!["open", "bar"]);
    assert_eq!(builder.command(), "eww open bar");
    let builder = builder.args(vec!["--restart"]);
    assert_eq!(builder.command(), "eww open bar --restart");
    assert_eq!(builder.arguments(), vec!["open", "bar", "--restart"]);
}

#[test]
fn command_line_is_cut_at_white_space() {
    let builder = CommandBuilder::parse("  ls \t -l\n  /tmp ").unwrap();
    assert_eq!(builder.name(), "ls");
    assert_eq!(builder.arguments(), vec!["-l", "/tmp"]);
    assert_eq!(builder.command(), "ls -l /tmp");
    let builder = CommandBuilder::parse("hyprlock").unwrap();
    assert_eq!(builder.name(), "hyprlock");
    assert_eq!(builder.command(), "hyprlock");
}

#[test]
fn empty_command_line_is_refused() {
    assert_eq!(CommandBuilder::parse("").unwrap_err(), ParseError::Command("".to_string()));
    assert_eq!(CommandBuilder::parse(" \t ").unwrap_err(), ParseError::Command(" \t ".to_string()));
}

#[test]
fn pidof_output_names_other_processes() {
    assert_eq!(other_instance_runs(Vec::new(), 10), Ok(false));
    assert_eq!(other_instance_runs(b"10\n".to_vec(), 10), Ok(false));
    assert_eq!(other_instance_runs(b"10 11\n".to_vec(), 10), Ok(true));
    assert_eq!(other_instance_runs(b"4711\n".to_vec(), 10), Ok(true));
    assert_eq!(other_instance_runs(b"abc -3 10\n".to_vec(), 10), Ok(false));
    assert_eq!(other_instance_runs(b"99999999999 10\n".to_vec(), 10), Ok(false));
    assert_eq!(other_instance_runs(vec![0xff, 0xfe], 10), Err(CommandError::Pidof));
}

#[test]
fn program_is_started_unless_it_runs() {
    let ran = RefCell::new(Vec::new());
    let run = |line: String| {
        ran.borrow_mut().push(line);
        Ok(())
    };
    let builder = CommandBuilder::parse("eww open bar").unwrap();
    assert_eq!(builder.start(1, &none_running, &run), Ok(()));
    assert_eq!(*ran.borrow(), vec!["eww open bar".to_string()]);

    let asked = RefCell::new(Vec::new());
    let running = |name: String| {
        asked.borrow_mut().push(name);
        Ok(b"77\n".to_vec())
    };
    assert_eq!(builder.start(1, &running, &run), Err(CommandError::AlreadyRunning));
    assert_eq!(*asked.borrow(), vec!["eww".to_string()]);
    assert_eq!(ran.borrow().len(), 1);
    assert_eq!(builder.start(77, &running, &run), Ok(()));
    assert_eq!(ran.borrow().len(), 2);
}

#[test]
fn failures_of_start_are_told_apart() {
    let builder = CommandBuilder::new("eww");
    let no_pidof = |_: String| Err("no such file".to_string());
    let run = |_: String| Ok(());
    assert_eq!(builder.start(1, &no_pidof, &run), Err(CommandError::Pidof));
    let refuse = |_: String| Err("socket closed".to_string());
    assert_eq!(
        builder.start(1, &none_running, &refuse),
        Err(CommandError::HyprlandDispatch("socket closed".to_string()))
    );
}

#[test]
fn commands_run_in_order_until_one_fails() {
    let ran = RefCell::new(Vec::new());
    let run = |line: String| {
        ran.borrow_mut().push(line.clone());
        if line.starts_with("bad") {
            Err("refused".to_string())
        } else {
            Ok(())
        }
    };
    assert_eq!(run_commands(vec![], 1, &none_running, &run), Ok(()));
    assert_eq!(run_commands(vec!["eww open bar", "glue daemon"], 1, &none_running, &run), Ok(()));
    assert_eq!(*ran.borrow(), vec!["eww open bar".to_string(), "glue daemon".to_string()]);
    ran.borrow_mut().clear();
    assert_eq!(
        run_commands(vec!["one", "bad two", "three"], 1, &none_running, &run),
        Err(GlueError::Command(CommandError::HyprlandDispatch("refused".to_string())))
    );
    assert_eq!(*ran.borrow(), vec!["one".to_string(), "bad two".to_string()]);
    ran.borrow_mut().clear();
    assert_eq!(
        run_commands(vec!["one", "  ", "three"], 1, &none_running, &run),
        Err(GlueError::Parse(ParseError::Command("  ".to_string())))
    );
    assert_eq!(*ran.borrow(), vec!["one".to_string()]);
}

#[test]
fn desktop_commands() {
    assert_eq!(start("glue"), vec!["eww open bar", "glue daemon"]);
    assert_eq!(lock(), vec!["hyprlock"]);
    assert_eq!(wake_up(None), vec!["open", "--force-wayland", "--restart", "bar"]);
    assert_eq!(
        wake_up(Some("/etc/eww".to_string())),
        vec!["open", "--config=/etc/eww", "--force-wayland", "--restart", "bar"]
    );
}
