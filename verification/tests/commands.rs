use dev_console::events::{CommandEntered, EventBus};
use dev_console::registry::{
    ArgError, ArgSpecEntry, ArgType, CommandDef, CommandRegistry, ConsoleError, HandlerKind,
    error_line,
};

fn log_def(name: &str) -> CommandDef {
    CommandDef {
        name: name.to_string(),
        args: vec![
            ArgSpecEntry { name: "msg".to_string(), ty: ArgType::Text, required: true },
            ArgSpecEntry { name: "num".to_string(), ty: ArgType::Count, required: false },
        ],
        handler: HandlerKind::Log,
    }
}

fn entered(name: &str, args: &[&str]) -> CommandEntered {
    CommandEntered {
        name: name.to_string(),
        args: args.iter().map(|a| a.to_string()).collect(),
    }
}

#[test]
fn dispatch_unknown_name_reports_and_prints_nothing() {
    let reg = CommandRegistry::with_builtins();
    let mut bus = EventBus::new();
    let r = reg.dispatch(&entered("nope", &["x"]), &mut bus);
    assert_eq!(r, Err(ConsoleError::UnknownCommand));
    assert_eq!(bus.drain_print_lines().len(), 0);
}

#[test]
fn dispatch_log_repeats_message_in_order() {
    let reg = CommandRegistry::with_builtins();
    let mut bus = EventBus::new();
    let r = reg.dispatch(&entered("log", &["X", "3"]), &mut bus);
    assert_eq!(r, Ok(()));
    let lines = bus.drain_print_lines();
    assert_eq!(lines, vec!["X".to_string(), "X".to_string(), "X".to_string()]);
}

#[test]
fn dispatch_log_zero_count_prints_nothing() {
    let reg = CommandRegistry::with_builtins();
    let mut bus = EventBus::new();
    let r = reg.dispatch(&entered("log", &["X", "0"]), &mut bus);
    assert_eq!(r, Ok(()));
    assert_eq!(bus.drain_print_lines().len(), 0);
}

#[test]
fn dispatch_log_negative_count_is_rejected_without_output() {
    let reg = CommandRegistry::with_builtins();
    let mut bus = EventBus::new();
    let r = reg.dispatch(&entered("log", &["X", "-1"]), &mut bus);
    assert_eq!(r, Err(ConsoleError::ArgParse(ArgError::NegativeCount)));
    assert_eq!(bus.drain_print_lines().len(), 0);
}

#[test]
fn dispatch_log_defaults_to_one_line() {
    let reg = CommandRegistry::with_builtins();
    let mut bus = EventBus::new();
    assert_eq!(reg.dispatch(&entered("log", &["once"]), &mut bus), Ok(()));
    assert_eq!(bus.drain_print_lines(), vec!["once".to_string()]);
}

#[test]
fn register_duplicate_name_is_rejected() {
    let mut reg = CommandRegistry::with_builtins();
    let r = reg.register(log_def("log"));
    assert_eq!(r, Err(ConsoleError::DuplicateCommand));
    assert_eq!(reg.commands.len(), 1);
}

#[test]
fn register_fresh_name_succeeds() {
    let mut reg = CommandRegistry::with_builtins();
    assert_eq!(reg.register(log_def("shout")), Ok(()));
    assert!(reg.find(&"shout".to_string()).is_some());
    let mut bus = EventBus::new();
    assert_eq!(reg.dispatch(&entered("shout", &["hey", "2"]), &mut bus), Ok(()));
    assert_eq!(bus.drain_print_lines(), vec!["hey".to_string(), "hey".to_string()]);
}

#[test]
fn check_args_reports_each_error() {
    let def = log_def("log");
    let to_vec = |args: &[&str]| args.iter().map(|a| a.to_string()).collect::<Vec<String>>();
    assert_eq!(CommandRegistry::check_args(&def, &to_vec(&[])), Some(ArgError::MissingArg));
    assert_eq!(
        CommandRegistry::check_args(&def, &to_vec(&["a", "1", "2"])),
        Some(ArgError::ExtraArgs)
    );
    assert_eq!(CommandRegistry::check_args(&def, &to_vec(&["a", "x"])), Some(ArgError::NotACount));
    assert_eq!(
        CommandRegistry::check_args(&def, &to_vec(&["a", "-5"])),
        Some(ArgError::NegativeCount)
    );
    assert_eq!(
        CommandRegistry::check_args(&def, &to_vec(&["a", "18446744073709551616"])),
        Some(ArgError::CountOutOfRange)
    );
    assert_eq!(CommandRegistry::check_args(&def, &to_vec(&["a"])), None);
    assert_eq!(CommandRegistry::check_args(&def, &to_vec(&["a", "3"])), None);
}

#[test]
fn error_lines_name_the_failure() {
    assert_eq!(
        error_line(&"foo".to_string(), ConsoleError::UnknownCommand),
        "Unknown command: foo"
    );
    assert_eq!(
        error_line(&"log".to_string(), ConsoleError::DuplicateCommand),
        "Duplicate command: log"
    );
    assert_eq!(
        error_line(&"log".to_string(), ConsoleError::ArgParse(ArgError::NegativeCount)),
        "Invalid arguments: a count must not be negative"
    );
}

#[test]
fn raw_commands_driver_dispatches_in_order_and_reports_errors() {
    let reg = CommandRegistry::with_builtins();
    let mut bus = EventBus::new();
    bus.push_command(entered("log", &["first"]));
    bus.push_command(entered("nope", &[]));
    bus.push_command(entered("log", &["last", "2"]));
    reg.raw_commands_driver(&mut bus);
    let lines = bus.drain_print_lines();
    assert_eq!(
        lines,
        vec![
            "first".to_string(),
            "Unknown command: nope".to_string(),
            "last".to_string(),
            "last".to_string(),
        ]
    );
    assert_eq!(bus.drain_commands().len(), 0);
}

#[test]
fn bus_delivers_each_event_exactly_once() {
    let mut bus = EventBus::new();
    bus.push_print_line("a".to_string());
    bus.push_print_line("b".to_string());
    assert_eq!(bus.drain_print_lines(), vec!["a".to_string(), "b".to_string()]);
    assert_eq!(bus.drain_print_lines().len(), 0);
    bus.push_command(entered("log", &["x"]));
    assert_eq!(bus.drain_commands().len(), 1);
    assert_eq!(bus.drain_commands().len(), 0);
}
