use dev_console::console::{Console, HISTORY_DEPTH, SUGGESTION_LIMIT};
use dev_console::events::EventBus;
use dev_console::registry::{
    ArgSpecEntry, ArgType, CommandDef, CommandRegistry, HandlerKind,
};

#[test]
fn startup_config_matches_the_design() {
    let c = Console::new();
    assert!(!c.visible);
    assert_eq!(c.config.history_size, HISTORY_DEPTH);
    assert_eq!(c.config.num_suggestions, SUGGESTION_LIMIT);
    assert_eq!(c.config.symbol, "> ");
    assert_eq!(c.config.title_name, "MAGIC WORDS");
    assert!(c.config.block_keyboard);
    assert!(!c.config.block_mouse);
    assert!(c.scrollback.is_empty());
    assert!(c.history.is_empty());
}

#[test]
fn resize_is_window_size_minus_margins() {
    let mut c = Console::new();
    c.resize_driver(800, 600);
    assert_eq!(c.config.width, 700);
    assert_eq!(c.config.height, 1100);
}

#[test]
fn resize_ignores_prior_size() {
    let mut a = Console::new();
    let mut b = Console::new();
    a.resize_driver(1920, 1080);
    a.resize_driver(800, 600);
    b.resize_driver(800, 600);
    assert_eq!(a.config.width, b.config.width);
    assert_eq!(a.config.height, b.config.height);
    assert_eq!(a.config.width, 700);
    assert_eq!(a.config.height, 1100);
}

#[test]
fn scrollback_evicts_oldest_beyond_depth() {
    let mut c = Console::new();
    for i in 0..21 {
        c.push_scrollback(format!("line{}", i));
    }
    assert_eq!(c.scrollback.len(), 20);
    assert_eq!(c.scrollback[0], "line1");
    assert_eq!(c.scrollback[19], "line20");
    for (k, line) in c.scrollback.iter().enumerate() {
        assert_eq!(*line, format!("line{}", k + 1));
    }
}

#[test]
fn print_lines_drain_into_scrollback_in_order() {
    let mut c = Console::new();
    let mut bus = EventBus::new();
    c.log(&mut bus, "one".to_string());
    c.log(&mut bus, "two".to_string());
    c.write_to_console_driver(&mut bus);
    assert_eq!(c.scrollback, vec!["one".to_string(), "two".to_string()]);
    c.write_to_console_driver(&mut bus);
    assert_eq!(c.scrollback.len(), 2);
}

#[test]
fn startup_driver_greets_through_the_bus() {
    let c = Console::new();
    let mut bus = EventBus::new();
    c.startup_driver(&mut bus);
    assert_eq!(bus.drain_print_lines(), vec!["My Bevy Is Ready".to_string()]);
}

#[test]
fn visibility_toggle_is_edge_triggered() {
    let mut c = Console::new();
    c.toggle_visible(false);
    assert!(!c.visible);
    c.toggle_visible(true);
    assert!(c.visible);
    c.toggle_visible(false);
    assert!(c.visible);
    c.toggle_visible(true);
    assert!(!c.visible);
}

#[test]
fn submit_echoes_emits_and_clears() {
    let mut c = Console::new();
    let mut bus = EventBus::new();
    c.type_text("log hello 2");
    c.submit(&mut bus);
    assert_eq!(c.input, "");
    assert_eq!(c.scrollback, vec!["> log hello 2".to_string()]);
    let events = bus.drain_commands();
    assert_eq!(events.len(), 1);
    assert_eq!(events[0].name, "log");
    assert_eq!(events[0].args, vec!["hello".to_string(), "2".to_string()]);
    assert_eq!(c.history, vec!["log hello 2".to_string()]);
}

#[test]
fn submit_blank_input_only_clears() {
    let mut c = Console::new();
    let mut bus = EventBus::new();
    c.type_text("   ");
    c.submit(&mut bus);
    assert_eq!(c.input, "");
    assert!(c.scrollback.is_empty());
    assert!(bus.drain_commands().is_empty());
    assert!(c.history.is_empty());
}

#[test]
fn end_to_end_log_command_reaches_scrollback() {
    let reg = CommandRegistry::with_builtins();
    let mut c = Console::new();
    let mut bus = EventBus::new();
    c.type_text("log hello 2");
    c.submit(&mut bus);
    reg.raw_commands_driver(&mut bus);
    c.write_to_console_driver(&mut bus);
    assert_eq!(
        c.scrollback,
        vec!["> log hello 2".to_string(), "hello".to_string(), "hello".to_string()]
    );
}

#[test]
fn end_to_end_bad_command_reports_one_error_line() {
    let reg = CommandRegistry::with_builtins();
    let mut c = Console::new();
    let mut bus = EventBus::new();
    c.type_text("log");
    c.submit(&mut bus);
    reg.raw_commands_driver(&mut bus);
    c.write_to_console_driver(&mut bus);
    assert_eq!(
        c.scrollback,
        vec![
            "> log".to_string(),
            "Invalid arguments: missing a required argument".to_string(),
        ]
    );
}

#[test]
fn history_ring_navigates_up_and_down() {
    let mut c = Console::new();
    let mut bus = EventBus::new();
    c.type_text("log one");
    c.submit(&mut bus);
    c.type_text("log two");
    c.submit(&mut bus);
    assert_eq!(c.history, vec!["log one".to_string(), "log two".to_string()]);
    c.history_up();
    assert_eq!(c.input, "log two");
    c.history_up();
    assert_eq!(c.input, "log one");
    c.history_up();
    assert_eq!(c.input, "log one");
    c.history_down();
    assert_eq!(c.input, "log two");
    c.history_down();
    assert_eq!(c.input, "");
}

#[test]
fn history_ring_is_bounded_like_the_scrollback() {
    let mut c = Console::new();
    let mut bus = EventBus::new();
    for i in 0..25 {
        c.type_text(&format!("cmd{}", i));
        c.submit(&mut bus);
    }
    assert_eq!(c.history.len(), 20);
    assert_eq!(c.history[0], "cmd5");
    assert_eq!(c.history[19], "cmd24");
}

fn named_def(name: &str) -> CommandDef {
    CommandDef {
        name: name.to_string(),
        args: vec![
            ArgSpecEntry { name: "msg".to_string(), ty: ArgType::Text, required: true },
            ArgSpecEntry { name: "num".to_string(), ty: ArgType::Count, required: false },
        ],
        handler: HandlerKind::Log,
    }
}

#[test]
fn suggestions_list_matching_names_up_to_the_limit() {
    let mut reg = CommandRegistry::with_builtins();
    for name in ["level", "load", "list", "lint", "quit"] {
        assert_eq!(reg.register(named_def(name)), Ok(()));
    }
    let mut c = Console::new();
    c.type_text("l");
    let s = c.suggestions(&reg);
    assert_eq!(
        s,
        vec!["log".to_string(), "level".to_string(), "load".to_string(), "list".to_string()]
    );
    assert_eq!(s.len(), SUGGESTION_LIMIT);
}

#[test]
fn suggestions_respect_a_narrower_prefix() {
    let mut reg = CommandRegistry::with_builtins();
    assert_eq!(reg.register(named_def("level")), Ok(()));
    let mut c = Console::new();
    c.type_text("le");
    assert_eq!(c.suggestions(&reg), vec!["level".to_string()]);
    let mut d = Console::new();
    d.type_text("zz");
    assert!(d.suggestions(&reg).is_empty());
}
