use alphacentauri::command::build_command;
use alphacentauri::config::{generate_default_user_config, Shell};
use alphacentauri::failure::{settle, Failure, Fault, Operation, Step};
use alphacentauri::launch::{
    advance_creation, begin_creation, cwd_from_referring, cwd_from_requested, cwd_probe,
    plan_session, CreationStep, CreationTurn, CwdAnswer, CwdProbe, LaunchPlan, SessionRequest,
};
use alphacentauri::locking::{may_contend, Resource};
use alphacentauri::notification::{get_startup_notifications, Level, NotificationEvent};
use alphacentauri::platform::{get_system_info, Platform};
use alphacentauri::session::{
    check_exit_status, end_session, end_session_request, lookup, read_from_session,
    register_session, resize, resize_request, wait_for_exit, write_to_session, ShellStatus,
    TerminalSize,
};
use alphacentauri::session_table::SessionTable;
use alphacentauri::startup::{config_location, startup_state};
use alphacentauri::loading::{persisted, ready, UserConfigError};
use alphacentauri::string_map::StringMap;
use alphacentauri::text::render_decimal;

fn fault(message: &str, diagnostic: &str) -> Fault {
    Fault { message: message.to_string(), diagnostic: diagnostic.to_string() }
}

fn no_overrides() -> SessionRequest {
    SessionRequest { args: None, cols: None, rows: None, env: None }
}

fn configured_shell() -> Shell {
    Shell {
        program: "zsh".to_string(),
        args: vec!["-l".to_string(), "-i".to_string()],
        env: StringMap::from_pairs(vec![("TERM".to_string(), "xterm".to_string())]),
        bell: true,
    }
}

fn assert_unavailable(failure: &Failure, message: &str, handle: &str) {
    assert_eq!(failure.error, "unavailable handle");
    assert_eq!(failure.notification.level, 3);
    assert_eq!(failure.notification.message, message);
    assert_eq!(failure.notification.details, format!("Session not found for pid {}", handle));
    assert_eq!(failure.log, format!(
            "Error on state.sessions.read().await.get - session with pid={} not found",
            handle
        ));
}

#[test]
fn lookup_of_missing_handle_is_unavailable() {
    let mut table: SessionTable<&str> = SessionTable::new();
    table.insert(7, "seven");
    let cases = [
        (Operation::Write, "There was an error writing to the shell session."),
        (Operation::Read, "There was an error reading from the shell session."),
        (Operation::Resize, "There was an error resizing the shell session."),
        (Operation::Wait, "There was an error waiting for the shell session to exit"),
        (Operation::CheckStatus, "There was an error getting the shell session exit code."),
    ];
    for (operation, message) in cases {
        assert!(operation.needs_session());
        match lookup(&table, operation, 42) {
            Ok(_) => panic!("handle 42 is not in the table"),
            Err(failure) => assert_unavailable(&failure, message, "42"),
        }
        assert_eq!(lookup(&table, operation, 7).ok(), Some(&"seven"));
    }
}

#[test]
fn handles_are_rendered_in_decimal() {
    let table: SessionTable<u8> = SessionTable::new();
    for (handle, text) in [(0u32, "0"), (9, "9"), (10, "10"), (4096, "4096"), (u32::MAX, "4294967295")] {
        let failure = lookup(&table, Operation::Write, handle).err().unwrap();
        assert_unavailable(&failure, "There was an error writing to the shell session.", text);
    }
}

#[test]
fn table_keeps_sessions_apart() {
    let mut table: SessionTable<String> = SessionTable::new();
    assert!(!table.contains(1));
    assert_eq!(table.insert(1, "a".to_string()), None);
    assert_eq!(table.insert(2, "b".to_string()), None);
    assert_eq!(table.get(1), Some(&"a".to_string()));
    assert_eq!(table.get(2), Some(&"b".to_string()));
    assert_eq!(table.len(), 2);
    assert_eq!(table.insert(1, "c".to_string()), Some("a".to_string()));
    assert_eq!(table.len(), 2);
    assert_eq!(table.get(2), Some(&"b".to_string()));
    assert_eq!(table.remove(1), Some("c".to_string()));
    assert_eq!(table.remove(1), None);
    assert!(!table.contains(1));
    assert!(table.contains(2));
}

#[test]
fn register_session_enters_only_complete_sessions() {
    let mut table: SessionTable<&str> = SessionTable::new();
    assert_eq!(register_session(&mut table, Some(11), "first").ok(), Some(11));
    assert_eq!(register_session(&mut table, Some(12), "second").ok(), Some(12));
    assert_eq!(table.get(11), Some(&"first"));
    assert_eq!(table.get(12), Some(&"second"));
    let failure = register_session(&mut table, None, "third").err().unwrap();
    assert_eq!(failure.error, "no process id for spawned child");
    assert_eq!(failure.log, "child.process_id() returned None");
    assert_eq!(failure.notification.level, 3);
    assert_eq!(failure.notification.message, "Could not open terminal");
    assert_eq!(
        failure.notification.details,
        "When attempting to fork child process for new terminal instance, pid was not found"
    );
    assert!(table.contains(11));
    assert!(table.contains(12));
    assert!(!table.contains(0));
}

#[test]
fn end_session_leaves_the_table() {
    let mut table: SessionTable<&str> = SessionTable::new();
    table.insert(5, "five");
    assert!(end_session(Ok(())).is_ok());
    assert!(table.contains(5));
    let request = end_session_request();
    assert_eq!(request.signal, "SIGKILL");
    assert!(request.include_target);
    let failure = end_session(Err(fault("no such process", "Os { code: 3 }"))).err().unwrap();
    assert_eq!(failure.error, "no such process");
    assert_eq!(failure.log, "Error on kill_tree::tokio::kill_tree_with_config().await: Os { code: 3 }");
    assert_eq!(failure.notification.message, "There was an error ending the shell session.");
    assert_eq!(failure.notification.details, "Os { code: 3 }");
}

#[test]
fn write_failure_is_reported_once() {
    assert!(write_to_session(Ok(())).is_ok());
    let failure = write_to_session(Err(fault("broken pipe", "Kind(BrokenPipe)"))).err().unwrap();
    assert_eq!(failure.error, "broken pipe");
    assert_eq!(failure.log, "Error on session.clone().writer.lock().await.write_all: Kind(BrokenPipe)");
    assert_eq!(failure.notification.level, 3);
    assert_eq!(failure.notification.message, "There was an error writing to the shell session.");
    assert_eq!(failure.notification.details, "Kind(BrokenPipe)");
}

#[test]
fn read_returns_exactly_the_bytes_read() {
    let mut buffer = [0u8; 1024];
    buffer[..5].copy_from_slice(b"hello");
    assert_eq!(read_from_session(&buffer, Ok(5)).ok(), Some("hello".to_string()));
    assert_eq!(read_from_session(&buffer, Ok(2)).ok(), Some("he".to_string()));
    assert_eq!(read_from_session(&buffer, Ok(0)).ok(), Some(String::new()));
    assert_eq!(read_from_session(&buffer, Ok(1024)).ok().unwrap().len(), 1024);
    let invalid = [b'a', 0xff, b'b'];
    assert_eq!(read_from_session(&invalid, Ok(3)).ok(), Some("a\u{fffd}b".to_string()));
    let failure = read_from_session(&buffer, Err(fault("eof", "Kind(UnexpectedEof)"))).err().unwrap();
    assert_eq!(failure.error, "eof");
    assert_eq!(failure.log, "Error on session.reader.lock().await.read: Kind(UnexpectedEof)");
    assert_eq!(failure.notification.message, "There was an error reading from the shell session.");
}

#[test]
fn resize_asks_for_cells_only() {
    assert_eq!(
        resize_request(80, 24),
        TerminalSize { rows: 24, cols: 80, pixel_width: 0, pixel_height: 0 }
    );
    assert!(resize(Ok(())).is_ok());
    let failure = resize(Err(fault("ioctl failed", "EBADF"))).err().unwrap();
    assert_eq!(failure.error, "ioctl failed");
    assert_eq!(failure.log, "Error on session.pair.lock().await.master.resize: EBADF");
    assert_eq!(failure.notification.message, "There was an error resizing the shell session.");
}

#[test]
fn wait_hands_the_exit_code_on() {
    assert_eq!(wait_for_exit(Ok(0)).ok(), Some(0));
    assert_eq!(wait_for_exit(Ok(130)).ok(), Some(130));
    let failure = wait_for_exit(Err(fault("gone", "ECHILD"))).err().unwrap();
    assert_eq!(failure.error, "gone");
    assert_eq!(failure.log, "Error on session.clone().child.lock().await.wait(): ECHILD");
    assert_eq!(
        failure.notification.message,
        "There was an error waiting for the shell session to exit"
    );
}

#[test]
fn status_tells_running_from_exited() {
    assert_eq!(
        check_exit_status(Ok(None)).ok(),
        Some(ShellStatus { has_exited: false, exit_code: None })
    );
    assert_eq!(
        check_exit_status(Ok(Some(0))).ok(),
        Some(ShellStatus { has_exited: true, exit_code: Some(0) })
    );
    assert_eq!(
        check_exit_status(Ok(Some(2))).ok(),
        Some(ShellStatus { has_exited: true, exit_code: Some(2) })
    );
    let failure = check_exit_status(Err(fault("gone", "ECHILD"))).err().unwrap();
    assert_eq!(failure.error, "gone");
    assert_eq!(failure.log, "Error on session.child.lock().await.try_wait: ECHILD");
    assert_eq!(
        failure.notification.message,
        "There was an error getting the shell session exit code."
    );
}

#[test]
fn settle_passes_values_through() {
    assert_eq!(settle(Operation::Create, Step::OpenPty, Ok(5u8)).ok(), Some(5));
    let steps = [
        (Step::OpenPty, "pty_system.openpty"),
        (Step::TakeWriter, "pair.master.take_writer"),
        (Step::CloneReader, "pair.master.try_clone_reader"),
        (Step::Spawn, "pair.slave.spawn_command"),
        (Step::Encode, "serde_json::to_string"),
    ];
    for (step, origin) in steps {
        let failure = settle::<u8>(Operation::Create, step, Err(fault("m", "d"))).err().unwrap();
        assert_eq!(failure.error, "m");
        assert_eq!(failure.log, format!("Error on {}: d", origin));
        assert_eq!(failure.notification.level, 3);
        assert_eq!(failure.notification.message, "There was an error creating the shell session.");
        assert_eq!(failure.notification.details, "d");
    }
    assert_eq!(
        Operation::UserConfig.failure_message(),
        "There was an error getting the user configuration file."
    );
    assert_eq!(
        Operation::SystemInfo.failure_message(),
        "There was an error getting the user configuration file."
    );
}

#[test]
fn plan_without_overrides_uses_configuration() {
    let shell = configured_shell();
    let plan = plan_session(&shell, no_overrides());
    assert_eq!(plan.program, Some("zsh".to_string()));
    assert_eq!(plan.args, shell.args);
    assert_eq!(plan.env, shell.env);
    assert_eq!(plan.size, TerminalSize { rows: 100, cols: 200, pixel_width: 0, pixel_height: 0 });
}

#[test]
fn plan_overrides_field_by_field() {
    let shell = configured_shell();
    let only_args = plan_session(
        &shell,
        SessionRequest { args: Some(vec!["-c".to_string()]), cols: None, rows: None, env: None },
    );
    assert_eq!(only_args.args, vec!["-c".to_string()]);
    assert_eq!(only_args.env, shell.env);
    assert_eq!(only_args.program, Some("zsh".to_string()));

    let env = StringMap::from_pairs(vec![("A".to_string(), "1".to_string())]);
    let only_env = plan_session(
        &shell,
        SessionRequest { args: None, cols: Some(80), rows: None, env: Some(env.clone()) },
    );
    assert_eq!(only_env.args, shell.args);
    assert_eq!(only_env.env, env);
    assert_eq!(only_env.size, TerminalSize { rows: 100, cols: 80, pixel_width: 0, pixel_height: 0 });

    let only_rows =
        plan_session(&shell, SessionRequest { args: None, cols: None, rows: Some(24), env: None });
    assert_eq!(only_rows.size, TerminalSize { rows: 24, cols: 200, pixel_width: 0, pixel_height: 0 });

    let default_shell = generate_default_user_config().shell;
    assert_eq!(plan_session(&default_shell, no_overrides()).program, None);
}

fn resolve(
    requested: Option<&str>,
    requested_exists: bool,
    referring: Option<u32>,
    referring_directory: Option<&str>,
    referring_exists: bool,
) -> Option<String> {
    let inspect = || cwd_from_referring(referring_directory.map(str::to_string), referring_exists);
    match cwd_probe(requested.map(str::to_string), referring) {
        CwdProbe::Requested(path) => match cwd_from_requested(path, requested_exists, referring) {
            CwdAnswer::Use(directory) => Some(directory),
            CwdAnswer::Look(handle) => {
                assert_eq!(Some(handle), referring);
                inspect()
            }
            CwdAnswer::Unset => None,
        },
        CwdProbe::Referring(handle) => {
            assert_eq!(Some(handle), referring);
            inspect()
        }
        CwdProbe::Unspecified => None,
    }
}

#[test]
fn working_directory_is_resolved_in_order() {
    assert!(matches!(
        cwd_probe(Some("/tmp".to_string()), Some(4)),
        CwdProbe::Requested(path) if path == "/tmp"
    ));
    assert!(matches!(cwd_probe(None, Some(4)), CwdProbe::Referring(4)));
    assert!(matches!(cwd_probe(None, None), CwdProbe::Unspecified));
    assert!(matches!(
        cwd_from_requested("/tmp".to_string(), true, Some(4)),
        CwdAnswer::Use(path) if path == "/tmp"
    ));
    assert!(matches!(
        cwd_from_requested("/tmp".to_string(), true, None),
        CwdAnswer::Use(path) if path == "/tmp"
    ));
    assert!(matches!(cwd_from_requested("/nowhere".to_string(), false, Some(4)), CwdAnswer::Look(4)));
    assert!(matches!(cwd_from_requested("/nowhere".to_string(), false, None), CwdAnswer::Unset));
    assert_eq!(cwd_from_referring(Some("/home".to_string()), true), Some("/home".to_string()));
    assert_eq!(cwd_from_referring(Some("/home".to_string()), false), None);
    assert_eq!(cwd_from_referring(None, true), None);
    assert_eq!(cwd_from_referring(None, false), None);
}

#[test]
fn missing_requested_directory_gives_way_to_referring_process() {
    let home = Some("/home".to_string());
    assert_eq!(resolve(Some("/tmp"), true, Some(4), Some("/home"), true), Some("/tmp".to_string()));
    assert_eq!(resolve(Some("/nowhere"), false, Some(4), Some("/home"), true), home);
    assert_eq!(resolve(Some("/nowhere"), false, Some(4), Some("/home"), false), None);
    assert_eq!(resolve(Some("/nowhere"), false, Some(4), None, false), None);
    assert_eq!(resolve(Some("/nowhere"), false, None, None, false), None);
    assert_eq!(resolve(None, false, Some(4), Some("/home"), true), home);
    assert_eq!(resolve(None, false, Some(4), Some("/home"), false), None);
    assert_eq!(resolve(None, false, None, None, false), None);
}

#[test]
fn streams_are_taken_before_spawn() {
    let mut steps = Vec::new();
    let mut creation = begin_creation();
    assert_eq!(creation.next_step(), Some(CreationStep::OpenPty));
    let end = loop {
        match creation.turn() {
            CreationTurn::Perform(step, pending) => {
                steps.push(step);
                creation = advance_creation(pending, Ok(()));
            }
            end => break end,
        }
    };
    assert!(matches!(end, CreationTurn::Complete));
    assert_eq!(
        steps,
        vec![
            CreationStep::OpenPty,
            CreationStep::TakeWriter,
            CreationStep::CloneReader,
            CreationStep::Spawn
        ]
    );
    assert_eq!(CreationStep::OpenPty.step(), Step::OpenPty);
    assert_eq!(CreationStep::TakeWriter.step(), Step::TakeWriter);
    assert_eq!(CreationStep::CloneReader.step(), Step::CloneReader);
    assert_eq!(CreationStep::Spawn.step(), Step::Spawn);
}

#[test]
fn failed_step_ends_creation() {
    for failing in 0..4 {
        let mut creation = begin_creation();
        let mut performed = 0;
        let end = loop {
            match creation.turn() {
                CreationTurn::Perform(_, pending) => {
                    let outcome =
                        if performed == failing { Err(fault("denied", "EPERM")) } else { Ok(()) };
                    performed += 1;
                    creation = advance_creation(pending, outcome);
                }
                end => break end,
            }
        };
        assert_eq!(performed, failing + 1);
        let origin = [
            "pty_system.openpty",
            "pair.master.take_writer",
            "pair.master.try_clone_reader",
            "pair.slave.spawn_command",
        ][failing];
        match end {
            CreationTurn::Failed(failure) => {
                assert_eq!(failure.error, "denied");
                assert_eq!(failure.notification.level, 3);
                assert_eq!(
                    failure.notification.message,
                    "There was an error creating the shell session."
                );
                assert_eq!(failure.notification.details, "EPERM");
                assert_eq!(failure.log, format!("Error on {}: EPERM", origin));
            }
            other => panic!("expected a failure, got {:?}", other),
        }
    }
}

#[test]
fn ended_creation_stays_as_it_is() {
    let failed = advance_creation(begin_creation(), Err(fault("denied", "EPERM")));
    assert_eq!(failed.next_step(), None);
    let still_failed = advance_creation(failed, Ok(()));
    assert_eq!(still_failed.next_step(), None);
    assert!(matches!(still_failed.turn(), CreationTurn::Failed(failure) if failure.error == "denied"));

    let mut creation = begin_creation();
    for _ in 0..4 {
        creation = advance_creation(creation, Ok(()));
    }
    assert_eq!(creation.next_step(), None);
    let complete = advance_creation(creation, Err(fault("late", "late")));
    assert!(matches!(complete.turn(), CreationTurn::Complete));
}

fn variables_set_by_hand(command: &portable_pty::CommandBuilder) -> Vec<(String, String)> {
    let mut set: Vec<(String, String)> = command
        .iter_extra_env_as_str()
        .map(|(name, value)| (name.to_string(), value.to_string()))
        .collect();
    set.sort();
    set
}

#[test]
fn command_carries_the_configured_variables_and_no_other() {
    let mut shell = configured_shell();
    shell.env = StringMap::from_pairs(vec![
        ("TERM".to_string(), "xterm".to_string()),
        ("ALPHA".to_string(), "1".to_string()),
    ]);
    let plan = plan_session(&shell, no_overrides());
    let command = build_command(&plan, &None).ok().unwrap();
    assert_eq!(
        variables_set_by_hand(&command),
        vec![("ALPHA".to_string(), "1".to_string()), ("TERM".to_string(), "xterm".to_string())]
    );
}

#[test]
fn requested_variables_replace_the_configured_ones() {
    let shell = configured_shell();
    let request = SessionRequest {
        args: None,
        cols: None,
        rows: None,
        env: Some(StringMap::from_pairs(vec![("BETA".to_string(), "2".to_string())])),
    };
    let plan = plan_session(&shell, request);
    let command = build_command(&plan, &Some("/tmp".to_string())).ok().unwrap();
    assert_eq!(variables_set_by_hand(&command), vec![("BETA".to_string(), "2".to_string())]);

    let none = SessionRequest { args: None, cols: None, rows: None, env: Some(StringMap::new()) };
    let bare = build_command(&plan_session(&shell, none), &None).ok().unwrap();
    assert!(variables_set_by_hand(&bare).is_empty());
}

#[test]
fn command_holds_program_arguments_directory_and_variables() {
    let shell = configured_shell();
    let plan = plan_session(&shell, no_overrides());
    let command = build_command(&plan, &Some("/tmp".to_string())).ok().unwrap();
    let argv: Vec<String> =
        command.get_argv().iter().map(|a| a.to_string_lossy().into_owned()).collect();
    assert_eq!(argv, vec!["zsh".to_string(), "-l".to_string(), "-i".to_string()]);
    assert_eq!(command.get_cwd().map(|d| d.to_string_lossy().into_owned()), Some("/tmp".to_string()));
    assert_eq!(command.get_env("TERM").map(|v| v.to_string_lossy().into_owned()), Some("xterm".to_string()));
    assert!(!command.is_default_prog());

    let bare = build_command(&plan, &None).ok().unwrap();
    assert_eq!(bare.get_cwd(), None);
}

#[test]
fn command_for_default_shell_takes_no_arguments() {
    let plan = LaunchPlan {
        program: None,
        args: Vec::new(),
        env: StringMap::from_pairs(vec![
            ("ALPHA".to_string(), "1".to_string()),
            ("BETA".to_string(), "2".to_string()),
        ]),
        size: resize_request(80, 24),
    };
    let command = build_command(&plan, &None).ok().unwrap();
    assert!(command.is_default_prog());
    assert!(command.get_argv().is_empty());
    assert_eq!(command.get_env("ALPHA").map(|v| v.to_string_lossy().into_owned()), Some("1".to_string()));
    assert_eq!(command.get_env("BETA").map(|v| v.to_string_lossy().into_owned()), Some("2".to_string()));

    let unbuildable = LaunchPlan {
        program: None,
        args: vec!["-l".to_string()],
        env: StringMap::new(),
        size: resize_request(80, 24),
    };
    let failure = build_command(&unbuildable, &None).err().unwrap();
    assert_eq!(failure.error, "attempted to add args to a default_prog builder");
    assert_eq!(
        failure.log,
        "Error on CommandBuilder::arg: attempted to add args to a default_prog builder"
    );
    assert_eq!(failure.notification.level, 3);
    assert_eq!(failure.notification.message, "There was an error creating the shell session.");
}

#[test]
fn only_the_same_part_of_the_same_session_contends() {
    assert_eq!(Operation::Write.resource(), Some(Resource::Writer));
    assert_eq!(Operation::Read.resource(), Some(Resource::Reader));
    assert_eq!(Operation::Resize.resource(), Some(Resource::Master));
    assert_eq!(Operation::Wait.resource(), Some(Resource::Child));
    assert_eq!(Operation::CheckStatus.resource(), Some(Resource::Child));
    assert_eq!(Operation::Create.resource(), None);
    assert_eq!(Operation::End.resource(), None);
    assert!(!Operation::End.needs_session());
    assert!(may_contend(1, Operation::Write, 1, Operation::Write));
    assert!(may_contend(1, Operation::Wait, 1, Operation::CheckStatus));
    assert!(!may_contend(1, Operation::Write, 2, Operation::Write));
    assert!(!may_contend(1, Operation::Resize, 1, Operation::Read));
    assert!(!may_contend(1, Operation::Resize, 1, Operation::Write));
    assert!(!may_contend(1, Operation::Wait, 1, Operation::Resize));
    assert!(!may_contend(1, Operation::Create, 1, Operation::Create));
}

#[test]
fn system_is_named() {
    assert_eq!(get_system_info(Platform::Windows).system, "windows");
    assert_eq!(get_system_info(Platform::Macos).system, "macos");
    assert_eq!(get_system_info(Platform::Unix).system, "unix");
}

#[test]
fn configuration_is_looked_for_at_home_unless_named() {
    let named = config_location(Some("/etc/term.json".to_string()), "/home/u", Platform::Unix);
    assert_eq!(named.path, "/etc/term.json");
    assert!(!named.save_default_config);
    let unix = config_location(None, "/home/u", Platform::Unix);
    assert_eq!(unix.path, "/home/u/.alphacentauri.config.json");
    assert!(unix.save_default_config);
    let mac = config_location(None, "/Users/u", Platform::Macos);
    assert_eq!(mac.path, "/Users/u/.alphacentauri.config.json");
    let windows = config_location(None, "C:\\Users\\u", Platform::Windows);
    assert_eq!(windows.path, "C:\\Users\\u\\.alphacentauri.config.json");
    assert!(windows.save_default_config);
}

#[test]
fn startup_falls_back_to_default_with_one_warning() {
    let mut config = generate_default_user_config();
    config.shell.program = "fish".to_string();
    let (loaded, notifications) = startup_state(Ok(ready(config.clone())));
    assert_eq!(loaded, config);
    assert!(notifications.is_empty());

    let (fallback, mut notifications) =
        startup_state(Err(UserConfigError::Parse("line 1".to_string())));
    assert_eq!(fallback, generate_default_user_config());
    assert_eq!(
        notifications,
        vec![NotificationEvent {
            level: 2,
            message: "There was an error getting your configuration settings.".to_string(),
            details: "User Configuration file found, but could not be parsed.\nline 1".to_string(),
        }]
    );
    let drained = get_startup_notifications(&mut notifications);
    assert_eq!(drained.len(), 1);
    assert_eq!(drained[0].level, 2);
    assert!(notifications.is_empty());
    assert!(get_startup_notifications(&mut notifications).is_empty());
}

#[test]
fn startup_warns_when_the_default_could_not_be_saved() {
    let unsaved = persisted(
        generate_default_user_config(),
        Err(UserConfigError::Write("read-only".to_string())),
    );
    let (config, notifications) = startup_state(Ok(unsaved));
    assert_eq!(config, generate_default_user_config());
    assert_eq!(
        notifications,
        vec![NotificationEvent {
            level: 2,
            message: "There was an error getting your configuration settings.".to_string(),
            details: "Unable to save User Configuration file.\nread-only".to_string(),
        }]
    );
}

#[test]
fn numbers_are_written_in_decimal() {
    assert_eq!(render_decimal(0), "0");
    assert_eq!(render_decimal(7), "7");
    assert_eq!(render_decimal(10), "10");
    assert_eq!(render_decimal(1234567890), "1234567890");
    assert_eq!(render_decimal(u32::MAX), "4294967295");
}

#[test]
fn levels_have_their_codes() {
    assert_eq!(Level::Info.code(), 1);
    assert_eq!(Level::Warn.code(), 2);
    assert_eq!(Level::Error.code(), 3);
    let event = NotificationEvent::new(Level::Info, "m".to_string(), "d".to_string());
    assert_eq!(event.level, 1);
    assert_eq!(event.message, "m");
    assert_eq!(event.details, "d");
    assert_eq!(event.clone(), event);
}
