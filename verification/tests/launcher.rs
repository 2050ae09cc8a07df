use hotkey_shell::bridge::{hide_window, open_url_result};
use hotkey_shell::launcher::{
    exit_line, failure_line, server_command, started_line, wait_failure_line, ServerAction,
    ServerEvent, ServerLauncher, ServerState,
};
use hotkey_shell::shortcut::{Key, Modifier, ShortcutSpec};
use hotkey_shell::visibility::{Visibility, VisibilityController, WindowAction};

const ALL_EVENTS: [ServerEvent; 5] = [
    ServerEvent::Startup,
    ServerEvent::Spawned,
    ServerEvent::SpawnFailed,
    ServerEvent::Exited,
    ServerEvent::WaitFailed,
];

fn launcher_in(state: ServerState) -> ServerLauncher {
    let mut launcher = ServerLauncher::new();
    let path: &[ServerEvent] = match state {
        ServerState::NotStarted => &[],
        ServerState::Starting => &[ServerEvent::Startup],
        ServerState::Running => &[ServerEvent::Startup, ServerEvent::Spawned],
        ServerState::Exited => &[ServerEvent::Startup, ServerEvent::Spawned, ServerEvent::Exited],
        ServerState::Failed => &[ServerEvent::Startup, ServerEvent::SpawnFailed],
    };
    for event in path {
        launcher.handle(*event);
    }
    assert_eq!(launcher.state(), state);
    launcher
}

#[test]
fn server_command_is_go_run_in_project_root() {
    let command = server_command();
    assert_eq!(command.program, "go");
    assert_eq!(command.args, vec![String::from("run"), String::from(".")]);
    assert_eq!(command.working_dir, "../..");
}

#[test]
fn new_launcher_has_not_started() {
    assert_eq!(ServerLauncher::new().state(), ServerState::NotStarted);
}

#[test]
fn startup_asks_for_the_spawn() {
    let mut launcher = ServerLauncher::new();
    assert_eq!(launcher.handle(ServerEvent::Startup), ServerAction::Spawn);
    assert_eq!(launcher.state(), ServerState::Starting);
}

#[test]
fn spawned_process_is_awaited_then_reported() {
    let mut launcher = ServerLauncher::new();
    assert_eq!(launcher.handle(ServerEvent::Startup), ServerAction::Spawn);
    assert_eq!(launcher.handle(ServerEvent::Spawned), ServerAction::AwaitExit);
    assert_eq!(launcher.state(), ServerState::Running);
    assert_eq!(launcher.handle(ServerEvent::Exited), ServerAction::ReportExit);
    assert_eq!(launcher.state(), ServerState::Exited);
}

#[test]
fn spawn_failure_is_reported() {
    let mut launcher = ServerLauncher::new();
    assert_eq!(launcher.handle(ServerEvent::Startup), ServerAction::Spawn);
    assert_eq!(launcher.handle(ServerEvent::SpawnFailed), ServerAction::ReportFailure);
    assert_eq!(launcher.state(), ServerState::Failed);
}

#[test]
fn wait_failure_is_reported() {
    let mut launcher = launcher_in(ServerState::Running);
    assert_eq!(launcher.handle(ServerEvent::WaitFailed), ServerAction::ReportWaitFailure);
    assert_eq!(launcher.state(), ServerState::Failed);
    for event in ALL_EVENTS {
        assert_eq!(launcher.handle(event), ServerAction::Nothing);
        assert_eq!(launcher.state(), ServerState::Failed);
    }
}

#[test]
fn spawn_failure_is_never_retried() {
    let mut launcher = launcher_in(ServerState::Failed);
    for _ in 0..2 {
        for event in ALL_EVENTS {
            assert_eq!(launcher.handle(event), ServerAction::Nothing);
            assert_eq!(launcher.state(), ServerState::Failed);
        }
    }
}

#[test]
fn exited_process_is_never_restarted() {
    let mut launcher = launcher_in(ServerState::Exited);
    for event in ALL_EVENTS {
        assert_eq!(launcher.handle(event), ServerAction::Nothing);
        assert_eq!(launcher.state(), ServerState::Exited);
    }
}

#[test]
fn events_that_do_not_fit_the_state_are_ignored() {
    let fitting = [
        (ServerState::NotStarted, ServerEvent::Startup),
        (ServerState::Starting, ServerEvent::Spawned),
        (ServerState::Starting, ServerEvent::SpawnFailed),
        (ServerState::Running, ServerEvent::Exited),
        (ServerState::Running, ServerEvent::WaitFailed),
    ];
    let states = [
        ServerState::NotStarted,
        ServerState::Starting,
        ServerState::Running,
        ServerState::Exited,
        ServerState::Failed,
    ];
    for state in states {
        for event in ALL_EVENTS {
            if !fitting.contains(&(state, event)) {
                let mut launcher = launcher_in(state);
                assert_eq!(launcher.handle(event), ServerAction::Nothing);
                assert_eq!(launcher.state(), state);
            }
        }
    }
}

#[test]
fn at_most_one_spawn_over_any_three_events() {
    for a in ALL_EVENTS {
        for b in ALL_EVENTS {
            for c in ALL_EVENTS {
                let mut launcher = ServerLauncher::new();
                let mut spawns = 0;
                for event in [a, b, c, ServerEvent::Startup] {
                    if launcher.handle(event) == ServerAction::Spawn {
                        spawns += 1;
                    }
                }
                assert_eq!(spawns, 1);
            }
        }
    }
}

#[test]
fn second_startup_does_not_spawn_again() {
    let mut launcher = ServerLauncher::new();
    assert_eq!(launcher.handle(ServerEvent::Startup), ServerAction::Spawn);
    assert_eq!(launcher.handle(ServerEvent::Startup), ServerAction::Nothing);
    assert_eq!(launcher.state(), ServerState::Starting);
}

#[test]
fn log_lines_have_their_text() {
    assert_eq!(started_line(), "Go server started successfully");
    assert_eq!(exit_line(), "Go server exited");
    assert_eq!(
        failure_line("No such file or directory (os error 2)"),
        "Failed to start Go server: No such file or directory (os error 2)"
    );
    assert_eq!(failure_line(""), "Failed to start Go server: ");
    assert_eq!(
        wait_failure_line("No child processes (os error 10)"),
        "Failed to wait for Go server: No child processes (os error 10)"
    );
}

#[test]
fn bridge_works_after_spawn_failure() {
    let mut launcher = ServerLauncher::new();
    assert_eq!(launcher.handle(ServerEvent::Startup), ServerAction::Spawn);
    assert_eq!(launcher.handle(ServerEvent::SpawnFailed), ServerAction::ReportFailure);
    assert_eq!(launcher.state(), ServerState::Failed);

    let shortcut = ShortcutSpec::new(Some(Modifier::Meta), Key::Space);
    let mut window = Some(VisibilityController::new(shortcut, Visibility::Shown));
    assert_eq!(hide_window(&mut window), Ok(WindowAction::Hide));
    assert_eq!(window.as_ref().unwrap().visibility(), Visibility::Hidden);
    assert_eq!(open_url_result(Ok(())), Ok(()));
    assert_eq!(launcher.state(), ServerState::Failed);
}
