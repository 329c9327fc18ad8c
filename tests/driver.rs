use paxil::{AppConfig, AppError, AppRunner, RunAction, RunEvent, RunState};

#[test]
fn default_config() {
    let c = AppConfig::new();
    assert_eq!(c.window_title, "paxil");
    assert_eq!((c.window_width, c.window_height), (800, 600));
    assert_eq!((c.gl_version_major, c.gl_version_minor), (4, 1));
    let d = AppConfig::default();
    assert_eq!(d.window_title, c.window_title);
}

#[test]
fn run_reaches_running_and_draws() {
    let config = AppConfig {
        window_title: "t".to_string(),
        window_width: 800,
        window_height: 600,
        gl_version_major: 4,
        gl_version_minor: 1,
    };
    let (mut runner, first) = AppRunner::start(&config);
    assert_eq!(
        first,
        RunAction::CreateContext {
            title: "t".to_string(),
            width: 800,
            height: 600,
            gl_major: 4,
            gl_minor: 1,
            swap_interval: 1,
        }
    );
    assert_eq!(runner.state(), RunState::Uninitialized);
    assert_eq!(runner.step(RunEvent::ContextReady), RunAction::ConstructApp);
    assert_eq!(runner.state(), RunState::ContextCreated);
    assert_eq!(runner.step(RunEvent::AppReady), RunAction::EnterLoop);
    assert_eq!(runner.state(), RunState::Running);
    assert_eq!(runner.step(RunEvent::RedrawRequested), RunAction::DrawAndPresent);
    assert_eq!(runner.step(RunEvent::Other), RunAction::Ignore);
    assert_eq!(runner.state(), RunState::Running);
    assert_eq!(runner.step(RunEvent::CloseRequested), RunAction::Exit);
    assert_eq!(runner.state(), RunState::Closed);
}

#[test]
fn context_failure_aborts_before_running() {
    let (mut runner, _) = AppRunner::start(&AppConfig::new());
    assert_eq!(runner.step(RunEvent::ContextFailed), RunAction::Abort(AppError::ContextCreationError));
    assert_eq!(runner.state(), RunState::Closed);
    assert_eq!(runner.step(RunEvent::ContextReady), RunAction::Ignore);
    assert_eq!(runner.step(RunEvent::RedrawRequested), RunAction::Ignore);
    assert_eq!(runner.state(), RunState::Closed);
}

#[test]
fn no_drawing_before_running() {
    let (mut runner, _) = AppRunner::start(&AppConfig::new());
    assert_eq!(runner.step(RunEvent::RedrawRequested), RunAction::Ignore);
    assert_eq!(runner.step(RunEvent::ContextReady), RunAction::ConstructApp);
    assert_eq!(runner.step(RunEvent::RedrawRequested), RunAction::Ignore);
    assert_eq!(runner.step(RunEvent::CloseRequested), RunAction::Ignore);
    assert_eq!(runner.state(), RunState::ContextCreated);
}
