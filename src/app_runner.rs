//! The application driver, as a state machine: it is told what happened
//! (the context came up or failed, the application was constructed, a window
//! event arrived) and says what to do next. The program around it opens the
//! window, runs the event loop and performs each action.
use vstd::prelude::*;
use crate::app_config::AppConfig;

verus! {

/// Why the driver stopped before or while running.
#[derive(PartialEq, Eq, Debug, Clone)]
pub enum AppError {
    ContextCreationError,
    ShaderCreationError,
    Other(String),
}

/// The driver's lifecycle.
#[derive(PartialEq, Eq, Structural, Debug, Clone, Copy)]
pub enum RunState {
    Uninitialized,
    ContextCreated,
    Running,
    Closed,
}

/// What the platform reports to the driver.
#[derive(PartialEq, Eq, Structural, Debug, Clone, Copy)]
pub enum RunEvent {
    /// The window opened and the context is current with the swap interval set.
    ContextReady,
    /// Opening the window or creating the context or surface failed.
    ContextFailed,
    /// The application object was constructed.
    AppReady,
    RedrawRequested,
    CloseRequested,
    /// Any other window event.
    Other,
}

/// What the driver asks the program around it to do.
#[derive(PartialEq, Eq, Debug, Clone)]
pub enum RunAction {
    /// Open a window with this title and size, create a GL context of this
    /// version, make it current and set this swap interval.
    CreateContext {
        title: String,
        width: u32,
        height: u32,
        gl_major: u8,
        gl_minor: u8,
        swap_interval: u32,
    },
    /// Construct the application object with the shared context.
    ConstructApp,
    /// Start delivering window events.
    EnterLoop,
    /// Call the application's draw, then present the back buffer.
    DrawAndPresent,
    /// Leave the event loop; the run succeeded.
    Exit,
    /// Stop before running; the run failed with this error.
    Abort(AppError),
    /// Nothing to do for this event.
    Ignore,
}

/// The state an event leads to.
pub open spec fn next_state(s: RunState, e: RunEvent) -> RunState {
    match (s, e) {
        (RunState::Uninitialized, RunEvent::ContextReady) => RunState::ContextCreated,
        (RunState::Uninitialized, RunEvent::ContextFailed) => RunState::Closed,
        (RunState::ContextCreated, RunEvent::AppReady) => RunState::Running,
        (RunState::Running, RunEvent::CloseRequested) => RunState::Closed,
        _ => s,
    }
}

/// The action an event calls for.
pub open spec fn action_for(s: RunState, e: RunEvent) -> RunAction {
    match (s, e) {
        (RunState::Uninitialized, RunEvent::ContextReady) => RunAction::ConstructApp,
        (RunState::Uninitialized, RunEvent::ContextFailed) => RunAction::Abort(
            AppError::ContextCreationError,
        ),
        (RunState::ContextCreated, RunEvent::AppReady) => RunAction::EnterLoop,
        (RunState::Running, RunEvent::RedrawRequested) => RunAction::DrawAndPresent,
        (RunState::Running, RunEvent::CloseRequested) => RunAction::Exit,
        _ => RunAction::Ignore,
    }
}

/// Drives one run of an application.
pub struct AppRunner {
    state: RunState,
}

impl View for AppRunner {
    type V = RunState;

    closed spec fn view(&self) -> RunState {
        self.state
    }
}

impl AppRunner {
    /// A driver for `config`, with its first action: create the window and
    /// a context of the configured version, with vertical sync.
    pub fn start(config: &AppConfig) -> (r: (AppRunner, RunAction))
        ensures
            r.0@ == RunState::Uninitialized,
            r.1 matches RunAction::CreateContext {
                title,
                width,
                height,
                gl_major,
                gl_minor,
                swap_interval,
            } && title@ == config.window_title@ && width == config.window_width && height
                == config.window_height && gl_major == config.gl_version_major && gl_minor
                == config.gl_version_minor && swap_interval == 1,
    {
        (
            AppRunner { state: RunState::Uninitialized },
            RunAction::CreateContext {
                title: config.window_title.clone(),
                width: config.window_width,
                height: config.window_height,
                gl_major: config.gl_version_major,
                gl_minor: config.gl_version_minor,
                swap_interval: 1,
            },
        )
    }

    pub fn state(&self) -> (r: RunState)
        ensures
            r == self@,
    {
        self.state
    }

    /// Takes an event and returns the action it calls for.
    pub fn step(&mut self, event: RunEvent) -> (r: RunAction)
        ensures
            final(self)@ == next_state(old(self)@, event),
            r == action_for(old(self)@, event),
    {
        let s = self.state;
        match (s, event) {
            (RunState::Uninitialized, RunEvent::ContextReady) => {
                self.state = RunState::ContextCreated;
                RunAction::ConstructApp
            },
            (RunState::Uninitialized, RunEvent::ContextFailed) => {
                self.state = RunState::Closed;
                RunAction::Abort(AppError::ContextCreationError)
            },
            (RunState::ContextCreated, RunEvent::AppReady) => {
                self.state = RunState::Running;
                RunAction::EnterLoop
            },
            (RunState::Running, RunEvent::RedrawRequested) => RunAction::DrawAndPresent,
            (RunState::Running, RunEvent::CloseRequested) => {
                self.state = RunState::Closed;
                RunAction::Exit
            },
            _ => RunAction::Ignore,
        }
    }
}

/// Closed is terminal: once closed, the driver stays closed and does nothing,
/// whatever arrives.
pub proof fn lemma_closed_is_terminal(e: RunEvent)
    ensures
        next_state(RunState::Closed, e) == RunState::Closed,
        action_for(RunState::Closed, e) == RunAction::Ignore,
{
}

} // verus!
