//! The state of the terminal application.

use vstd::prelude::*;

verus! {

/// Why the application stopped.
#[derive(Debug, Clone, Copy, PartialEq, Eq, Structural)]
pub enum AppError {
    /// The interactive loop does not exist yet.
    NotImplemented,
}

impl AppError {
    /// The message that reports this error.
    pub fn message(&self) -> (msg: String)
        ensures
            msg@ == "App::run not implemented yet"@,
    {
        String::from_str("App::run not implemented yet")
    }
}

/// The terminal application.
#[derive(Debug)]
pub struct App {
    pub running: bool,
}

impl App {
    /// A running application.
    pub fn new() -> (app: Self)
        ensures
            app.running,
    {
        App { running: true }
    }

    /// Runs the interactive loop. It does not exist yet: the call fails
    /// and leaves the application as it was.
    pub fn run(&mut self) -> (r: Result<(), AppError>)
        ensures
            r == Err::<(), AppError>(AppError::NotImplemented),
            final(self).running == old(self).running,
    {
        Err(AppError::NotImplemented)
    }
}

impl Default for App {
    fn default() -> (app: Self)
        ensures
            app.running,
    {
        App::new()
    }
}

} // verus!
