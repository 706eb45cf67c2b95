//! The resolved configuration of one managed application, and the launch and
//! initial-placement decisions taken from it.

use vstd::prelude::*;
use std::collections::HashMap;
use crate::hyprland::{focus_address_command, focus_address_text, hide_command, hide_text, texts, WindowInfo};

verus! {

/// Seconds to wait for a launched application's window when none is configured.
pub const DEFAULT_LAUNCH_TIMEOUT_SECS: u64 = 10;

/// The fewest polls of the client list after a launch.
pub const MIN_LAUNCH_ATTEMPTS: u64 = 10;

/// Milliseconds between two polls of the client list after a launch.
pub const LAUNCH_POLL_INTERVAL_MS: u64 = 500;

/// Seconds between two liveness polls of the managed window.
pub const WINDOW_CHECK_INTERVAL_SECS: u64 = 2;

/// Milliseconds a freshly launched window is given to settle before it is hidden.
pub const SETTLE_DELAY_MS: u64 = 500;

/// Configuration for a single managed application.
#[derive(Debug, Clone)]
pub struct AppConfig {
    /// Display name of the application
    pub name: String,
    /// Hyprland window class to track
    pub class: String,
    /// Icon name for tray icon (optional, defaults to class)
    pub icon: Option<String>,
    /// Command and arguments to launch the application
    pub command: Vec<String>,
    /// Name to use for desktop notifications (optional)
    pub notify_name: Option<String>,
    /// Whether to launch app directly in hidden special workspace
    pub launch_in_background: Option<bool>,
    /// Maximum time to wait for application launch in seconds (default: 10)
    pub launch_timeout: Option<u64>,
}

/// Root configuration structure containing all managed apps.
#[derive(Debug)]
pub struct Config {
    /// Map of app identifiers to their configurations
    pub apps: HashMap<String, AppConfig>,
}

/// Why a launch could not be attempted.
#[derive(Debug, Clone, Copy, PartialEq, Eq, Structural)]
pub enum LaunchError {
    /// The configured command is empty.
    NoCommand,
}

/// How a window is placed when the daemon starts.
#[derive(Debug, Clone)]
pub enum InitialPlacement {
    /// The window was already open: toggle it.
    Toggle,
    /// The window was just launched in the background: after a settle delay,
    /// send these commands (each failure ignored).
    Hide { commands: Vec<String> },
    /// The window was just launched in the foreground: leave it.
    Keep,
}

pub open spec fn timeout_spec(timeout: Option<u64>) -> int {
    match timeout {
        Some(t) => t as int,
        None => DEFAULT_LAUNCH_TIMEOUT_SECS as int,
    }
}

/// Two polls per second of the timeout, at least `MIN_LAUNCH_ATTEMPTS`,
/// saturating at `u64::MAX`.
pub open spec fn attempts_spec(timeout: Option<u64>) -> int {
    let twice = 2 * timeout_spec(timeout);
    let capped = if twice > u64::MAX { u64::MAX as int } else { twice };
    if capped < MIN_LAUNCH_ATTEMPTS { MIN_LAUNCH_ATTEMPTS as int } else { capped }
}

/// What one poll of the launch wait leads to.
#[derive(Debug, Clone, Copy, PartialEq, Eq, Structural)]
pub enum WaitStep {
    /// The window appeared.
    Found,
    /// Poll again after the interval.
    Retry,
    /// The attempts are used up: the launch failed.
    GiveUp,
}

/// The decision after poll number `attempt` (from 1) of `max_attempts`.
pub fn launch_wait_step(attempt: u64, max_attempts: u64, found: bool) -> (r: WaitStep)
    ensures
        r == (if found {
            WaitStep::Found
        } else if attempt >= max_attempts {
            WaitStep::GiveUp
        } else {
            WaitStep::Retry
        }),
{
    if found {
        WaitStep::Found
    } else if attempt >= max_attempts {
        WaitStep::GiveUp
    } else {
        WaitStep::Retry
    }
}

impl AppConfig {
    /// The launch timeout in seconds.
    pub fn launch_timeout_secs(&self) -> (r: u64)
        ensures
            r as int == timeout_spec(self.launch_timeout),
    {
        match self.launch_timeout {
            Some(t) => t,
            None => DEFAULT_LAUNCH_TIMEOUT_SECS,
        }
    }

    /// How many times the client list is polled after a launch.
    pub fn launch_attempts(&self) -> (r: u64)
        ensures
            r as int == attempts_spec(self.launch_timeout),
    {
        let t = self.launch_timeout_secs();
        let twice: u64 = if t > u64::MAX / 2 { u64::MAX } else { t * 2 };
        if twice < MIN_LAUNCH_ATTEMPTS { MIN_LAUNCH_ATTEMPTS } else { twice }
    }

    /// Whether a freshly launched window goes straight to the hidden workspace.
    pub fn starts_hidden(&self) -> (r: bool)
        ensures
            r == (self.launch_in_background == Some(true)),
    {
        match self.launch_in_background {
            Some(b) => b,
            None => false,
        }
    }

    /// The desktop notification sent on launch: the notifying name and the
    /// icon (the configured icon, else the class); `None` when no notifying
    /// name is configured.
    pub fn notification(&self) -> (r: Option<(String, String)>)
        ensures
            r is Some <==> self.notify_name is Some,
            r matches Some(p) ==> p.0 == self.notify_name.unwrap() && p.1 == match self.icon {
                Some(i) => i,
                None => self.class,
            },
    {
        match &self.notify_name {
            None => None,
            Some(n) => {
                let icon = match &self.icon {
                    Some(i) => i.clone(),
                    None => self.class.clone(),
                };
                Some((n.clone(), icon))
            },
        }
    }

    /// The program to run and its arguments; an error when the command is empty.
    pub fn launch_command(&self) -> (r: Result<(String, Vec<String>), LaunchError>)
        ensures
            r is Err <==> self.command@.len() == 0,
            r matches Ok(p) ==> p.0 == self.command@[0] && p.1@ == self.command@.subrange(
                1,
                self.command@.len() as int,
            ),
    {
        let n = self.command.len();
        if n == 0 {
            return Err(LaunchError::NoCommand);
        }
        let mut args: Vec<String> = Vec::new();
        let mut i: usize = 1;
        while i < n
            invariant
                1 <= i <= n,
                n == self.command@.len(),
                args@ == self.command@.subrange(1, i as int),
            decreases n - i,
        {
            args.push(self.command[i].clone());
            assert(args@ =~= self.command@.subrange(1, i + 1));
            i = i + 1;
        }
        Ok((self.command[0].clone(), args))
    }

    /// The placement at startup of `window`: toggle one that was already
    /// open; hide one just launched in the background; keep one just launched
    /// in the foreground.
    pub fn initial_placement(&self, newly_launched: bool, window: &WindowInfo) -> (r: InitialPlacement)
        ensures
            !newly_launched ==> r is Toggle,
            newly_launched && self.launch_in_background != Some(true) ==> r is Keep,
            newly_launched && self.launch_in_background == Some(true) ==> (r matches InitialPlacement::Hide { commands }
                && texts(commands@) == seq![
                    focus_address_text(window.address@),
                    hide_text(self.class@, window.address@),
                ]),
    {
        if !newly_launched {
            InitialPlacement::Toggle
        } else if self.starts_hidden() {
            let mut v: Vec<String> = Vec::new();
            v.push(focus_address_command(window.address.as_str()));
            v.push(hide_command(self.class.as_str(), window.address.as_str()));
            assert(texts(v@) =~= seq![
                focus_address_text(window.address@),
                hide_text(self.class@, window.address@),
            ]);
            InitialPlacement::Hide { commands: v }
        } else {
            InitialPlacement::Keep
        }
    }
}

} // verus!
