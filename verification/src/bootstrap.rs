//! The startup state machine of the backend: not started, then either
//! running the host event loop or stopped by a terminal startup
//! failure. The host runtime itself (windowing, plugins, dispatch) is
//! an outside collaborator: the caller performs those steps and this
//! machine records and decides, so that the outcome of startup carries
//! a contract.

use vstd::prelude::*;
use vstd::string::StringExecFns;

verus! {

/// Where the application stands in its life. `Failed` is terminal:
/// startup failure is unrecoverable at this layer, by design.
#[derive(Clone, Copy, PartialEq, Eq, Structural, Debug)]
pub enum Phase {
    NotStarted,
    Running,
    Failed,
}

/// The fixed diagnostic emitted when the host runtime fails to start.
pub open spec fn failure_message() -> Seq<char> {
    "error while running tauri application"@
}

/// The diagnostic string itself, for the caller that terminates the
/// process with it.
pub fn failure_message_text() -> (m: String)
    ensures
        m@ == failure_message(),
{
    String::from_str("error while running tauri application")
}

/// The backend's startup state: which wiring steps have been done and
/// where the application stands.
pub struct Bootstrap {
    pub phase: Phase,
    pub plugin_attached: bool,
    pub command_registered: bool,
}

impl Bootstrap {
    /// The command can be invoked from the front end only while the
    /// application runs with the handler registered.
    pub open spec fn command_reachable(self) -> bool {
        self.phase is Running && self.command_registered
    }

    /// A fresh backend: nothing attached, nothing registered, not
    /// started.
    pub fn new() -> (b: Bootstrap)
        ensures
            b.phase is NotStarted,
            !b.plugin_attached,
            !b.command_registered,
    {
        Bootstrap { phase: Phase::NotStarted, plugin_attached: false, command_registered: false }
    }

    /// Record that the logging plugin was attached to the application
    /// under construction. Attachment cannot fail; it is only possible
    /// before the event loop is entered.
    pub fn attach_plugin(&mut self)
        requires
            old(self).phase is NotStarted,
        ensures
            final(self).phase is NotStarted,
            final(self).plugin_attached,
            final(self).command_registered == old(self).command_registered,
    {
        self.plugin_attached = true;
    }

    /// Record that the greeting command was registered as the sole
    /// invocable operation. Registration cannot fail; it is only
    /// possible before the event loop is entered.
    pub fn register_command(&mut self)
        requires
            old(self).phase is NotStarted,
        ensures
            final(self).phase is NotStarted,
            final(self).command_registered,
            final(self).plugin_attached == old(self).plugin_attached,
    {
        self.command_registered = true;
    }

    /// Enter the host runtime's event loop, once plugin and command are
    /// wired. `started` reports whether the runtime came up. On success
    /// the application is running and the command reachable; on failure
    /// the state is terminal, no registered command remains reachable,
    /// and the fixed diagnostic is returned for the caller to terminate
    /// the process with.
    pub fn launch(&mut self, started: bool) -> (r: Result<(), String>)
        requires
            old(self).phase is NotStarted,
            old(self).plugin_attached,
            old(self).command_registered,
        ensures
            r is Ok <==> started,
            started ==> final(self).phase is Running,
            !started ==> final(self).phase is Failed,
            !started ==> (r matches Err(m) && m@ == failure_message()),
            final(self).command_reachable() == started,
            final(self).plugin_attached == old(self).plugin_attached,
            final(self).command_registered == old(self).command_registered,
    {
        if started {
            self.phase = Phase::Running;
            Ok(())
        } else {
            self.phase = Phase::Failed;
            Err(failure_message_text())
        }
    }
}

} // verus!
