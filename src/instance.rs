//! The supervisor's lifecycle decisions: which operations are allowed in
//! which state, and which state change each one records.

use vstd::prelude::*;

use crate::error::{ServerError, SubscribeError};
use crate::log::InternalEvent;
use crate::stream::{EventPayload, StreamSource};
use crate::version::{MinecraftType, MinecraftVersion};

verus! {

/// Where the server process stands in its lifecycle.
#[derive(Debug, Clone, Copy, PartialEq, Eq, Structural)]
pub enum InstanceStatus {
    Starting,
    Running,
    Stopping,
    Stopped,
    Crashed,
    Killing,
    Killed,
}

/// The name of a status, as it is shown.
pub open spec fn status_name(s: InstanceStatus) -> Seq<char> {
    match s {
        InstanceStatus::Starting => "Starting"@,
        InstanceStatus::Running => "Running"@,
        InstanceStatus::Stopping => "Stopping"@,
        InstanceStatus::Stopped => "Stopped"@,
        InstanceStatus::Crashed => "Crashed"@,
        InstanceStatus::Killing => "Killing"@,
        InstanceStatus::Killed => "Killed"@,
    }
}

impl InstanceStatus {
    /// The name of this status.
    pub fn name(&self) -> (r: String)
        ensures
            r@ == status_name(*self),
    {
        match self {
            InstanceStatus::Starting => String::from_str("Starting"),
            InstanceStatus::Running => String::from_str("Running"),
            InstanceStatus::Stopping => String::from_str("Stopping"),
            InstanceStatus::Stopped => String::from_str("Stopped"),
            InstanceStatus::Crashed => String::from_str("Crashed"),
            InstanceStatus::Killing => String::from_str("Killing"),
            InstanceStatus::Killed => String::from_str("Killed"),
        }
    }
}

/// What an instance is made of, fixed when it is set up.
#[derive(Debug, Clone, PartialEq, Eq)]
pub struct InstanceData {
    pub root_dir: String,
    pub jar_path: String,
    pub mc_version: MinecraftVersion,
    pub mc_type: MinecraftType,
}

/// The record of one change of status.
pub open spec fn change(old: InstanceStatus, new: InstanceStatus) -> EventPayload {
    EventPayload::StateChange { old, new }
}

/// The supervisor's view of its process: the status, whether it owns a
/// child process, and whether the error stream has a channel yet.
#[derive(Debug, Clone, Copy, PartialEq, Eq, Structural)]
pub struct Lifecycle {
    status: InstanceStatus,
    child: bool,
    stderr_open: bool,
}

impl Lifecycle {
    /// A process owned means its error stream has a channel.
    pub open spec fn wf(&self) -> bool {
        self.spec_child() ==> self.spec_stderr_open()
    }

    /// The current status.
    pub closed spec fn spec_status(&self) -> InstanceStatus {
        self.status
    }

    /// Whether a child process is owned.
    pub closed spec fn spec_child(&self) -> bool {
        self.child
    }

    /// Whether the error stream has a channel.
    pub closed spec fn spec_stderr_open(&self) -> bool {
        self.stderr_open
    }

    /// A fresh supervisor: stopped, with no process and no error channel.
    pub fn new() -> (r: Lifecycle)
        ensures
            r.wf(),
            r.spec_status() == InstanceStatus::Stopped,
            !r.spec_child(),
            !r.spec_stderr_open(),
    {
        Lifecycle { status: InstanceStatus::Stopped, child: false, stderr_open: false }
    }

    /// The current status.
    pub fn status(&self) -> (r: InstanceStatus)
        ensures
            r == self.spec_status(),
    {
        self.status
    }

    /// Whether a child process is owned.
    pub fn has_child(&self) -> (r: bool)
        ensures
            r == self.spec_child(),
    {
        self.child
    }

    /// Sets the status and returns the record of the change.
    fn transition_status(&mut self, new: InstanceStatus) -> (r: EventPayload)
        ensures
            final(self).spec_status() == new,
            final(self).spec_child() == old(self).spec_child(),
            final(self).spec_stderr_open() == old(self).spec_stderr_open(),
            r == change(old(self).spec_status(), new),
    {
        let old_status = self.status;
        self.status = new;
        EventPayload::StateChange { old: old_status, new }
    }

    /// Whether a start may proceed: refused while a process is owned,
    /// otherwise the status becomes `Starting`.
    pub fn validate_start(&mut self) -> (r: Result<EventPayload, ServerError>)
        requires
            old(self).wf(),
        ensures
            final(self).wf(),
            old(self).spec_child() ==> r == Err::<EventPayload, ServerError>(ServerError::AlreadyRunning)
                && *final(self) == *old(self),
            !old(self).spec_child() ==> r == Ok::<EventPayload, ServerError>(change(old(self).spec_status(), InstanceStatus::Starting))
                && final(self).spec_status() == InstanceStatus::Starting
                && !final(self).spec_child()
                && final(self).spec_stderr_open() == old(self).spec_stderr_open(),
    {
        if self.child {
            return Err(ServerError::AlreadyRunning);
        }
        Ok(self.transition_status(InstanceStatus::Starting))
    }

    /// Records that a process was spawned with all three pipes, and that
    /// its error stream now has a channel.
    pub fn attach_child(&mut self)
        requires
            !old(self).spec_child(),
        ensures
            final(self).wf(),
            final(self).spec_child(),
            final(self).spec_stderr_open(),
            final(self).spec_status() == old(self).spec_status(),
    {
        self.child = true;
        self.stderr_open = true;
    }

    /// Takes a signal read from the server's output: readiness while
    /// starting makes the server `Running`; anything else changes nothing.
    pub fn on_signal(&mut self, event: InternalEvent) -> (r: Option<EventPayload>)
        requires
            old(self).wf(),
        ensures
            final(self).wf(),
            final(self).spec_child() == old(self).spec_child(),
            final(self).spec_stderr_open() == old(self).spec_stderr_open(),
            old(self).spec_status() == InstanceStatus::Starting && event == InternalEvent::ServerStarted
                ==> r == Some(change(InstanceStatus::Starting, InstanceStatus::Running))
                && final(self).spec_status() == InstanceStatus::Running,
            !(old(self).spec_status() == InstanceStatus::Starting && event == InternalEvent::ServerStarted)
                ==> r is None && *final(self) == *old(self),
    {
        match (self.status, event) {
            (InstanceStatus::Starting, InternalEvent::ServerStarted) => Some(
                self.transition_status(InstanceStatus::Running),
            ),
            _ => None,
        }
    }

    /// Takes the end of one of the process's output streams: while the
    /// process was starting or running this is a crash.
    pub fn on_stream_closed(&mut self) -> (r: Option<EventPayload>)
        requires
            old(self).wf(),
        ensures
            final(self).wf(),
            final(self).spec_child() == old(self).spec_child(),
            final(self).spec_stderr_open() == old(self).spec_stderr_open(),
            (old(self).spec_status() == InstanceStatus::Starting || old(self).spec_status() == InstanceStatus::Running)
                ==> r == Some(change(old(self).spec_status(), InstanceStatus::Crashed))
                && final(self).spec_status() == InstanceStatus::Crashed,
            !(old(self).spec_status() == InstanceStatus::Starting || old(self).spec_status() == InstanceStatus::Running)
                ==> r is None && *final(self) == *old(self),
    {
        if self.status == InstanceStatus::Starting || self.status == InstanceStatus::Running {
            Some(self.transition_status(InstanceStatus::Crashed))
        } else {
            None
        }
    }

    /// Begins a graceful stop: refused without a process, otherwise the
    /// status becomes `Stopping`.
    pub fn begin_stop(&mut self) -> (r: Result<EventPayload, ServerError>)
        requires
            old(self).wf(),
        ensures
            final(self).wf(),
            !old(self).spec_child() ==> r == Err::<EventPayload, ServerError>(ServerError::NotRunning)
                && *final(self) == *old(self),
            old(self).spec_child() ==> r == Ok::<EventPayload, ServerError>(change(old(self).spec_status(), InstanceStatus::Stopping))
                && final(self).spec_status() == InstanceStatus::Stopping
                && final(self).spec_child()
                && final(self).spec_stderr_open() == old(self).spec_stderr_open(),
    {
        if !self.child {
            return Err(ServerError::NotRunning);
        }
        Ok(self.transition_status(InstanceStatus::Stopping))
    }

    /// Begins a forced stop: refused without a process, otherwise the
    /// status becomes `Killing`.
    pub fn begin_kill(&mut self) -> (r: Result<EventPayload, ServerError>)
        requires
            old(self).wf(),
        ensures
            final(self).wf(),
            !old(self).spec_child() ==> r == Err::<EventPayload, ServerError>(ServerError::NotRunning)
                && *final(self) == *old(self),
            old(self).spec_child() ==> r == Ok::<EventPayload, ServerError>(change(old(self).spec_status(), InstanceStatus::Killing))
                && final(self).spec_status() == InstanceStatus::Killing
                && final(self).spec_child()
                && final(self).spec_stderr_open() == old(self).spec_stderr_open(),
    {
        if !self.child {
            return Err(ServerError::NotRunning);
        }
        Ok(self.transition_status(InstanceStatus::Killing))
    }

    /// Ends a stop or a kill once the process has exited: the status
    /// becomes `Stopped` or `Killed`, and the process is released.
    pub fn finish(&mut self) -> (r: Option<EventPayload>)
        requires
            old(self).wf(),
        ensures
            final(self).wf(),
            final(self).spec_stderr_open() == old(self).spec_stderr_open(),
            old(self).spec_child() && old(self).spec_status() == InstanceStatus::Stopping
                ==> r == Some(change(InstanceStatus::Stopping, InstanceStatus::Stopped))
                && final(self).spec_status() == InstanceStatus::Stopped && !final(self).spec_child(),
            old(self).spec_child() && old(self).spec_status() == InstanceStatus::Killing
                ==> r == Some(change(InstanceStatus::Killing, InstanceStatus::Killed))
                && final(self).spec_status() == InstanceStatus::Killed && !final(self).spec_child(),
            !(old(self).spec_child() && (old(self).spec_status() == InstanceStatus::Stopping
                || old(self).spec_status() == InstanceStatus::Killing)) ==> r is None && *final(self) == *old(self),
    {
        if !self.child {
            return None;
        }
        let target = match self.status {
            InstanceStatus::Stopping => InstanceStatus::Stopped,
            InstanceStatus::Killing => InstanceStatus::Killed,
            _ => return None,
        };
        let r = self.transition_status(target);
        self.child = false;
        Some(r)
    }

    /// Whether a stream can be subscribed to: the error stream only once a
    /// process has given it a channel.
    pub fn subscribe(&self, stream: StreamSource) -> (r: Result<StreamSource, SubscribeError>)
        ensures
            stream == StreamSource::Stderr && !self.spec_stderr_open()
                ==> r == Err::<StreamSource, SubscribeError>(SubscribeError::NoStderr),
            !(stream == StreamSource::Stderr && !self.spec_stderr_open())
                ==> r == Ok::<StreamSource, SubscribeError>(stream),
    {
        match stream {
            StreamSource::Stderr => if self.stderr_open {
                Ok(stream)
            } else {
                Err(SubscribeError::NoStderr)
            },
            _ => Ok(stream),
        }
    }
}

/// Ends a command with a newline where it has none, as the server reads
/// one command per line.
pub open spec fn command_line(cmd: Seq<char>) -> Seq<char> {
    if cmd.len() > 0 && cmd.last() == '\n' {
        cmd
    } else {
        cmd.push('\n')
    }
}

/// The line written to the server's input for the command `cmd`.
pub fn command_text(cmd: &str) -> (r: String)
    ensures
        r@ == command_line(cmd@),
{
    let n = cmd.unicode_len();
    let mut r = String::from_str(cmd);
    if n > 0 && cmd.get_char(n - 1) == '\n' {
        r
    } else {
        crate::text::push_char(&mut r, '\n');
        r
    }
}

} // verus!
