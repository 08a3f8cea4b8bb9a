//! Logical code-mode sessions that share one lazily started process host.
//!
//! A provider starts its process host on first use and hands it to every
//! session that it creates, as long as the host is alive. The host numbers
//! the sessions assigned to it, starting at 1. The remote transport is not
//! wired up yet: a host cannot fail, and the operations of a session answer
//! that they are not implemented.

use vstd::prelude::*;
use crate::text::{decimal_digits, decimal_string};

verus! {

/// The number that a process host gives one of its logical sessions.
#[derive(Clone, Copy, Debug, PartialEq, Eq, Structural)]
pub struct ProcessSessionId(pub u64);

/// The number after `n` in a 64-bit counter that wraps around.
pub open spec fn next_counter(n: u64) -> u64 {
    if n == u64::MAX { 0 } else { (n + 1) as u64 }
}

/// The text of the error that an operation that is not implemented yet
/// returns.
pub open spec fn unimplemented_text(operation: Seq<char>, session_id: u64) -> Seq<char> {
    "remote code-mode operation `"@ + operation + "` is not implemented for session "@
        + decimal_digits(session_id as nat)
}

/// The owner of the eventual child process. It holds the number that it
/// will give the next session assigned to it.
pub struct OwnedProcessHost {
    next_session_id: u64,
}

impl View for OwnedProcessHost {
    type V = u64;

    /// The number that the next session assigned to the host receives.
    closed spec fn view(&self) -> u64 {
        self.next_session_id
    }
}

impl OwnedProcessHost {
    /// A host that has assigned no session yet.
    pub fn new() -> (host: OwnedProcessHost)
        ensures
            host@ == 1,
    {
        OwnedProcessHost { next_session_id: 1 }
    }

    /// Whether the host can still serve sessions. Without a transport there
    /// is nothing that can fail, so a host stays alive.
    pub fn is_alive(&self) -> (alive: bool)
        ensures
            alive,
    {
        true
    }

    /// Gives the next session its number, and moves the counter on by one,
    /// wrapping around after `u64::MAX`.
    pub fn allocate_session_id(&mut self) -> (id: ProcessSessionId)
        ensures
            id.0 == old(self)@,
            final(self)@ == next_counter(old(self)@),
    {
        let id = self.next_session_id;
        self.next_session_id = self.next_session_id.wrapping_add(1);
        ProcessSessionId(id)
    }

    /// The error of an operation that the remote transport does not
    /// implement yet, for the given session.
    pub fn unimplemented_operation<T>(session_id: ProcessSessionId, operation: &str) -> (result:
        Result<T, String>)
        ensures
            result matches Err(text) && text@ == unimplemented_text(operation@, session_id.0),
    {
        let text = String::from_str("remote code-mode operation `");
        let text = text.concat(operation);
        let text = text.concat("` is not implemented for session ");
        let number = decimal_string(session_id.0);
        let text = text.concat(number.as_str());
        Err(text)
    }
}

/// A delegate that is told nothing: sessions made without one of their own
/// carry it.
#[derive(Clone, Copy, Debug, PartialEq, Eq, Structural)]
pub struct NoopCodeModeSessionDelegate;

/// A logical code-mode session assigned to a process-owned host. It keeps
/// the delegate it was created with.
pub struct ProcessOwnedCodeModeSession<D> {
    session_id: ProcessSessionId,
    alive: bool,
    delegate: D,
}

impl ProcessOwnedCodeModeSession<NoopCodeModeSessionDelegate> {
    /// A session with the no-op delegate on a process host of its own, which
    /// numbers it 1.
    pub fn new() -> (session: ProcessOwnedCodeModeSession<NoopCodeModeSessionDelegate>)
        ensures
            session.spec_session_id() == ProcessSessionId(1),
            session.spec_is_alive(),
            session.spec_delegate() == NoopCodeModeSessionDelegate,
    {
        let mut host = OwnedProcessHost::new();
        Self::with_process_host(NoopCodeModeSessionDelegate, &mut host)
    }
}

impl<D> ProcessOwnedCodeModeSession<D> {
    /// A session that keeps `delegate`, assigned to `process_host`, which
    /// gives it the next number.
    pub fn with_process_host(delegate: D, process_host: &mut OwnedProcessHost) -> (session:
        ProcessOwnedCodeModeSession<D>)
        ensures
            session.spec_session_id() == ProcessSessionId(old(process_host)@),
            final(process_host)@ == next_counter(old(process_host)@),
            session.spec_is_alive(),
            session.spec_delegate() == delegate,
    {
        let session_id = process_host.allocate_session_id();
        ProcessOwnedCodeModeSession { session_id, alive: true, delegate }
    }

    /// The delegate that the session keeps.
    pub closed spec fn spec_delegate(&self) -> D {
        self.delegate
    }

    /// The delegate that the session keeps.
    pub fn delegate(&self) -> (delegate: &D)
        ensures
            *delegate == self.spec_delegate(),
    {
        &self.delegate
    }

    /// The number of the session on its host.
    pub closed spec fn spec_session_id(&self) -> ProcessSessionId {
        self.session_id
    }

    /// Whether the session has not been shut down.
    pub closed spec fn spec_is_alive(&self) -> bool {
        self.alive
    }

    /// The number of the session on its host.
    pub fn session_id(&self) -> (id: ProcessSessionId)
        ensures
            id == self.spec_session_id(),
    {
        self.session_id
    }

    /// Whether the session has not been shut down.
    pub fn is_alive(&self) -> (alive: bool)
        ensures
            alive == self.spec_is_alive(),
    {
        self.alive
    }

    /// Starts a cell. Not implemented by the remote transport yet: always
    /// the error for the operation `execute`.
    pub fn execute<Request, Started>(&self, request: Request) -> (result: Result<Started, String>)
        ensures
            result matches Err(text) && text@ == unimplemented_text(
                "execute"@,
                self.spec_session_id().0,
            ),
    {
        OwnedProcessHost::unimplemented_operation(self.session_id, "execute")
    }

    /// Waits for a cell. Not implemented by the remote transport yet: always
    /// the error for the operation `wait`.
    pub fn wait<Request, Outcome>(&self, request: Request) -> (result: Result<Outcome, String>)
        ensures
            result matches Err(text) && text@ == unimplemented_text(
                "wait"@,
                self.spec_session_id().0,
            ),
    {
        OwnedProcessHost::unimplemented_operation(self.session_id, "wait")
    }

    /// Terminates a cell. Not implemented by the remote transport yet:
    /// always the error for the operation `terminate`.
    pub fn terminate<Cell, Outcome>(&self, cell_id: Cell) -> (result: Result<Outcome, String>)
        ensures
            result matches Err(text) && text@ == unimplemented_text(
                "terminate"@,
                self.spec_session_id().0,
            ),
    {
        OwnedProcessHost::unimplemented_operation(self.session_id, "terminate")
    }

    /// Closes this logical session only; the host and its other sessions go
    /// on.
    pub fn shutdown(&mut self) -> (result: Result<(), String>)
        ensures
            result is Ok,
            !final(self).spec_is_alive(),
            final(self).spec_session_id() == old(self).spec_session_id(),
            final(self).spec_delegate() == old(self).spec_delegate(),
    {
        self.alive = false;
        Ok(())
    }
}

impl Default for ProcessOwnedCodeModeSession<NoopCodeModeSessionDelegate> {
    fn default() -> (session: ProcessOwnedCodeModeSession<NoopCodeModeSessionDelegate>)
        ensures
            session.spec_session_id() == ProcessSessionId(1),
            session.spec_is_alive(),
            session.spec_delegate() == NoopCodeModeSessionDelegate,
    {
        Self::new()
    }
}

/// Creates code-mode sessions backed by one lazily started process host:
/// sessions created by one provider share its host, while each has its own
/// number.
pub struct ProcessOwnedCodeModeSessionProvider {
    process_host: Option<OwnedProcessHost>,
}

impl View for ProcessOwnedCodeModeSessionProvider {
    type V = Option<u64>;

    /// The provider's host, if started, seen as the number it gives next.
    closed spec fn view(&self) -> Option<u64> {
        match self.process_host {
            Some(h) => Some(h@),
            None => None,
        }
    }
}

impl ProcessOwnedCodeModeSessionProvider {
    /// A provider that has not started its host yet.
    pub fn new() -> (provider: ProcessOwnedCodeModeSessionProvider)
        ensures
            provider@ is None,
    {
        ProcessOwnedCodeModeSessionProvider { process_host: None }
    }

    /// The provider's host: the one it holds if that one is alive, else a
    /// newly started one, which it keeps from then on.
    pub fn process_host(&mut self) -> (host: &mut OwnedProcessHost)
        ensures
            old(self)@ matches Some(n) ==> host@ == n,
            old(self)@ is None ==> host@ == 1,
            final(self)@ == Some(final(host)@),
    {
        let reuse = match &self.process_host {
            Some(host) => host.is_alive(),
            None => false,
        };
        if reuse {
            self.process_host.as_mut().unwrap()
        } else {
            self.process_host.insert(OwnedProcessHost::new())
        }
    }

    /// A new logical session on the provider's host, which keeps `delegate`.
    pub fn create_session<D>(&mut self, delegate: D) -> (session: ProcessOwnedCodeModeSession<D>)
        ensures
            session.spec_delegate() == delegate,
            old(self)@ matches Some(n) ==> session.spec_session_id() == ProcessSessionId(n)
                && final(self)@ == Some(next_counter(n)),
            old(self)@ is None ==> session.spec_session_id() == ProcessSessionId(1)
                && final(self)@ == Some(2u64),
            session.spec_is_alive(),
    {
        let host = self.process_host();
        ProcessOwnedCodeModeSession::with_process_host(delegate, host)
    }
}

impl Default for ProcessOwnedCodeModeSessionProvider {
    fn default() -> (provider: ProcessOwnedCodeModeSessionProvider)
        ensures
            provider@ is None,
    {
        Self::new()
    }
}

} // verus!
