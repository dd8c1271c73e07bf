use vstd::prelude::*;

use crate::error::Error;
use crate::host_handler::{parse_endpoint, spec_endpoint_ok};
use crate::task::Ssh2AuthMode;

verus! {

/// Where an SSH session stands: a fresh session has no transport, a
/// connected one has a TCP stream and a finished handshake, an
/// authenticated one passed user authentication, and a disconnected one
/// was shut down by the application.
#[derive(Debug, Clone, Copy, PartialEq, Eq, Structural)]
pub enum Ssh2SessionState {
    Unauthenticated,
    Connected,
    Authenticated,
    Disconnected,
}

/// The next piece of outside work a connection attempt asks for. The
/// engine decides; the substrate that owns the socket performs it and
/// reports back through [`Ssh2SessionState::advance`].
#[derive(Debug, Clone, PartialEq, Eq)]
pub enum Ssh2Step {
    /// Open a TCP stream to this address and port, then run the SSH
    /// handshake.
    OpenAndHandshake { address: String, port: u16 },
    /// Run the user authentication the session's auth mode calls for.
    Authenticate,
    /// Nothing to do: the session is already authenticated, and a second
    /// connect is idempotent.
    AlreadyAuthenticated,
}

impl Ssh2SessionState {
    /// What connecting asks for next, from the session's state alone: an
    /// unset auth mode can never connect; an authenticated session is done
    /// (double-connect is idempotent); a session without a transport must
    /// open one, which needs a well-formed endpoint; a connected session
    /// must authenticate.
    pub fn connect_step(&self, endpoint: &str, auth: &Ssh2AuthMode) -> (r: Result<Ssh2Step, Error>)
        ensures
            auth matches Ssh2AuthMode::Unset ==> (r matches Err(e) && e matches
                Error::MissingInitialization(_)),
            !(auth matches Ssh2AuthMode::Unset) ==> match self {
                Ssh2SessionState::Authenticated => r == Ok::<Ssh2Step, Error>(
                    Ssh2Step::AlreadyAuthenticated,
                ),
                Ssh2SessionState::Connected => r == Ok::<Ssh2Step, Error>(Ssh2Step::Authenticate),
                _ => {
                    if spec_endpoint_ok(endpoint@) {
                        r matches Ok(step) && step matches Ssh2Step::OpenAndHandshake {
                            address,
                            port,
                        } && address@ == endpoint@.subrange(
                            0,
                            crate::util::spec_find_char(endpoint@, 0, ':'),
                        )
                    } else {
                        r matches Err(e) && e matches Error::FailedInitialization(_)
                    }
                },
            },
    {
        if matches!(auth, Ssh2AuthMode::Unset) {
            return Err(Error::MissingInitialization(String::from_str(
                "the authentication mode is unset",
            )));
        }
        match self {
            Ssh2SessionState::Authenticated => Ok(Ssh2Step::AlreadyAuthenticated),
            Ssh2SessionState::Connected => Ok(Ssh2Step::Authenticate),
            _ => {
                let (address, port) = parse_endpoint(endpoint)?;
                Ok(Ssh2Step::OpenAndHandshake { address, port })
            },
        }
    }

    /// The state after the substrate performed a step and reported whether
    /// it succeeded: a finished handshake yields a connected session, a
    /// passed authentication an authenticated one; failures leave the
    /// session where the step found it.
    pub open spec fn spec_advance(self, step: Ssh2Step, succeeded: bool) -> Ssh2SessionState {
        match step {
            Ssh2Step::OpenAndHandshake { .. } => if succeeded {
                Ssh2SessionState::Connected
            } else {
                self
            },
            Ssh2Step::Authenticate => if succeeded {
                Ssh2SessionState::Authenticated
            } else {
                self
            },
            Ssh2Step::AlreadyAuthenticated => self,
        }
    }

    /// See [`Self::spec_advance`], which this computes.
    pub fn advance(&self, step: &Ssh2Step, succeeded: bool) -> (r: Ssh2SessionState)
        ensures
            r == self.spec_advance(*step, succeeded),
    {
        match step {
            Ssh2Step::OpenAndHandshake { .. } => {
                if succeeded {
                    Ssh2SessionState::Connected
                } else {
                    *self
                }
            },
            Ssh2Step::Authenticate => {
                if succeeded {
                    Ssh2SessionState::Authenticated
                } else {
                    *self
                }
            },
            Ssh2Step::AlreadyAuthenticated => *self,
        }
    }

    /// The state after the application disconnects.
    pub fn after_disconnect(&self) -> (r: Ssh2SessionState)
        ensures
            r == Ssh2SessionState::Disconnected,
    {
        Ssh2SessionState::Disconnected
    }

    pub fn is_authenticated(&self) -> (r: bool)
        ensures
            r == (*self == Ssh2SessionState::Authenticated),
    {
        matches!(self, Ssh2SessionState::Authenticated)
    }
}

/// Connecting twice is idempotent: once a session is authenticated, every
/// further connect asks for nothing and moves nowhere, whatever the
/// endpoint says.
pub proof fn lemma_double_connect_is_idempotent(
    state: Ssh2SessionState,
    step: Ssh2Step,
    succeeded: bool,
)
    requires
        state == Ssh2SessionState::Authenticated,
        step == Ssh2Step::AlreadyAuthenticated,
    ensures
        state.spec_advance(step, succeeded) == Ssh2SessionState::Authenticated,
{
}

} // verus!
