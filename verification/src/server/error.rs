use vstd::prelude::*;

verus! {

/// Native error code: no error.
pub const CODE_OK: i32 = 0;

/// Native error code: connection refused.
pub const CODE_CONNECTION_REFUSED: i32 = 6;

/// Native error code: connection terminated.
pub const CODE_CONNECTION_TERMINATED: i32 = 11;

/// Native error code: invalid server.
pub const CODE_INVALID_SERVER: i32 = 13;

/// Native error code: the code was unknown to the client.
pub const CODE_UNKNOWN: i32 = 20;

/// Largest error code the native library defines.
pub const CODE_LAST: i32 = 26;

/// The sentinel the event loop returns when it was quit deliberately
/// rather than failing.
pub const ERR_MAINLOOP_QUIT: i32 = -2;

/// Failures of the sound-server session, by native error code where one
/// exists.
#[derive(Clone, Copy, Debug, PartialEq, Eq, Structural)]
pub enum PulseError {
    /// The handshake was refused or the server address was invalid; holds
    /// the native code.
    Connection(i32),
    /// A command or query was issued while the session was not ready.
    NotConnected,
    /// The transport dropped mid-session.
    Disconnected,
    /// The event loop was quit deliberately; never a user-visible error.
    MainloopQuit,
    /// A hardware sink carried no name; holds its index.
    NamelessSink(u32),
    /// A port of a hardware sink carried no name; holds the sink's index.
    NamelessPort(u32),
    /// Any other native error code.
    Other(i32),
}

/// Top-level failures the engine reports to its callers.
#[derive(Clone, Copy, Debug, PartialEq, Eq, Structural)]
pub enum Error {
    /// `connect` was called while a session was already live.
    AlreadyConnected,
    /// A failure of the native session.
    Pulse(PulseError),
}

/// The [`PulseError`] a raw native return code maps to.
pub open spec fn pulse_error_from_spec(e: i32) -> PulseError {
    if e == ERR_MAINLOOP_QUIT {
        PulseError::MainloopQuit
    } else {
        let code = if CODE_OK <= e <= CODE_LAST {
            e
        } else {
            CODE_UNKNOWN
        };
        if code == CODE_CONNECTION_TERMINATED {
            PulseError::Disconnected
        } else if code == CODE_CONNECTION_REFUSED || code == CODE_INVALID_SERVER {
            PulseError::Connection(code)
        } else {
            PulseError::Other(code)
        }
    }
}

impl PulseError {
    /// Classify a raw native return code: the quit sentinel, a terminated
    /// or refused connection, or any other code (out-of-range codes fold
    /// into the unknown one).
    pub fn from_code(e: i32) -> (r: PulseError)
        ensures
            r == pulse_error_from_spec(e),
    {
        if e == ERR_MAINLOOP_QUIT {
            return PulseError::MainloopQuit;
        }
        let code: i32 = if CODE_OK <= e && e <= CODE_LAST {
            e
        } else {
            CODE_UNKNOWN
        };
        if code == CODE_CONNECTION_TERMINATED {
            PulseError::Disconnected
        } else if code == CODE_CONNECTION_REFUSED || code == CODE_INVALID_SERVER {
            PulseError::Connection(code)
        } else {
            PulseError::Other(code)
        }
    }
}

impl From<PulseError> for Error {
    /// Wrap a session failure as a top-level error.
    fn from(e: PulseError) -> (r: Error) {
        Error::Pulse(e)
    }
}

impl vstd::std_specs::convert::FromSpecImpl<PulseError> for Error {
    open spec fn obeys_from_spec() -> bool {
        true
    }

    open spec fn from_spec(e: PulseError) -> Error {
        Error::Pulse(e)
    }
}

} // verus!
