//! Holding off idle sleep through the operating system: what to ask for,
//! how to read the reply, and what to hand back on release.

use vstd::prelude::*;

verus! {

/// Execution-state flag: the state set stays in effect until changed.
pub const ES_CONTINUOUS: u32 = 0x8000_0000;

/// Execution-state flag: the system is in use, do not sleep.
pub const ES_SYSTEM_REQUIRED: u32 = 0x0000_0001;

/// Execution-state flag: the display is in use, do not turn it off.
pub const ES_DISPLAY_REQUIRED: u32 = 0x0000_0002;

/// Assertion level meaning "on".
pub const ASSERTION_LEVEL_ON: u32 = 255;

/// Return code of a successful power-management call.
pub const IO_RETURN_SUCCESS: i32 = 0;

/// What identifies an inhibition that is in force.
#[derive(Debug, Clone, Copy, PartialEq, Eq, Structural)]
pub enum InhibitToken {
    /// The thread's execution state was set (nothing to remember).
    ExecutionState,
    /// A power-management assertion with this id was created.
    Assertion(u32),
    /// On the desktop bus: the screen saver service granted `cookie`
    /// (no idle screen lock), and the login manager handed out the file
    /// descriptor `sleep_lock` (no sleep while it stays open).
    Desktop { cookie: u32, sleep_lock: i32 },
}

/// Proof that idle sleep is being held off; releasing it ends the
/// inhibition.
#[derive(Debug, Clone, Copy, PartialEq, Eq, Structural)]
pub struct InhibitGuard {
    pub token: InhibitToken,
}

/// The call that ends an inhibition.
#[derive(Debug, Clone, Copy, PartialEq, Eq, Structural)]
pub enum Release {
    /// Set the thread's execution state to these flags.
    SetExecutionState(u32),
    /// Release the power-management assertion with this id.
    ReleaseAssertion(u32),
    /// Ask the screen saver service to lift the inhibition with this cookie.
    UnInhibit(u32),
    /// Close the login manager's inhibition file descriptor.
    CloseSleepLock(i32),
}

/// The release calls for a token, in order.
pub open spec fn releases_of(t: InhibitToken) -> Seq<Release> {
    match t {
        InhibitToken::ExecutionState => seq![Release::SetExecutionState(ES_CONTINUOUS)],
        InhibitToken::Assertion(id) => seq![Release::ReleaseAssertion(id)],
        InhibitToken::Desktop { cookie, sleep_lock } => seq![
            Release::UnInhibit(cookie),
            Release::CloseSleepLock(sleep_lock),
        ],
    }
}

/// What to undo of the desktop replies when not both inhibitions were
/// granted: whichever of the two was granted.
pub open spec fn partial_undo(cookie: Option<u32>, sleep_lock: Option<i32>) -> Seq<Release> {
    (match cookie {
        Some(c) => seq![Release::UnInhibit(c)],
        None => seq![],
    }) + (match sleep_lock {
        Some(f) => seq![Release::CloseSleepLock(f)],
        None => seq![],
    })
}

impl InhibitGuard {
    /// The execution-state flags that keep system and display awake:
    /// continuous, system required, display required.
    pub fn execution_state_request() -> (f: u32)
        ensures
            f == ES_CONTINUOUS | ES_SYSTEM_REQUIRED | ES_DISPLAY_REQUIRED,
            f == 0x8000_0003,
    {
        let f = ES_CONTINUOUS | ES_SYSTEM_REQUIRED | ES_DISPLAY_REQUIRED;
        assert(0x8000_0000u32 | 0x0000_0001u32 | 0x0000_0002u32 == 0x8000_0003u32) by (bit_vector);
        f
    }

    /// Reads the reply to setting the execution state: the previous state,
    /// zero when the call failed. Any other value means the inhibition is
    /// in force.
    pub fn from_execution_state(previous: u32) -> (g: Option<InhibitGuard>)
        ensures
            g is Some <==> previous != 0,
            g is Some ==> g->0.token == InhibitToken::ExecutionState,
    {
        if previous != 0 {
            Some(InhibitGuard { token: InhibitToken::ExecutionState })
        } else {
            None
        }
    }

    /// Reads the reply to creating a power-management assertion: the
    /// return code and the id written back. Success gives a guard on that
    /// assertion.
    pub fn from_assertion(ret: i32, assertion_id: u32) -> (g: Option<InhibitGuard>)
        ensures
            g is Some <==> ret == IO_RETURN_SUCCESS,
            g is Some ==> g->0.token == InhibitToken::Assertion(assertion_id),
    {
        if ret == IO_RETURN_SUCCESS {
            Some(InhibitGuard { token: InhibitToken::Assertion(assertion_id) })
        } else {
            None
        }
    }

    /// Reads the two desktop replies: the screen saver service's cookie and
    /// the login manager's inhibition file descriptor, each absent when
    /// its connection or call failed. A guard is given only when both were
    /// granted; otherwise the second component lists the calls that undo
    /// whichever one was granted.
    pub fn from_desktop_replies(cookie: Option<u32>, sleep_lock: Option<i32>) -> (r: (
        Option<InhibitGuard>,
        Vec<Release>,
    ))
        ensures
            r.0 is Some <==> cookie is Some && sleep_lock is Some,
            r.0 is Some ==> r.0->0.token == (InhibitToken::Desktop {
                cookie: cookie->0,
                sleep_lock: sleep_lock->0,
            }) && r.1@ == Seq::<Release>::empty(),
            r.0 is None ==> r.1@ == partial_undo(cookie, sleep_lock),
    {
        let mut undo: Vec<Release> = Vec::new();
        match (cookie, sleep_lock) {
            (Some(c), Some(f)) => {
                return (
                    Some(InhibitGuard { token: InhibitToken::Desktop { cookie: c, sleep_lock: f } }),
                    undo,
                );
            },
            _ => {},
        }
        if let Some(c) = cookie {
            undo.push(Release::UnInhibit(c));
        }
        if let Some(f) = sleep_lock {
            undo.push(Release::CloseSleepLock(f));
        }
        proof {
            assert(undo@ =~= partial_undo(cookie, sleep_lock));
        }
        (None, undo)
    }

    /// The calls that end this inhibition, in order: restoring the
    /// continuous default execution state, releasing the same assertion,
    /// or handing the same cookie back and closing the same sleep lock.
    pub fn releases(&self) -> (r: Vec<Release>)
        ensures
            r@ == releases_of(self.token),
    {
        let mut r: Vec<Release> = Vec::new();
        match self.token {
            InhibitToken::ExecutionState => r.push(Release::SetExecutionState(ES_CONTINUOUS)),
            InhibitToken::Assertion(id) => r.push(Release::ReleaseAssertion(id)),
            InhibitToken::Desktop { cookie, sleep_lock } => {
                r.push(Release::UnInhibit(cookie));
                r.push(Release::CloseSleepLock(sleep_lock));
            },
        }
        proof {
            assert(r@ =~= releases_of(self.token));
        }
        r
    }
}

} // verus!
