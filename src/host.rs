//! The plugin context, buffers, and the status codes of the host.

use vstd::prelude::*;

verus! {

/// Status that tells the host a callback went well.
pub const WEECHAT_RC_OK: i32 = 0;

/// Status that tells the host a command was eaten: no other handler and
/// not the host itself acts on it.
pub const WEECHAT_RC_OK_EAT: i32 = 1;

/// Handle of the plugin context: the address of the host's plugin object
/// and the thread on which the host runs every callback.
#[derive(Clone, Copy, PartialEq, Eq, Structural)]
pub struct Weechat {
    pub ptr: usize,
    pub callback_thread: u64,
}

/// A buffer of the host, known by its address and by its plugin's.
#[derive(Clone, Copy, PartialEq, Eq, Structural)]
pub struct Buffer {
    pub ptr: usize,
    pub weechat_ptr: usize,
}

impl Weechat {
    /// A context for the plugin object at `ptr` whose callbacks run on the
    /// thread numbered `callback_thread`.
    pub fn from_ptr(ptr: usize, callback_thread: u64) -> (r: Weechat)
        ensures
            r == (Weechat { ptr, callback_thread }),
    {
        Weechat { ptr, callback_thread }
    }

    /// Whether the thread numbered `current` is the one the host runs
    /// callbacks on; only there may hooks be registered.
    pub fn is_callback_thread(&self, current: u64) -> (r: bool)
        ensures
            r == (current == self.callback_thread),
    {
        current == self.callback_thread
    }

    /// The buffer at address `ptr`, seen through this context.
    pub fn buffer_from_ptr(&self, ptr: usize) -> (r: Buffer)
        ensures
            r == (Buffer { ptr, weechat_ptr: self.ptr }),
    {
        Buffer { ptr, weechat_ptr: self.ptr }
    }
}

/// What an interceptor decides about a command.
#[derive(Clone, Copy, PartialEq, Eq, Structural, Debug)]
pub enum Disposition {
    /// Other handlers and the host's own dispatch go on.
    Continue,
    /// No further handling.
    Eat,
}

/// The status code that the host receives for a disposition.
pub open spec fn disposition_code(d: Disposition) -> i32 {
    match d {
        Disposition::Continue => WEECHAT_RC_OK,
        Disposition::Eat => WEECHAT_RC_OK_EAT,
    }
}

impl Disposition {
    /// The status code that tells the host this disposition.
    pub fn code(self) -> (r: i32)
        ensures
            r == disposition_code(self),
    {
        match self {
            Disposition::Continue => WEECHAT_RC_OK,
            Disposition::Eat => WEECHAT_RC_OK_EAT,
        }
    }
}

/// The host tells the two dispositions apart: `Eat` gives the "eaten"
/// status, `Continue` the default one, and the two codes differ.
pub proof fn lemma_disposition_codes(d: Disposition)
    ensures
        d == Disposition::Eat ==> disposition_code(d) == WEECHAT_RC_OK_EAT,
        d == Disposition::Continue ==> disposition_code(d) == WEECHAT_RC_OK,
        disposition_code(Disposition::Eat) != disposition_code(Disposition::Continue),
{
}

} // verus!
