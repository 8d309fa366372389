//! A cancellation request that several threads share.

use vstd::prelude::*;

use std::sync::atomic::{AtomicBool, Ordering};
use std::sync::Arc;

verus! {

/// A shared request to stop a long operation.
///
/// Every clone of a token refers to the same flag, so any thread may set it at any moment. What the
/// flag holds is therefore not a function of the token. The contracts name the operation on the
/// shared flag that a call makes, and tie what was read to a load that can return it; they say
/// nothing of the moment of an operation, nor that no other operation is made.
#[derive(Debug)]
pub struct CancellationToken {
    cancelled: Arc<AtomicBool>,
}

impl CancellationToken {
    /// The flag that all clones of this token share.
    pub closed spec fn flag(&self) -> Arc<AtomicBool> {
        self.cancelled
    }

    /// This flag can be what making one with the initial value `value` gives.
    pub closed spec fn may_start_with(&self, value: bool) -> bool {
        call_ensures(AtomicBool::new, (value,), *self.cancelled)
    }

    /// A store of `value` to the shared flag can be made and return. A caller learns this from the
    /// function that makes one.
    pub closed spec fn may_store(&self, value: bool) -> bool {
        call_ensures(AtomicBool::store, (&*self.cancelled, value, Ordering::Release), ())
    }

    /// A load of the shared flag can return `value`. A caller learns this from the function that
    /// makes one and gets this value.
    pub closed spec fn may_load(&self, value: bool) -> bool {
        call_ensures(AtomicBool::load, (&*self.cancelled, Ordering::Acquire), value)
    }

    /// A token that nobody has cancelled yet.
    pub fn new() -> (token: CancellationToken)
        ensures
            token.may_start_with(false),
    {
        let flag = AtomicBool::new(false);
        CancellationToken { cancelled: Arc::new(flag) }
    }

    /// Requests cancellation, for every clone of the token.
    pub fn cancel(&self)
        ensures
            self.may_store(true),
    {
        self.cancelled.store(true, Ordering::Release)
    }

    /// Whether cancellation has been requested.
    pub fn is_cancelled(&self) -> (cancelled: bool)
        ensures
            self.may_load(cancelled),
    {
        self.cancelled.load(Ordering::Acquire)
    }

    /// Withdraws the request, for every clone of the token.
    pub fn reset(&self)
        ensures
            self.may_store(false),
    {
        self.cancelled.store(false, Ordering::Release)
    }
}

impl Clone for CancellationToken {
    /// A token that shares the flag of this one.
    fn clone(&self) -> (token: CancellationToken)
        ensures
            token.flag() == self.flag(),
    {
        CancellationToken { cancelled: Arc::clone(&self.cancelled) }
    }
}

impl Default for CancellationToken {
    fn default() -> (token: CancellationToken)
        ensures
            token.may_start_with(false),
    {
        CancellationToken::new()
    }
}

/// Tokens that share their flag share their request: what can be stored or loaded through one can be
/// stored or loaded through the other. A clone shares the flag of its token.
pub proof fn law_clones_share_their_request(a: CancellationToken, b: CancellationToken, value: bool)
    requires
        a.flag() == b.flag(),
    ensures
        a.may_store(value) == b.may_store(value),
        a.may_load(value) == b.may_load(value),
        a.may_start_with(value) == b.may_start_with(value),
{
}

/// A token starts without a request. A cancellation stores a request to its flag and a reset stores
/// that there is none; a token that is asked loads its flag and says what it found.
pub proof fn law_tokens_store_and_load_requests(
    fresh: CancellationToken,
    default: CancellationToken,
    token: CancellationToken,
    cancelled: bool,
    clone: CancellationToken,
)
    requires
        call_ensures(CancellationToken::new, (), fresh),
        call_ensures(CancellationToken::default, (), default),
        call_ensures(CancellationToken::cancel, (&token,), ()),
        call_ensures(CancellationToken::reset, (&token,), ()),
        call_ensures(CancellationToken::is_cancelled, (&token,), cancelled),
        call_ensures(CancellationToken::clone, (&token,), clone),
    ensures
        call_ensures(AtomicBool::new, (false,), *fresh.flag()),
        call_ensures(AtomicBool::new, (false,), *default.flag()),
        call_ensures(AtomicBool::store, (&*token.flag(), true, Ordering::Release), ()),
        call_ensures(AtomicBool::store, (&*token.flag(), false, Ordering::Release), ()),
        call_ensures(AtomicBool::load, (&*token.flag(), Ordering::Acquire), cancelled),
        clone.flag() == token.flag(),
{
}

} // verus!
