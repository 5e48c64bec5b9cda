use vstd::prelude::*;

use crate::error::ErrorCode;
use crate::identity::Identity;
use crate::registry::{is_manager, Config};

verus! {

/// Most pending admin requests at any time.
pub const MAX_REQUESTS: usize = 100;

/// Longest metadata URI of a request, in characters.
pub const MAX_URI_LEN: usize = 128;

/// A wallet's pending application to become an admin.
#[derive(Debug)]
pub struct AdminRequest {
    pub wallet: Identity,
    pub uri: String,
}

/// The bounded queue of pending admin requests, in order of arrival.
#[derive(Debug)]
pub struct AdminRequestQueue {
    pub requests: Vec<AdminRequest>,
}

/// Whether some request in `s` was filed by `wallet`.
pub open spec fn has_request(s: Seq<AdminRequest>, wallet: Identity) -> bool {
    exists|i: int| 0 <= i < s.len() && #[trigger] s[i].wallet == wallet
}

impl AdminRequestQueue {
    /// At most `MAX_REQUESTS` entries, no wallet twice.
    pub open spec fn wf(&self) -> bool {
        &&& self.requests@.len() <= MAX_REQUESTS
        &&& forall|i: int, j: int|
            0 <= i < j < self.requests@.len() ==> #[trigger] self.requests@[i].wallet
                != #[trigger] self.requests@[j].wallet
    }

    /// Tests `wf`, for queues that come from outside verified code.
    pub fn is_wf(&self) -> (r: bool)
        ensures
            r == self.wf(),
    {
        if self.requests.len() > MAX_REQUESTS {
            return false;
        }
        let mut i: usize = 0;
        while i < self.requests.len()
            invariant
                i <= self.requests@.len(),
                forall|a: int, b: int|
                    0 <= a < b < self.requests@.len() && a < i ==> self.requests@[a].wallet
                        != self.requests@[b].wallet,
            decreases self.requests@.len() - i,
        {
            let mut j: usize = i + 1;
            while j < self.requests.len()
                invariant
                    i < self.requests@.len(),
                    i + 1 <= j <= self.requests@.len(),
                    forall|a: int, b: int|
                        0 <= a < b < self.requests@.len() && a < i ==> self.requests@[a].wallet
                            != self.requests@[b].wallet,
                    forall|b: int| i < b < j ==> self.requests@[i as int].wallet != self.requests@[b].wallet,
                decreases self.requests@.len() - j,
            {
                if self.requests[i].wallet == self.requests[j].wallet {
                    return false;
                }
                j = j + 1;
            }
            i = i + 1;
        }
        true
    }

    pub fn new() -> (r: AdminRequestQueue)
        ensures
            r.wf(),
            r.requests@.len() == 0,
    {
        AdminRequestQueue { requests: Vec::new() }
    }

    /// The position of `wallet`'s request, if it has one.
    pub fn find(&self, wallet: &Identity) -> (r: Option<usize>)
        ensures
            match r {
                Some(p) => p < self.requests@.len() && self.requests@[p as int].wallet == *wallet,
                None => !has_request(self.requests@, *wallet),
            },
    {
        let mut i: usize = 0;
        while i < self.requests.len()
            invariant
                i <= self.requests@.len(),
                forall|j: int| 0 <= j < i ==> self.requests@[j].wallet != *wallet,
            decreases self.requests@.len() - i,
        {
            if self.requests[i].wallet == *wallet {
                return Some(i);
            }
            i = i + 1;
        }
        None
    }

    /// Takes out `wallet`'s request, keeping the others in order; reports whether there was one.
    pub(crate) fn take(&mut self, wallet: &Identity) -> (found: bool)
        requires
            old(self).wf(),
        ensures
            final(self).wf(),
            found == has_request(old(self).requests@, *wallet),
            removes_request(old(self).requests@, final(self).requests@, *wallet),
            !found ==> *final(self) == *old(self),
    {
        match self.find(wallet) {
            Some(p) => {
                let ghost before = self.requests@;
                self.requests.remove(p);
                assert forall|i: int, j: int|
                    0 <= i < j < self.requests@.len() implies #[trigger] self.requests@[i].wallet
                    != #[trigger] self.requests@[j].wallet by {
                    let ii = if i < p { i } else { i + 1 };
                    let jj = if j < p { j } else { j + 1 };
                    assert(self.requests@[i] == before[ii]);
                    assert(self.requests@[j] == before[jj]);
                }
                true
            },
            None => false,
        }
    }
}

/// `after` is `before` without `wallet`'s request, the others kept in order.
pub open spec fn removes_request(
    before: Seq<AdminRequest>,
    after: Seq<AdminRequest>,
    wallet: Identity,
) -> bool {
    if has_request(before, wallet) {
        exists|p: int|
            0 <= p < before.len() && #[trigger] before[p].wallet == wallet && after == before.remove(
                p,
            )
    } else {
        after == before
    }
}

/// The error `request_admin` gives on these arguments, if any.
pub open spec fn request_admin_error(
    queue: Seq<AdminRequest>,
    caller: Identity,
    uri: Seq<char>,
) -> Option<ErrorCode> {
    if uri.len() > MAX_URI_LEN {
        Some(ErrorCode::LimitExceeded)
    } else if has_request(queue, caller) {
        Some(ErrorCode::AlreadyRequested)
    } else if queue.len() >= MAX_REQUESTS {
        Some(ErrorCode::ListIsFull)
    } else {
        None
    }
}

/// Files `caller`'s request to become an admin, with a metadata URI.
pub fn request_admin(queue: &mut AdminRequestQueue, caller: Identity, uri: String) -> (r: Result<
    (),
    ErrorCode,
>)
    requires
        old(queue).wf(),
    ensures
        final(queue).wf(),
        match request_admin_error(old(queue).requests@, caller, uri@) {
            Some(e) => r == Err::<(), ErrorCode>(e) && *final(queue) == *old(queue),
            None => r is Ok && final(queue).requests@ == old(queue).requests@.push(
                AdminRequest { wallet: caller, uri },
            ),
        },
{
    if uri.as_str().unicode_len() > MAX_URI_LEN {
        return Err(ErrorCode::LimitExceeded);
    }
    if queue.find(&caller).is_some() {
        return Err(ErrorCode::AlreadyRequested);
    }
    if queue.requests.len() >= MAX_REQUESTS {
        return Err(ErrorCode::ListIsFull);
    }
    let ghost before = queue.requests@;
    queue.requests.push(AdminRequest { wallet: caller, uri });
    assert forall|i: int, j: int|
        0 <= i < j < queue.requests@.len() implies #[trigger] queue.requests@[i].wallet
        != #[trigger] queue.requests@[j].wallet by {
        if j == before.len() {
            assert(before[i].wallet != caller);
        }
    }
    Ok(())
}

/// Declines `wallet`'s pending request.
pub fn reject_admin(
    config: &Config,
    queue: &mut AdminRequestQueue,
    caller: Identity,
    wallet: Identity,
) -> (r: Result<(), ErrorCode>)
    requires
        old(queue).wf(),
    ensures
        final(queue).wf(),
        config.manager != caller ==> r == Err::<(), ErrorCode>(ErrorCode::NotManager),
        config.manager == caller && !has_request(old(queue).requests@, wallet) ==> r == Err::<
            (),
            ErrorCode,
        >(ErrorCode::RequestNotFound),
        r is Ok <==> config.manager == caller && has_request(old(queue).requests@, wallet),
        r is Err ==> *final(queue) == *old(queue),
        r is Ok ==> removes_request(old(queue).requests@, final(queue).requests@, wallet),
{
    is_manager(config, &caller)?;
    if queue.take(&wallet) {
        Ok(())
    } else {
        Err(ErrorCode::RequestNotFound)
    }
}

} // verus!
