//! The listener set: one independent acceptor per configured listen address.
//!
//! Each address is bound on its own; a bind failure stops only that address's
//! acceptor and never the others.  For every accepted connection the backend
//! is dialed: on a failed dial the inbound connection is dropped and the
//! acceptor goes on accepting, on a successful dial an independent relay is
//! started.  The surrounding program performs the binds, accepts and dials
//! and reports their outcomes here.

use vstd::prelude::*;

verus! {

/// The state of one address's acceptor.
#[derive(Clone, Copy, PartialEq, Eq, Structural)]
pub enum ListenerStatus {
    /// Configured; the bind has not been reported yet.
    AwaitingBind,
    /// Bound and accepting connections.
    Serving,
    /// The bind failed; only this address's acceptor stops.
    BindFailed,
    /// Cancelled at shutdown.
    Stopped,
}

/// One configured listen address and the state of its acceptor.
pub struct Listener {
    pub address: String,
    pub status: ListenerStatus,
    /// Connections accepted on this address so far.
    pub accepted: u64,
}

/// All configured listen addresses, each an independent failure domain.
pub struct ListenerSet {
    pub listeners: Vec<Listener>,
}

/// What the surrounding program does with one accepted connection.
#[derive(Clone, Copy, PartialEq, Eq, Structural)]
pub enum AcceptAction {
    /// The dial succeeded: hand the pair of sockets to an independent relay
    /// and go on accepting without waiting for it.
    StartRelay,
    /// The dial failed: drop the inbound connection, log it, go on accepting.
    DropInbound,
}

/// The state of listener `l` after its bind was reported with outcome `ok`.
pub open spec fn spec_bind_result(l: Listener, ok: bool) -> Listener {
    Listener { status: if ok { ListenerStatus::Serving } else { ListenerStatus::BindFailed }, ..l }
}

/// The state of listener `l` after it accepted one connection.
pub open spec fn spec_accepted(l: Listener) -> Listener {
    Listener { accepted: (l.accepted + 1) as u64, ..l }
}

/// The state of listener `l` after cancellation.
pub open spec fn spec_stopped(l: Listener) -> Listener {
    Listener { status: ListenerStatus::Stopped, ..l }
}

impl ListenerSet {
    /// Plans one acceptor per configured address, in order; none is bound
    /// yet.
    pub fn plan(addresses: &Vec<String>) -> (s: ListenerSet)
        ensures
            s.listeners@.len() == addresses@.len(),
            forall|i: int|
                0 <= i < addresses@.len() ==> (#[trigger] s.listeners@[i]).address@
                    == addresses@[i]@ && s.listeners@[i].status == ListenerStatus::AwaitingBind
                    && s.listeners@[i].accepted == 0,
    {
        let mut listeners: Vec<Listener> = Vec::new();
        let mut k: usize = 0;
        while k < addresses.len()
            invariant
                k <= addresses@.len(),
                listeners@.len() == k,
                forall|i: int|
                    0 <= i < k ==> (#[trigger] listeners@[i]).address@ == addresses@[i]@
                        && listeners@[i].status == ListenerStatus::AwaitingBind
                        && listeners@[i].accepted == 0,
            decreases addresses@.len() - k,
        {
            let address = addresses[k].clone();
            listeners.push(Listener { address, status: ListenerStatus::AwaitingBind, accepted: 0 });
            k = k + 1;
        }
        ListenerSet { listeners }
    }

    /// Records the outcome of binding address `i`.  Only entry `i` changes:
    /// it serves exactly when its own bind succeeded, whatever happened to
    /// any other address.
    pub fn on_bind_result(&mut self, i: usize, ok: bool)
        requires
            i < old(self).listeners@.len(),
            old(self).listeners@[i as int].status == ListenerStatus::AwaitingBind,
        ensures
            final(self).listeners@ == old(self).listeners@.update(
                i as int,
                spec_bind_result(old(self).listeners@[i as int], ok),
            ),
            final(self).listeners@[i as int].status == (if ok {
                ListenerStatus::Serving
            } else {
                ListenerStatus::BindFailed
            }),
            forall|j: int|
                0 <= j < old(self).listeners@.len() && j != i ==> final(self).listeners@[j]
                    == old(self).listeners@[j],
    {
        let status = if ok {
            ListenerStatus::Serving
        } else {
            ListenerStatus::BindFailed
        };
        self.listeners[i].status = status;
    }

    /// Decides what to do with one connection accepted on address `i`, given
    /// whether the dial to the backend succeeded.  Either way the acceptor
    /// keeps serving, and no other listener is touched.
    pub fn on_accept(&mut self, i: usize, dial_ok: bool) -> (a: AcceptAction)
        requires
            i < old(self).listeners@.len(),
            old(self).listeners@[i as int].status == ListenerStatus::Serving,
            old(self).listeners@[i as int].accepted < u64::MAX,
        ensures
            final(self).listeners@ == old(self).listeners@.update(
                i as int,
                spec_accepted(old(self).listeners@[i as int]),
            ),
            final(self).listeners@[i as int].status == ListenerStatus::Serving,
            final(self).listeners@[i as int].accepted == old(self).listeners@[i as int].accepted
                + 1,
            forall|j: int|
                0 <= j < old(self).listeners@.len() && j != i ==> final(self).listeners@[j]
                    == old(self).listeners@[j],
            a == (if dial_ok {
                AcceptAction::StartRelay
            } else {
                AcceptAction::DropInbound
            }),
    {
        self.listeners[i].accepted = self.listeners[i].accepted + 1;
        if dial_ok {
            AcceptAction::StartRelay
        } else {
            AcceptAction::DropInbound
        }
    }

    /// Cancels every acceptor: part of the ordered teardown.  Addresses and
    /// counts stay known.
    pub fn on_cancel(&mut self)
        ensures
            final(self).listeners@.len() == old(self).listeners@.len(),
            forall|j: int|
                0 <= j < old(self).listeners@.len() ==> final(self).listeners@[j]
                    == spec_stopped(#[trigger] old(self).listeners@[j]),
    {
        let n = self.listeners.len();
        let mut k: usize = 0;
        while k < n
            invariant
                k <= n,
                n == self.listeners@.len(),
                self.listeners@.len() == old(self).listeners@.len(),
                forall|j: int|
                    0 <= j < k ==> self.listeners@[j] == spec_stopped(
                        #[trigger] old(self).listeners@[j],
                    ),
                forall|j: int| k <= j < n ==> self.listeners@[j] == old(self).listeners@[j],
            decreases n - k,
        {
            self.listeners[k].status = ListenerStatus::Stopped;
            k = k + 1;
        }
    }

}

/// The listeners after the first `k` bind outcomes were recorded, one at a
/// time and in order.
pub open spec fn spec_bind_upto(ls: Seq<Listener>, results: Seq<bool>, k: int) -> Seq<Listener>
    decreases k,
{
    if k <= 0 {
        ls
    } else {
        spec_bind_upto(ls, results, k - 1).update(k - 1, spec_bind_result(ls[k - 1], results[k - 1]))
    }
}

/// Multi-listener independence: when every configured address's bind outcome
/// is recorded, each address serves exactly when its own bind succeeded —
/// however many other binds failed.  An address already in use stops only its
/// own acceptor; the remaining addresses all serve.
pub proof fn lemma_listener_independence(ls: Seq<Listener>, results: Seq<bool>)
    requires
        ls.len() == results.len(),
    ensures
        spec_bind_upto(ls, results, ls.len() as int).len() == ls.len(),
        forall|i: int|
            0 <= i < ls.len() ==> #[trigger] spec_bind_upto(ls, results, ls.len() as int)[i]
                == spec_bind_result(ls[i], results[i]),
        forall|i: int|
            0 <= i < ls.len() ==> (spec_bind_upto(ls, results, ls.len() as int)[i].status
                == ListenerStatus::Serving <==> results[i]),
{
    lemma_bind_upto(ls, results, ls.len() as int);
}

proof fn lemma_bind_upto(ls: Seq<Listener>, results: Seq<bool>, k: int)
    requires
        ls.len() == results.len(),
        0 <= k <= ls.len(),
    ensures
        spec_bind_upto(ls, results, k).len() == ls.len(),
        forall|i: int|
            0 <= i < k ==> #[trigger] spec_bind_upto(ls, results, k)[i] == spec_bind_result(
                ls[i],
                results[i],
            ),
        forall|i: int| k <= i < ls.len() ==> #[trigger] spec_bind_upto(ls, results, k)[i] == ls[i],
    decreases k,
{
    if k > 0 {
        lemma_bind_upto(ls, results, k - 1);
    }
}

} // verus!
