//! The state a connection keeps per request: the sync allocator and the
//! in-flight table that maps each live sync to the sink of its caller.
use vstd::prelude::*;
use std::collections::HashMap;
use crate::request::EncodedRequest;

verus! {

broadcast use vstd::std_specs::hash::group_hash_axioms;

/// The sync that follows `s`; the counter wraps at 2^32.
pub open spec fn next_sync_after(s: u32) -> u32 {
    if s == u32::MAX {
        0
    } else {
        (s + 1) as u32
    }
}

/// Syncs and their reply sinks for one connection.
///
/// `S` is the sending end of a caller's one-shot reply channel.
pub struct ConnectionData<S> {
    in_flights: HashMap<u32, S>,
    next_sync: u32,
    /// Every sync the allocator handed out since this table was created.
    issued: Ghost<Set<u32>>,
}

impl<S> ConnectionData<S> {
    /// The live entries.
    pub closed spec fn entries(&self) -> Map<u32, S> {
        self.in_flights@
    }

    /// The sync the allocator hands out next.
    pub closed spec fn spec_next_sync(&self) -> u32 {
        self.next_sync
    }

    /// The syncs handed out since the table was created.
    pub closed spec fn issued(&self) -> Set<u32> {
        self.issued@
    }

    /// Every live sync was handed out by the allocator.
    pub open spec fn wf(&self) -> bool {
        forall|k: u32| #[trigger] self.entries().contains_key(k) ==> self.issued().contains(k)
    }

    pub fn new() -> (r: Self)
        ensures
            r.wf(),
            r.entries() == Map::<u32, S>::empty(),
            r.issued() == Set::<u32>::empty(),
            r.spec_next_sync() == 0,
    {
        ConnectionData { in_flights: HashMap::new(), next_sync: 0, issued: Ghost(Set::empty()) }
    }

    /// Hands out the next sync.
    pub fn next_sync(&mut self) -> (r: u32)
        requires
            old(self).wf(),
        ensures
            final(self).wf(),
            r == old(self).spec_next_sync(),
            final(self).spec_next_sync() == next_sync_after(r),
            final(self).issued() == old(self).issued().insert(r),
            final(self).entries() == old(self).entries(),
    {
        let s = self.next_sync;
        self.next_sync = if s == u32::MAX { 0 } else { s + 1 };
        self.issued = Ghost(self.issued@.insert(s));
        assert forall|k: u32| #[trigger] self.entries().contains_key(k) implies self.issued().contains(k) by {
            assert(old(self).entries().contains_key(k));
        }
        s
    }

    /// Stamps the next sync into `request` and registers `tx` under it.
    ///
    /// When a live entry already holds that sync, the table keeps the old
    /// entry and hands `tx` back, so that its caller can be told of the
    /// duplicate.
    pub fn try_prepare_request(&mut self, request: &mut EncodedRequest, tx: S) -> (r: Result<(), S>)
        requires
            old(self).wf(),
        ensures
            final(self).wf(),
            final(request).sync == old(self).spec_next_sync(),
            final(request).request_type == old(request).request_type,
            final(request).schema_version == old(request).schema_version,
            final(request).stream_id == old(request).stream_id,
            final(request).encoded_body == old(request).encoded_body,
            final(self).spec_next_sync() == next_sync_after(old(self).spec_next_sync()),
            final(self).issued() == old(self).issued().insert(old(self).spec_next_sync()),
            old(self).entries().contains_key(old(self).spec_next_sync()) ==> r == Err::<(), S>(tx)
                && final(self).entries() == old(self).entries(),
            !old(self).entries().contains_key(old(self).spec_next_sync()) ==> r is Ok
                && final(self).entries() == old(self).entries().insert(
                old(self).spec_next_sync(),
                tx,
            ),
    {
        let sync = self.next_sync();
        request.sync = sync;
        if self.in_flights.contains_key(&sync) {
            Err(tx)
        } else {
            self.in_flights.insert(sync, tx);
            Ok(())
        }
    }

    /// Takes the sink registered under `sync`, if any.
    pub fn respond_to_client(&mut self, sync: u32) -> (r: Option<S>)
        requires
            old(self).wf(),
        ensures
            final(self).wf(),
            final(self).entries() == old(self).entries().remove(sync),
            final(self).spec_next_sync() == old(self).spec_next_sync(),
            final(self).issued() == old(self).issued(),
            match r {
                Some(tx) => old(self).entries().contains_key(sync) && tx == old(self).entries()[sync],
                None => !old(self).entries().contains_key(sync),
            },
    {
        let r = self.in_flights.remove(&sync);
        assert forall|k: u32| #[trigger] self.entries().contains_key(k) implies self.issued().contains(k) by {
            assert(old(self).entries().contains_key(k));
        }
        r
    }

    /// Takes every live entry, leaving the table empty.
    pub fn take_all(&mut self) -> (r: HashMap<u32, S>)
        requires
            old(self).wf(),
        ensures
            final(self).wf(),
            r@ == old(self).entries(),
            final(self).entries() == Map::<u32, S>::empty(),
            final(self).spec_next_sync() == old(self).spec_next_sync(),
            final(self).issued() == old(self).issued(),
    {
        let mut all: HashMap<u32, S> = HashMap::new();
        core::mem::swap(&mut all, &mut self.in_flights);
        all
    }

    /// The number of live entries.
    pub fn len(&self) -> (r: usize)
        ensures
            r == self.entries().len(),
    {
        self.in_flights.len()
    }
}

/// What the connection hands back when it fails: the requests to offer to
/// the next connection with their sinks, the sink of the request whose
/// write failed, and every other live sink.
pub struct FailureDrain<S> {
    pub resend: Vec<(S, EncodedRequest)>,
    pub write_failed: Option<S>,
    pub rest: HashMap<u32, S>,
}

/// The resend pairs and the table left after taking, from the last request
/// to the first, the sink of each request whose sync is live.
pub open spec fn resend_plan<S>(m: Map<u32, S>, reqs: Seq<EncodedRequest>) -> (
    Seq<(S, EncodedRequest)>,
    Map<u32, S>,
)
    decreases reqs.len(),
{
    if reqs.len() == 0 {
        (seq![], m)
    } else {
        let r = reqs.last();
        let (first, m1) = if m.contains_key(r.sync) {
            (seq![(m[r.sync], r)], m.remove(r.sync))
        } else {
            (seq![], m)
        };
        let (more, m2) = resend_plan(m1, reqs.drop_last());
        (first + more, m2)
    }
}

impl<S> ConnectionData<S> {
    /// Empties the table after a fatal I/O error. Requests that were never
    /// written go back with their sinks to be offered again; the request
    /// whose write failed and every other live request are failed by the
    /// caller.
    pub fn drain_after_failure(&mut self, write_failed: Option<u32>, not_sent: Vec<EncodedRequest>) -> (r: FailureDrain<S>)
        requires
            old(self).wf(),
        ensures
            final(self).wf(),
            final(self).entries() == Map::<u32, S>::empty(),
            r.resend@ == resend_plan(old(self).entries(), not_sent@).0,
            match write_failed {
                Some(w) => {
                    let left = resend_plan(old(self).entries(), not_sent@).1;
                    &&& (match r.write_failed {
                        Some(tx) => left.contains_key(w) && tx == left[w],
                        None => !left.contains_key(w),
                    })
                    &&& r.rest@ == left.remove(w)
                },
                None => r.write_failed is None && r.rest@ == resend_plan(
                    old(self).entries(),
                    not_sent@,
                ).1,
            },
    {
        let ghost m0 = self.entries();
        let mut not_sent = not_sent;
        let mut resend: Vec<(S, EncodedRequest)> = Vec::new();
        let ghost all = not_sent@;
        while not_sent.len() > 0
            invariant
                self.wf(),
                resend_plan(m0, all) == (
                    resend@ + resend_plan(self.entries(), not_sent@).0,
                    resend_plan(self.entries(), not_sent@).1,
                ),
            decreases not_sent@.len(),
        {
            let ghost before = self.entries();
            let ghost rest_reqs = not_sent@;
            let req = not_sent.pop().unwrap();
            assert(not_sent@ == rest_reqs.drop_last());
            assert(rest_reqs.last() == req);
            let ghost outs = resend@;
            let ghost step = resend_plan(before, rest_reqs);
            match self.respond_to_client(req.sync) {
                Some(tx) => {
                    resend.push((tx, req));
                    assert(resend@ =~= outs + seq![(before[req.sync], req)]);
                    assert(step.0 =~= seq![(before[req.sync], req)] + resend_plan(self.entries(), not_sent@).0);
                },
                None => {
                    assert(self.entries() =~= before);
                    assert(step.0 =~= seq![] + resend_plan(self.entries(), not_sent@).0);
                },
            }
            assert(resend_plan(m0, all).0 =~= resend@ + resend_plan(self.entries(), not_sent@).0);
        }
        assert(resend_plan(self.entries(), not_sent@).0 =~= seq![]);
        assert(resend@ =~= resend_plan(m0, all).0);
        let write_failed = match write_failed {
            Some(w) => self.respond_to_client(w),
            None => None,
        };
        let rest = self.take_all();
        FailureDrain { resend, write_failed, rest }
    }
}

/// What the connection does with a request taken from the queue.
pub enum Admission<S> {
    /// The caller already gave up: the request never reaches the wire and
    /// takes no sync.
    Cancelled,
    /// Stamped and registered: hand it to the writer.
    Write(EncodedRequest),
    /// Its sync is held by a live entry: tell the caller, whose sink is
    /// handed back, of the duplicate sync.
    Duplicate(S, u32),
}

impl<S> ConnectionData<S> {
    /// Takes `request` from a caller whose sink is `tx`; `cancelled` is
    /// whether that caller has already dropped its receiving end.
    pub fn accept_request(&mut self, request: EncodedRequest, tx: S, cancelled: bool) -> (r: Admission<S>)
        requires
            old(self).wf(),
        ensures
            final(self).wf(),
            cancelled ==> r is Cancelled && final(self).entries() == old(self).entries()
                && final(self).spec_next_sync() == old(self).spec_next_sync()
                && final(self).issued() == old(self).issued(),
            !cancelled ==> {
                let sync = old(self).spec_next_sync();
                &&& final(self).spec_next_sync() == next_sync_after(sync)
                &&& final(self).issued() == old(self).issued().insert(sync)
                &&& old(self).entries().contains_key(sync) ==> (r matches Admission::Duplicate(t, s)
                    && t == tx && s == sync && final(self).entries() == old(self).entries())
                &&& !old(self).entries().contains_key(sync) ==> (r matches Admission::Write(q)
                    && q.sync == sync && q.request_type == request.request_type
                    && q.schema_version == request.schema_version && q.stream_id == request.stream_id
                    && q.encoded_body == request.encoded_body
                    && final(self).entries() == old(self).entries().insert(sync, tx))
            },
    {
        if cancelled {
            return Admission::Cancelled;
        }
        let mut request = request;
        match self.try_prepare_request(&mut request, tx) {
            Ok(()) => Admission::Write(request),
            Err(tx) => Admission::Duplicate(tx, request.sync),
        }
    }
}

} // verus!
