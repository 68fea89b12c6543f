//! The store as the connection handlers share it: one dictionary behind a
//! reader-writer lock. A write holds exclusive access, reads share access
//! with one another, and every state the lock ever holds is a well-formed
//! dictionary — no handler can observe a half-written entry.

use vstd::prelude::*;
use vstd::rwlock::RwLock;
use vstd::rwlock::RwLockPredicate;

use crate::http::Command;
use crate::http::Outcome;
use crate::http::Response;
use crate::http::Status;
use crate::http::get_prefix;
use crate::http::get_response;
use crate::http::interpret_request;
use crate::http::outcome_of;
use crate::http::put_ok_msg;
use crate::http::put_ok_response;
use crate::render::render_model;
use crate::store::Store;
use crate::store::Value;
use crate::store::ValueModel;
use crate::store::lookup;

verus! {

/// The invariant the lock maintains: whatever dictionary it holds is well
/// formed.
pub struct WellFormed {}

impl RwLockPredicate<Store> for WellFormed {
    open spec fn inv(self, v: Store) -> bool {
        v.wf()
    }
}

/// A handle to the one dictionary every concurrent handler works on.
pub struct SharedStore {
    lock: RwLock<Store, WellFormed>,
}

impl SharedStore {
    /// The lock was set up with the well-formedness invariant.
    pub closed spec fn wf(&self) -> bool {
        self.lock.pred() == (WellFormed {  })
    }

    /// A fresh shared store. The ghost half witnesses the dictionary the
    /// lock was seeded with: the empty map.
    pub fn new() -> (r: (SharedStore, Ghost<Map<Seq<char>, ValueModel>>))
        ensures
            r.0.wf(),
            r.1@ == Map::<Seq<char>, ValueModel>::empty(),
    {
        let s = Store::new();
        let ghost initial = s@;
        (SharedStore { lock: RwLock::new(s, Ghost(WellFormed {  })) }, Ghost(initial))
    }

    /// Insert or overwrite under exclusive access: no read or write runs
    /// while the entry is being replaced. The ghost pair witnesses the one
    /// transition the lock admitted — the dictionary before and after the
    /// write, the latter exactly the wholesale insert into the former.
    pub fn put(&self, key: String, value: Value) -> (w: Ghost<
        (Map<Seq<char>, ValueModel>, Map<Seq<char>, ValueModel>),
    >)
        requires
            self.wf(),
        ensures
            w@.1 == w@.0.insert(key@, value@),
    {
        let (mut s, handle) = self.lock.acquire_write();
        let ghost before = s@;
        s.put(key, value);
        let ghost after = s@;
        handle.release_write(s);
        Ghost((before, after))
    }

    /// Read under shared access. The result is a copy of what one complete,
    /// well-formed state of the dictionary held at `key` — the state is
    /// returned as the ghost half of the pair, and the value is exactly its
    /// lookup, so no partial write can be observed.
    pub fn get(&self, key: &String) -> (r: (Value, Ghost<Map<Seq<char>, ValueModel>>))
        requires
            self.wf(),
        ensures
            r.0@ == lookup(r.1@, key@),
    {
        let handle = self.lock.acquire_read();
        let stored = handle.borrow();
        let v = stored.get(key);
        let ghost m = stored@;
        handle.release_read();
        (v, Ghost(m))
    }
}

/// Handle one request against the shared store, taking the lock only for the
/// store operation itself: exclusive for a PUT, shared for a GET, none for a
/// request that is refused or dropped.
pub fn handle_request_shared(req: &str, shared: &SharedStore) -> (r: Option<Response>)
    requires
        shared.wf(),
    ensures
        ({
            match outcome_of(req@) {
                Outcome::Stored { key, value } => r matches Some(resp) && resp@.status
                    == Status::Success && resp@.body == put_ok_msg(),
                Outcome::Queried { key } => r matches Some(resp) && resp@.status == Status::Success
                    && (exists|m: Map<Seq<char>, ValueModel>|
                    resp@.body == get_prefix() + render_model(lookup(m, key))),
                Outcome::Refused { body } => r matches Some(resp) && resp@.status
                    == Status::BadRequest && resp@.body == body,
                Outcome::Aborted => r is None,
            }
        }),
{
    match interpret_request(req) {
        Command::DoPut { key, value } => {
            let _ = shared.put(key, value);
            Some(put_ok_response())
        },
        Command::DoGet { key } => {
            let (v, observed) = shared.get(&key);
            let resp = get_response(&v);
            proof {
                assert(resp@.body == get_prefix() + render_model(lookup(observed@, key@)));
            }
            Some(resp)
        },
        Command::Respond { resp } => Some(resp),
        Command::Abort => None,
    }
}

} // verus!
