//! A generator shared between threads: the state sits behind a lock, so each call
//! issues its id in one exclusive step.
use std::sync::Arc;
use vstd::prelude::*;
use vstd::rwlock::{RwLock, RwLockPredicate};

use crate::error::SnowError;
use crate::layout::{
    data_center_id_of, encodable, sequence_of, timestamp_of, worker_id_of, SEQUENCE_MASK,
};
use crate::state::{identity_error, lemma_issued_id_decodes, SnowflakeIdWorkerInner};

verus! {

/// What the lock of a generator may hold: a well-formed state of one fixed identity.
pub struct IdentityPredicate {
    pub worker_id: int,
    pub data_center_id: int,
}

impl RwLockPredicate<SnowflakeIdWorkerInner> for IdentityPredicate {
    open spec fn inv(self, v: SnowflakeIdWorkerInner) -> bool {
        &&& v@.wf()
        &&& v@.worker_id == self.worker_id
        &&& v@.data_center_id == self.data_center_id
    }
}

/// An id generator for one (worker, data center) identity. Clones share one state.
#[derive(Clone)]
pub struct SnowflakeIdWorker {
    state: Arc<RwLock<SnowflakeIdWorkerInner, IdentityPredicate>>,
}

impl SnowflakeIdWorker {
    /// The worker id stamped on every id.
    pub closed spec fn worker_id(&self) -> int {
        self.state.pred().worker_id
    }

    /// The data center id stamped on every id.
    pub closed spec fn data_center_id(&self) -> int {
        self.state.pred().data_center_id
    }

    /// A generator for the given identity, or the error naming the first id out of range.
    pub fn new(worker_id: u128, data_center_id: u128) -> (r: Result<SnowflakeIdWorker, SnowError>)
        ensures
            identity_error(worker_id, data_center_id) matches Some(e) ==> r == Err::<
                SnowflakeIdWorker,
                SnowError,
            >(e),
            identity_error(worker_id, data_center_id) is None ==> (r matches Ok(g)
                && g.worker_id() == worker_id && g.data_center_id() == data_center_id),
    {
        let inner = SnowflakeIdWorkerInner::new(worker_id, data_center_id)?;
        let lock = RwLock::new(
            inner,
            Ghost(
                IdentityPredicate {
                    worker_id: worker_id as int,
                    data_center_id: data_center_id as int,
                },
            ),
        );
        Ok(SnowflakeIdWorker { state: Arc::new(lock) })
    }

    /// Issues the next id. The lock is held from the clock read to the state update, so
    /// concurrent callers are served one after another.
    pub fn next_id(&self) -> (r: Result<u128, SnowError>)
        ensures
            r matches Ok(id) ==> {
                &&& worker_id_of(id as int) == self.worker_id()
                &&& data_center_id_of(id as int) == self.data_center_id()
                &&& encodable(timestamp_of(id as int))
                &&& sequence_of(id as int) <= SEQUENCE_MASK
            },
            r matches Err(e) ==> e == SnowError::ClockReadFailure || (e matches SnowError::ClockRegression {
                behind_ms,
            } && behind_ms > 0),
    {
        let (mut inner, handle) = self.state.acquire_write();
        let ghost before = inner@;
        let r = inner.next_id();
        proof {
            if r is Ok {
                lemma_issued_id_decodes(before, inner@);
            }
        }
        handle.release_write(inner);
        r
    }
}

} // verus!
