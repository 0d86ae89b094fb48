//! The per-generator state machine: last timestamp and sequence number.
use vstd::prelude::*;

use crate::clock::get_time;
use crate::error::{IdField, SnowError};
use crate::layout::{
    compose, compose_id, data_center_id_of, encodable, lemma_compose_orders_lexicographically,
    lemma_decompose_compose, lex_less, sequence_of, timestamp_of, worker_id_of, EPOCH, MAX_DATA_CENTER_ID, MAX_WORKER_ID, SEQUENCE_MASK,
    TIMESTAMP_SPAN,
};

verus! {

/// The abstract state of a generator.
pub struct GeneratorState {
    pub worker_id: int,
    pub data_center_id: int,
    pub sequence: int,
    pub last_timestamp: int,
}

impl GeneratorState {
    /// Identity ids within their fields, the sequence within its mask, and a last
    /// timestamp that is either encodable or the initial zero, with sequence zero.
    pub open spec fn wf(self) -> bool {
        &&& 0 <= self.worker_id <= MAX_WORKER_ID
        &&& 0 <= self.data_center_id <= MAX_DATA_CENTER_ID
        &&& 0 <= self.sequence <= SEQUENCE_MASK
        &&& ((self.last_timestamp == 0 && self.sequence == 0) || encodable(self.last_timestamp))
    }

    /// The id that the state holds after issuing it.
    pub open spec fn current_id(self) -> int {
        compose(self.last_timestamp, self.data_center_id, self.worker_id, self.sequence)
    }

    /// Every number of this millisecond has been issued, so `now` must wait.
    pub open spec fn exhausted_at(self, now: int) -> bool {
        now == self.last_timestamp && self.sequence == SEQUENCE_MASK
    }

    /// An id can be issued at time `now`.
    pub open spec fn issues_at(self, now: int) -> bool {
        encodable(now) && now >= self.last_timestamp && !self.exhausted_at(now)
    }

    /// The state after an attempt to issue an id at time `now`.
    pub open spec fn next_at(self, now: int) -> GeneratorState {
        if !self.issues_at(now) {
            self
        } else if now == self.last_timestamp {
            GeneratorState { sequence: self.sequence + 1, ..self }
        } else {
            GeneratorState { sequence: 0, last_timestamp: now, ..self }
        }
    }

    /// `post` is the state after one id was issued from `self`: the same identity, and
    /// either the next number of the same millisecond or number zero of a later one.
    pub open spec fn advances_to(self, post: GeneratorState) -> bool {
        &&& post.worker_id == self.worker_id
        &&& post.data_center_id == self.data_center_id
        &&& encodable(post.last_timestamp)
        &&& post.wf()
        &&& {
            ||| (post.last_timestamp == self.last_timestamp && post.sequence == self.sequence + 1)
            ||| (post.last_timestamp > self.last_timestamp && post.sequence == 0)
        }
    }
}

/// The error that construction reports for an identity, or `None` when both ids fit.
pub open spec fn identity_error(worker_id: u128, data_center_id: u128) -> Option<SnowError> {
    if worker_id > MAX_WORKER_ID {
        Some(
            SnowError::InvalidIdentity {
                field: IdField::WorkerId,
                value: worker_id,
                max: MAX_WORKER_ID,
            },
        )
    } else if data_center_id > MAX_DATA_CENTER_ID {
        Some(
            SnowError::InvalidIdentity {
                field: IdField::DataCenterId,
                value: data_center_id,
                max: MAX_DATA_CENTER_ID,
            },
        )
    } else {
        None
    }
}

/// The error of a call that sees the clock at `now`, or `None` when an id is issued or
/// the call must wait.
pub open spec fn error_at(s: GeneratorState, now: int) -> Option<SnowError> {
    if now < s.last_timestamp {
        Some(SnowError::ClockRegression { behind_ms: (s.last_timestamp - now) as u128 })
    } else if !encodable(now) {
        Some(SnowError::ClockReadFailure)
    } else {
        None
    }
}

/// An attempt that can issue an id moves the state one step forward.
pub proof fn lemma_issue_advances(s: GeneratorState, now: int)
    requires
        s.wf(),
        s.issues_at(now),
    ensures
        s.advances_to(s.next_at(now)),
{
}

/// Of two successive ids from one generator, the second has the later
/// `(timestamp, sequence)` pair and is the larger number.
pub proof fn lemma_successive_ids_increase(s0: GeneratorState, s1: GeneratorState, s2: GeneratorState)
    requires
        s0.wf(),
        s0.advances_to(s1),
        s1.advances_to(s2),
    ensures
        lex_less(s1.last_timestamp, s1.sequence, s2.last_timestamp, s2.sequence),
        s1.current_id() < s2.current_id(),
{
    lemma_compose_orders_lexicographically(
        s1.last_timestamp,
        s1.sequence,
        s2.last_timestamp,
        s2.sequence,
        s1.data_center_id,
        s1.worker_id,
    );
}

/// Every issued id decodes to the generator's worker and data center ids, and to the
/// timestamp and sequence number of the state that issued it.
pub proof fn lemma_issued_id_decodes(s0: GeneratorState, s1: GeneratorState)
    requires
        s0.wf(),
        s0.advances_to(s1),
    ensures
        worker_id_of(s1.current_id()) == s0.worker_id,
        data_center_id_of(s1.current_id()) == s0.data_center_id,
        timestamp_of(s1.current_id()) == s1.last_timestamp,
        sequence_of(s1.current_id()) == s1.sequence,
        0 <= s1.current_id() <= u128::MAX,
{
    lemma_decompose_compose(s1.last_timestamp, s1.data_center_id, s1.worker_id, s1.sequence);
}

/// Once a millisecond's last sequence number is issued, the next id comes from a later
/// millisecond with sequence zero: the sequence never spills into the identity fields.
pub proof fn lemma_exhausted_sequence_moves_on(s0: GeneratorState, s1: GeneratorState)
    requires
        s0.wf(),
        s0.sequence == SEQUENCE_MASK,
        s0.advances_to(s1),
    ensures
        s1.last_timestamp > s0.last_timestamp,
        s1.sequence == 0,
        sequence_of(s1.current_id()) == 0,
        worker_id_of(s1.current_id()) == s0.worker_id,
        data_center_id_of(s1.current_id()) == s0.data_center_id,
{
    lemma_issued_id_decodes(s0, s1);
}

/// A millisecond whose numbers are used up makes the attempt wait without a change of
/// state; the first attempt at a later millisecond then issues number zero there, with
/// the identity fields intact.
pub proof fn lemma_exhausted_waits_then_moves_on(s: GeneratorState, now: int, later: int)
    requires
        s.wf(),
        s.exhausted_at(now),
        later > s.last_timestamp,
        encodable(later),
    ensures
        error_at(s, now) is None,
        s.next_at(now) == s,
        s.issues_at(later),
        s.next_at(later).last_timestamp == later,
        s.next_at(later).sequence == 0,
        s.next_at(later).current_id() == compose(later, s.data_center_id, s.worker_id, 0),
        s.current_id() < s.next_at(later).current_id(),
        timestamp_of(s.next_at(later).current_id()) == later,
        sequence_of(s.next_at(later).current_id()) == 0,
        worker_id_of(s.next_at(later).current_id()) == s.worker_id,
        data_center_id_of(s.next_at(later).current_id()) == s.data_center_id,
{
    lemma_issue_advances(s, later);
    lemma_issued_id_decodes(s, s.next_at(later));
    lemma_compose_orders_lexicographically(
        s.last_timestamp,
        s.sequence,
        later,
        0,
        s.data_center_id,
        s.worker_id,
    );
}

/// A clock that reads behind the last timestamp fails with the distance and leaves the
/// state as it was, so the next attempt with a corrected clock goes exactly as if the
/// failed one never happened, and the id it issues exceeds every earlier one.
pub proof fn lemma_regression_leaves_state(s: GeneratorState, behind: int, corrected: int)
    requires
        s.wf(),
        0 <= behind < s.last_timestamp,
    ensures
        error_at(s, behind) == Some(SnowError::ClockRegression { behind_ms: (s.last_timestamp - behind) as u128 }),
        s.next_at(behind) == s,
        s.next_at(behind).next_at(corrected) == s.next_at(corrected),
        error_at(s.next_at(behind), corrected) == error_at(s, corrected),
        s.issues_at(corrected) ==> s.current_id() < s.next_at(corrected).current_id(),
{
    if s.issues_at(corrected) {
        lemma_issue_advances(s, corrected);
        lemma_compose_orders_lexicographically(
            s.last_timestamp,
            s.sequence,
            s.next_at(corrected).last_timestamp,
            s.next_at(corrected).sequence,
            s.data_center_id,
            s.worker_id,
        );
    }
}

/// One reading of the clock while waiting for a millisecond after `last_timestamp`:
/// `None` to read again, or the outcome that ends the wait.
pub fn wait_step(last_timestamp: u128, reading: Option<u128>) -> (r: Option<Result<u128, SnowError>>)
    ensures
        r == match reading {
            None => Some(Err::<u128, SnowError>(SnowError::ClockReadFailure)),
            Some(t) => if t > last_timestamp {
                Some(Ok::<u128, SnowError>(t))
            } else {
                None::<Result<u128, SnowError>>
            },
        },
{
    match reading {
        None => Some(Err(SnowError::ClockReadFailure)),
        Some(t) => if t > last_timestamp {
            Some(Ok(t))
        } else {
            None
        },
    }
}

/// The mutable state of one generator, with the identity it stamps on every id.
pub struct SnowflakeIdWorkerInner {
    worker_id: u128,
    data_center_id: u128,
    sequence: u128,
    last_timestamp: u128,
}

impl View for SnowflakeIdWorkerInner {
    type V = GeneratorState;

    closed spec fn view(&self) -> GeneratorState {
        GeneratorState {
            worker_id: self.worker_id as int,
            data_center_id: self.data_center_id as int,
            sequence: self.sequence as int,
            last_timestamp: self.last_timestamp as int,
        }
    }
}

impl SnowflakeIdWorkerInner {
    /// A fresh state for the given identity, or the error naming the first id out of range.
    pub fn new(worker_id: u128, data_center_id: u128) -> (r: Result<SnowflakeIdWorkerInner, SnowError>)
        ensures
            identity_error(worker_id, data_center_id) matches Some(e) ==> r == Err::<
                SnowflakeIdWorkerInner,
                SnowError,
            >(e),
            identity_error(worker_id, data_center_id) is None ==> (r matches Ok(g) && g@ == (
            GeneratorState {
                worker_id: worker_id as int,
                data_center_id: data_center_id as int,
                sequence: 0,
                last_timestamp: 0,
            })),
    {
        if worker_id > MAX_WORKER_ID {
            return Err(
                SnowError::InvalidIdentity {
                    field: IdField::WorkerId,
                    value: worker_id,
                    max: MAX_WORKER_ID,
                },
            );
        }
        if data_center_id > MAX_DATA_CENTER_ID {
            return Err(
                SnowError::InvalidIdentity {
                    field: IdField::DataCenterId,
                    value: data_center_id,
                    max: MAX_DATA_CENTER_ID,
                },
            );
        }
        Ok(SnowflakeIdWorkerInner { worker_id, data_center_id, sequence: 0, last_timestamp: 0 })
    }

    /// One attempt to issue an id with the clock at `now`. Returns `Ok(None)` when this
    /// millisecond's numbers are used up and the caller must wait for a later one. On an
    /// error or a wait the state is unchanged.
    pub fn next_id_at(&mut self, now: u128) -> (r: Result<Option<u128>, SnowError>)
        requires
            old(self)@.wf(),
        ensures
            final(self)@ == old(self)@.next_at(now as int),
            final(self)@.wf(),
            error_at(old(self)@, now as int) matches Some(e) ==> r == Err::<Option<u128>, SnowError>(e),
            error_at(old(self)@, now as int) is None && old(self)@.exhausted_at(now as int) ==> r
                == Ok::<Option<u128>, SnowError>(None),
            old(self)@.issues_at(now as int) ==> r == Ok::<Option<u128>, SnowError>(
                Some(final(self)@.current_id() as u128),
            ),
    {
        if now < self.last_timestamp {
            return Err(SnowError::ClockRegression { behind_ms: self.last_timestamp - now });
        }
        if now < EPOCH || now - EPOCH >= TIMESTAMP_SPAN {
            return Err(SnowError::ClockReadFailure);
        }
        if now == self.last_timestamp {
            if self.sequence == SEQUENCE_MASK {
                return Ok(None);
            }
            self.sequence = self.sequence + 1;
        } else {
            self.sequence = 0;
            self.last_timestamp = now;
        }
        Ok(Some(compose_id(self.last_timestamp, self.data_center_id, self.worker_id, self.sequence)))
    }

    /// Issues the next id from the system clock. When this millisecond's numbers are
    /// used up it waits for a later millisecond and issues number zero there. On an
    /// error the state is unchanged.
    pub fn next_id(&mut self) -> (r: Result<u128, SnowError>)
        requires
            old(self)@.wf(),
        ensures
            final(self)@.wf(),
            r matches Ok(id) ==> old(self)@.advances_to(final(self)@) && id == final(self)@.current_id(),
            r is Err ==> final(self)@ == old(self)@,
            r matches Err(e) ==> e == SnowError::ClockReadFailure || (e matches SnowError::ClockRegression {
                behind_ms,
            } && 0 < behind_ms <= old(self)@.last_timestamp),
    {
        let now = match get_time() {
            Some(t) => t,
            None => return Err(SnowError::ClockReadFailure),
        };
        match self.next_id_at(now) {
            Ok(Some(id)) => Ok(id),
            Err(e) => Err(e),
            Ok(None) => {
                let later = Self::til_next_mills(self.last_timestamp)?;
                match self.next_id_at(later) {
                    Ok(Some(id)) => Ok(id),
                    Ok(None) => {
                        // `later` is past the last timestamp, so no wait is asked for here.
                        proof {
                            assert(false);
                        }
                        Err(SnowError::ClockReadFailure)
                    },
                    Err(e) => Err(e),
                }
            },
        }
    }

    /// Polls the clock until it reads later than `last_timestamp`, deciding on each
    /// reading by `wait_step`: the first later reading is returned, and a failed read ends
    /// the wait with `ClockReadFailure`. So does a clock that stays put for `u64::MAX` reads.
    fn til_next_mills(last_timestamp: u128) -> (r: Result<u128, SnowError>)
        ensures
            r matches Ok(t) ==> t > last_timestamp,
            r matches Err(e) ==> e == SnowError::ClockReadFailure,
    {
        let mut polls_left: u64 = u64::MAX;
        while polls_left > 0
            decreases polls_left,
        {
            if let Some(outcome) = wait_step(last_timestamp, get_time()) {
                return outcome;
            }
            polls_left = polls_left - 1;
        }
        Err(SnowError::ClockReadFailure)
    }
}

} // verus!
