//! The snowflake identifier generator and its clock/sequence state machine.

use vstd::prelude::*;

use crate::layout::DATACENTER_ID_BITS;
use crate::layout::DATACENTER_ID_SHIFT;
use crate::layout::MAX_DATACENTER_ID;
use crate::layout::MAX_WORKER_ID;
use crate::layout::SEQUENCE_BITS;
use crate::layout::SEQUENCE_MASK;
use crate::layout::TIMESTAMP_LEFT_SHIFT;
use crate::layout::TIMESTAMP_LIMIT;
use crate::layout::TWEPOCH;
use crate::layout::WORKER_ID_BITS;
use crate::layout::WORKER_ID_SHIFT;
use crate::layout::lemma_pack_injective;
use crate::layout::lemma_pack_is_bitwise;
use crate::layout::lemma_pack_strictly_monotonic;
use crate::layout::pack;
use crate::layout::valid_datacenter_id;
use crate::layout::valid_sequence;
use crate::layout::valid_timestamp;
use crate::layout::valid_worker_id;

verus! {

/// Relies on `std::time::SystemTime::now` and
/// `SystemTime::duration_since(UNIX_EPOCH)` for the host clock: the number
/// of nanoseconds between the Unix epoch and now, or a negative value when
/// now is before the Unix epoch (`duration_since` then returns its `Err`
/// variant; neither call panics, whatever the clock reports). Nothing is
/// promised of the result: the clock can report anything, and the caller
/// checks whatever it needs of the value.
#[verifier::external_body]
fn now_unix_nanos() -> (r: i128)
{
    match std::time::SystemTime::now().duration_since(std::time::UNIX_EPOCH) {
        Ok(since_epoch) => since_epoch.as_nanos() as i128,
        Err(_) => -1,
    }
}

/// How many clock polls a sequence-exhaustion wait may spend before giving
/// up on a clock that refuses to advance to the next millisecond.
const MAX_CLOCK_POLLS: u64 = 100_000_000;

/// Stepping a sequence value under the 12-bit all-ones mask increments it,
/// and wraps the last value of the field to 0.
proof fn lemma_sequence_wrap(s: i64)
    by (bit_vector)
    requires
        0 <= s <= 0xfff,
    ensures
        ((s + 1) as i64) & 0xfff == if s == 0xfff { 0i64 } else { (s + 1) as i64 },
{
}

/// Why a call to [`SnowFlakeId::generate_id`] can fail.
#[derive(Clone, Copy, Debug, PartialEq, Eq, Structural)]
pub enum SnowFlakeError {
    /// The host clock could not supply a usable millisecond timestamp: it
    /// failed outright, reported a time before the custom epoch, or reported
    /// one past the range the 41-bit timestamp field can hold.
    ClockUnavailable,
    /// The host clock reported a time strictly before the timestamp of the
    /// most recent successful generation: the clock moved backwards.
    ClockRegression,
}

/// A generator of snowflake identifiers for one (worker, datacenter) pair.
#[derive(Debug)]
pub struct SnowFlakeId {
    twepoch: i64,

    worker_id_bits: u8,
    datacenter_id_bits: u8,
    sequence_bits: u8,

    worker_id: i64,
    datacenter_id: i64,
    sequence: i64,

    worker_id_shift: u8,
    datacenter_id_shift: u8,
    timestamp_left_shift: u8,
    sequence_mask: i64,

    last_timestamp: i64,
}

impl SnowFlakeId {
    /// The worker identifier this generator stamps into every identifier.
    pub closed spec fn spec_worker_id(self) -> i64 {
        self.worker_id
    }

    /// The datacenter identifier this generator stamps into every identifier.
    pub closed spec fn spec_datacenter_id(self) -> i64 {
        self.datacenter_id
    }

    /// The sequence counter used by the most recent successful generation.
    pub closed spec fn spec_sequence(self) -> i64 {
        self.sequence
    }

    /// The millisecond timestamp used by the most recent successful
    /// generation, or 0 before the first one.
    pub closed spec fn spec_last_timestamp(self) -> i64 {
        self.last_timestamp
    }

    /// Well-formedness: the layout constants hold their fixed values, the two
    /// identity fields fit their bit widths, the sequence counter fits its
    /// field, and the last-seen timestamp is either the initial 0 or a
    /// timestamp the 41-bit field can hold.
    pub closed spec fn wf(self) -> bool {
        &&& self.twepoch == TWEPOCH
        &&& self.worker_id_bits == WORKER_ID_BITS
        &&& self.datacenter_id_bits == DATACENTER_ID_BITS
        &&& self.sequence_bits == SEQUENCE_BITS
        &&& self.worker_id_shift == WORKER_ID_SHIFT
        &&& self.datacenter_id_shift == DATACENTER_ID_SHIFT
        &&& self.timestamp_left_shift == TIMESTAMP_LEFT_SHIFT
        &&& self.sequence_mask == SEQUENCE_MASK
        &&& valid_worker_id(self.worker_id)
        &&& valid_datacenter_id(self.datacenter_id)
        &&& valid_sequence(self.sequence)
        &&& (self.last_timestamp == 0 || valid_timestamp(self.last_timestamp))
    }

    /// What well-formedness pins down, seen from outside the module: every
    /// observable field of a well-formed generator is in the range of its
    /// bit field, and the recorded timestamp is the initial 0 or one the
    /// 41-bit field can hold.
    pub proof fn lemma_wf_ranges(self)
        requires
            self.wf(),
        ensures
            valid_worker_id(self.spec_worker_id()),
            valid_datacenter_id(self.spec_datacenter_id()),
            valid_sequence(self.spec_sequence()),
            self.spec_last_timestamp() == 0 || valid_timestamp(self.spec_last_timestamp()),
    {
    }

    /// Builds a generator for the given worker and datacenter identifiers.
    ///
    /// The caller assigns the identifiers and must keep each within its
    /// 5-bit field; [`SnowFlakeId::try_new`] checks the ranges at run time
    /// instead.
    pub fn new(worker_id: i64, datacenter_id: i64) -> (r: SnowFlakeId)
        requires
            valid_worker_id(worker_id),
            valid_datacenter_id(datacenter_id),
        ensures
            r.wf(),
            r.spec_worker_id() == worker_id,
            r.spec_datacenter_id() == datacenter_id,
            r.spec_sequence() == 0,
            r.spec_last_timestamp() == 0,
    {
        proof {
            assert((-1i64 ^ ((-1i64) << 12u64)) == 0xfffi64) by (bit_vector);
        }
        SnowFlakeId {
            twepoch: TWEPOCH,

            worker_id_bits: WORKER_ID_BITS,
            datacenter_id_bits: DATACENTER_ID_BITS,
            sequence_bits: SEQUENCE_BITS,

            worker_id,
            datacenter_id,
            sequence: 0i64,

            worker_id_shift: WORKER_ID_SHIFT,
            datacenter_id_shift: DATACENTER_ID_SHIFT,
            timestamp_left_shift: TIMESTAMP_LEFT_SHIFT,

            sequence_mask: -1i64 ^ (-1i64 << 12u64),

            last_timestamp: 0i64,
        }
    }

    /// Builds a generator like [`SnowFlakeId::new`], but checks at run time
    /// that each identifier fits its 5-bit field, and returns `None` instead
    /// of a generator exactly when one does not.
    pub fn try_new(worker_id: i64, datacenter_id: i64) -> (r: Option<SnowFlakeId>)
        ensures
            r is Some <==> valid_worker_id(worker_id) && valid_datacenter_id(datacenter_id),
            r matches Some(g) ==> {
                &&& g.wf()
                &&& g.spec_worker_id() == worker_id
                &&& g.spec_datacenter_id() == datacenter_id
                &&& g.spec_sequence() == 0
                &&& g.spec_last_timestamp() == 0
            },
    {
        if 0 <= worker_id && worker_id <= MAX_WORKER_ID && 0 <= datacenter_id
            && datacenter_id <= MAX_DATACENTER_ID {
            Some(SnowFlakeId::new(worker_id, datacenter_id))
        } else {
            None
        }
    }

    /// The millisecond timestamp used by the most recent successful
    /// generation, or 0 before the first one.
    pub fn last_timestamp_millis(&self) -> (r: i64)
        ensures
            r == self.spec_last_timestamp(),
    {
        self.last_timestamp
    }

    /// Generates one identifier for the given current millisecond timestamp.
    ///
    /// This is the whole clock/sequence state machine, verified for every
    /// value the clock could hand [`SnowFlakeId::generate_id`]:
    /// - a timestamp strictly before the last one recorded is a clock
    ///   regression, reported as an error with no state touched;
    /// - a timestamp the 41-bit field cannot hold means the clock is not
    ///   usable, reported as an error with no state touched;
    /// - a fresh millisecond resets the sequence counter to 0;
    /// - a repeated millisecond takes the next sequence value, and when the
    ///   4096 values of that millisecond are spent, waits for the clock to
    ///   reach the next millisecond rather than reuse one;
    /// - on success the recorded (timestamp, sequence) pair strictly grows in
    ///   lexicographic order, and the identifier is exactly the packed word
    ///   of the recorded fields.
    pub fn generate_at(&mut self, timestamp: i64) -> (r: Result<i64, SnowFlakeError>)
        requires
            old(self).wf(),
        ensures
            final(self).wf(),
            final(self).spec_worker_id() == old(self).spec_worker_id(),
            final(self).spec_datacenter_id() == old(self).spec_datacenter_id(),
            final(self).spec_last_timestamp() >= old(self).spec_last_timestamp(),
            r is Err ==> *final(self) == *old(self),
            timestamp < old(self).spec_last_timestamp()
                ==> r == Err::<i64, SnowFlakeError>(SnowFlakeError::ClockRegression),
            timestamp >= old(self).spec_last_timestamp() && !valid_timestamp(timestamp)
                ==> r == Err::<i64, SnowFlakeError>(SnowFlakeError::ClockUnavailable),
            r is Err ==> r == Err::<i64, SnowFlakeError>(SnowFlakeError::ClockRegression)
                || r == Err::<i64, SnowFlakeError>(SnowFlakeError::ClockUnavailable),
            r == Err::<i64, SnowFlakeError>(SnowFlakeError::ClockRegression)
                <==> timestamp < old(self).spec_last_timestamp(),
            valid_timestamp(timestamp) && timestamp > old(self).spec_last_timestamp() ==> {
                &&& r is Ok
                &&& final(self).spec_last_timestamp() == timestamp
                &&& final(self).spec_sequence() == 0
            },
            valid_timestamp(timestamp) && timestamp == old(self).spec_last_timestamp()
                && old(self).spec_sequence() < SEQUENCE_MASK ==> {
                &&& r is Ok
                &&& final(self).spec_last_timestamp() == timestamp
                &&& final(self).spec_sequence() == old(self).spec_sequence() + 1
            },
            valid_timestamp(timestamp) && timestamp == old(self).spec_last_timestamp()
                && old(self).spec_sequence() == SEQUENCE_MASK && r is Ok ==> {
                &&& final(self).spec_last_timestamp() > timestamp
                &&& final(self).spec_sequence() == 0
            },
            r matches Ok(id) ==> {
                &&& valid_timestamp(final(self).spec_last_timestamp())
                &&& (final(self).spec_last_timestamp() > old(self).spec_last_timestamp()
                    || (final(self).spec_last_timestamp() == old(self).spec_last_timestamp()
                        && final(self).spec_sequence() > old(self).spec_sequence()))
                &&& valid_sequence(final(self).spec_sequence())
                &&& valid_worker_id(final(self).spec_worker_id())
                &&& valid_datacenter_id(final(self).spec_datacenter_id())
                &&& id == final(self).spec_current_id()
                &&& 0 <= id
            },
    {
        if timestamp < self.last_timestamp {
            return Err(SnowFlakeError::ClockRegression);
        }
        if timestamp < TWEPOCH || timestamp >= TIMESTAMP_LIMIT {
            return Err(SnowFlakeError::ClockUnavailable);
        }
        let mut chosen = timestamp;
        let mut sequence = 0i64;
        if timestamp == self.last_timestamp {
            sequence = (self.sequence + 1) & self.sequence_mask;
            proof {
                lemma_sequence_wrap(self.sequence);
            }
            if sequence == 0 {
                // The sequence space of this millisecond is spent: wait for
                // the clock to reach the next one.
                match self.til_next_millis(self.last_timestamp) {
                    Some(next) => {
                        if next >= TIMESTAMP_LIMIT {
                            return Err(SnowFlakeError::ClockUnavailable);
                        }
                        chosen = next;
                    },
                    None => {
                        return Err(SnowFlakeError::ClockUnavailable);
                    },
                }
            }
        }
        self.sequence = sequence;
        self.last_timestamp = chosen;
        let ts_off = chosen - self.twepoch;
        let id = (ts_off << self.timestamp_left_shift)
            | (self.datacenter_id << self.datacenter_id_shift)
            | (self.worker_id << self.worker_id_shift)
            | self.sequence;
        proof {
            lemma_pack_is_bitwise(ts_off, self.datacenter_id, self.worker_id, self.sequence);
        }
        Ok(id)
    }

    /// Generates one identifier from the host clock: an ever-growing `i64`.
    ///
    /// Reads the current millisecond from the host clock and runs
    /// [`SnowFlakeId::generate_at`] on it, so whatever the clock reports:
    /// on success the identifier is the packed word of a recorded
    /// (timestamp, sequence) pair that strictly grows from call to call,
    /// stamped with this generator's worker and datacenter identifiers; on
    /// failure the generator is left exactly as it was, and the error says
    /// whether the clock moved backwards or was unusable.
    pub fn generate_id(&mut self) -> (r: Result<i64, SnowFlakeError>)
        requires
            old(self).wf(),
        ensures
            final(self).wf(),
            final(self).spec_worker_id() == old(self).spec_worker_id(),
            final(self).spec_datacenter_id() == old(self).spec_datacenter_id(),
            final(self).spec_last_timestamp() >= old(self).spec_last_timestamp(),
            r is Err ==> *final(self) == *old(self),
            r matches Ok(id) ==> {
                &&& valid_timestamp(final(self).spec_last_timestamp())
                &&& (final(self).spec_last_timestamp() > old(self).spec_last_timestamp()
                    || (final(self).spec_last_timestamp() == old(self).spec_last_timestamp()
                        && final(self).spec_sequence() > old(self).spec_sequence()))
                &&& valid_sequence(final(self).spec_sequence())
                &&& valid_worker_id(final(self).spec_worker_id())
                &&& valid_datacenter_id(final(self).spec_datacenter_id())
                &&& id == final(self).spec_current_id()
                &&& 0 <= id
            },
    {
        match SnowFlakeId::curr_time() {
            None => Err(SnowFlakeError::ClockUnavailable),
            Some(timestamp) => self.generate_at(timestamp),
        }
    }

    /// The identifier a successful generation leaves behind: the packed word
    /// of the recorded timestamp, the generator's identity and the recorded
    /// sequence. Both [`SnowFlakeId::generate_id`] and
    /// [`SnowFlakeId::generate_at`] say of every identifier they return that
    /// it equals this word of the state they leave behind.
    pub open spec fn spec_current_id(self) -> int {
        pack(
            (self.spec_last_timestamp() - TWEPOCH) as i64,
            self.spec_datacenter_id(),
            self.spec_worker_id(),
            self.spec_sequence(),
        )
    }

    /// Law: identifiers of one generator strictly increase. Whenever one
    /// successful call completes before another begins, the state the first
    /// leaves behind precedes the state the second leaves behind in the
    /// lexicographic (timestamp, sequence) order that every successful call
    /// advances, so the first identifier is strictly the smaller; in
    /// particular all identifiers of one generator are pairwise distinct.
    pub proof fn lemma_ids_strictly_increase(first: SnowFlakeId, second: SnowFlakeId)
        requires
            first.wf(),
            second.wf(),
            first.spec_worker_id() == second.spec_worker_id(),
            first.spec_datacenter_id() == second.spec_datacenter_id(),
            valid_timestamp(first.spec_last_timestamp()),
            valid_timestamp(second.spec_last_timestamp()),
            second.spec_last_timestamp() > first.spec_last_timestamp()
                || (second.spec_last_timestamp() == first.spec_last_timestamp()
                    && second.spec_sequence() > first.spec_sequence()),
        ensures
            first.spec_current_id() < second.spec_current_id(),
    {
        lemma_pack_strictly_monotonic(
            (first.spec_last_timestamp() - TWEPOCH) as i64,
            first.spec_sequence(),
            (second.spec_last_timestamp() - TWEPOCH) as i64,
            second.spec_sequence(),
            first.spec_datacenter_id(),
            first.spec_worker_id(),
        );
    }

    /// Law: generators with different identities never collide. Two
    /// well-formed generators that differ in worker identifier or in
    /// datacenter identifier never leave behind the same identifier, whatever
    /// timestamps and sequences their calls recorded.
    pub proof fn lemma_distinct_identities_never_collide(one: SnowFlakeId, other: SnowFlakeId)
        requires
            one.wf(),
            other.wf(),
            valid_timestamp(one.spec_last_timestamp()),
            valid_timestamp(other.spec_last_timestamp()),
            one.spec_worker_id() != other.spec_worker_id()
                || one.spec_datacenter_id() != other.spec_datacenter_id(),
        ensures
            one.spec_current_id() != other.spec_current_id(),
    {
        if one.spec_current_id() == other.spec_current_id() {
            lemma_pack_injective(
                (one.spec_last_timestamp() - TWEPOCH) as i64,
                one.spec_datacenter_id(),
                one.spec_worker_id(),
                one.spec_sequence(),
                (other.spec_last_timestamp() - TWEPOCH) as i64,
                other.spec_datacenter_id(),
                other.spec_worker_id(),
                other.spec_sequence(),
            );
        }
    }

    /// Truncates a nanosecond count since the Unix epoch to whole
    /// milliseconds: exactly `nanos / 1_000_000` whenever `nanos` is
    /// non-negative and that quotient fits an `i64`, and `None` exactly
    /// otherwise.
    pub fn millis_of_nanos(nanos: i128) -> (r: Option<i64>)
        ensures
            r is None <==> (nanos < 0 || nanos / 1_000_000 > 0x7fff_ffff_ffff_ffff),
            r matches Some(t) ==> t == nanos / 1_000_000,
    {
        if nanos < 0 {
            return None;
        }
        let millis = (nanos as u128) / 1_000_000u128;
        if millis <= 0x7fff_ffff_ffff_ffffu128 {
            Some(millis as i64)
        } else {
            None
        }
    }

    /// The current wall-clock time truncated to milliseconds since the Unix
    /// epoch, or `None` when the host clock fails, reports a time before the
    /// Unix epoch, or reports one whose millisecond count overflows `i64`.
    /// The truncation itself is [`SnowFlakeId::millis_of_nanos`], verified
    /// for every value the clock could hand it.
    fn curr_time() -> (r: Option<i64>)
        ensures
            r matches Some(t) ==> 0 <= t,
    {
        SnowFlakeId::millis_of_nanos(now_unix_nanos())
    }

    /// Busy-polls the clock until it reports a millisecond strictly past
    /// `last_timestamp`, and returns that new value. Failed clock reads and
    /// stale values are polled over. A normal clock advances within one
    /// millisecond, a few thousand polls at most; a frozen or regressing
    /// clock would spin forever, so the spin carries a generous sanity bound
    /// and gives up with `None` once it is spent.
    fn til_next_millis(&self, last_timestamp: i64) -> (r: Option<i64>)
        ensures
            r matches Some(t) ==> t > last_timestamp,
    {
        let mut polls_left: u64 = MAX_CLOCK_POLLS;
        while polls_left > 0
            decreases polls_left,
        {
            if let Some(timestamp) = SnowFlakeId::curr_time() {
                if timestamp > last_timestamp {
                    return Some(timestamp);
                }
            }
            polls_left = polls_left - 1;
        }
        None
    }
}

} // verus!
