//! Validation and stamping of milestone schedules.
use vstd::prelude::*;

use crate::types::{EscrowError, MilestoneSchedule, MAX_SCHEDULE_DESCRIPTION_LEN, MAX_SCHEDULE_TITLE_LEN};

verus! {

/// The outcome of checking one schedule at ledger time `now`: its title and
/// description must fit their limits, and its due date, if any, must lie
/// strictly in the future.
pub open spec fn single_schedule_result(s: MilestoneSchedule, now: u64) -> Result<(), EscrowError> {
    if match s.title {
        Some(t) => t@.len() > MAX_SCHEDULE_TITLE_LEN,
        None => false,
    } {
        Err(EscrowError::ScheduleStringTooLong)
    } else if match s.description {
        Some(d) => d@.len() > MAX_SCHEDULE_DESCRIPTION_LEN,
        None => false,
    } {
        Err(EscrowError::ScheduleStringTooLong)
    } else if match s.due_date {
        Some(d) => d <= now,
        None => false,
    } {
        Err(EscrowError::ScheduleDueDateInPast)
    } else {
        Ok(())
    }
}

/// The due date that an optional schedule gives.
pub open spec fn due_of(e: Option<MilestoneSchedule>) -> Option<u64> {
    match e {
        Some(s) => s.due_date,
        None => None,
    }
}

/// The last due date given in `s`.
pub open spec fn last_due(s: Seq<Option<MilestoneSchedule>>) -> Option<u64>
    decreases s.len(),
{
    if s.len() == 0 {
        None
    } else if due_of(s.last()) is Some {
        due_of(s.last())
    } else {
        last_due(s.drop_last())
    }
}

/// The outcome of checking entry `e` when `prev` is the last due date before it.
pub open spec fn entry_result(e: Option<MilestoneSchedule>, prev: Option<u64>, now: u64) -> Result<(), EscrowError> {
    match e {
        None => Ok(()),
        Some(s) => match single_schedule_result(s, now) {
            Err(x) => Err(x),
            Ok(_) => match (s.due_date, prev) {
                (Some(d), Some(p)) => if d <= p {
                    Err(EscrowError::ScheduleDatesNotMonotonic)
                } else {
                    Ok(())
                },
                _ => Ok(()),
            },
        },
    }
}

/// The outcome of checking a sequence of optional schedules in order: the
/// first entry that fails decides the error.
pub open spec fn sequence_result(s: Seq<Option<MilestoneSchedule>>, now: u64) -> Result<(), EscrowError>
    decreases s.len(),
{
    if s.len() == 0 {
        Ok(())
    } else {
        match sequence_result(s.drop_last(), now) {
            Err(x) => Err(x),
            Ok(_) => entry_result(s.last(), last_due(s.drop_last()), now),
        }
    }
}

/// Every schedule present in `s` passes its own check.
pub open spec fn each_schedule_valid(s: Seq<Option<MilestoneSchedule>>, now: u64) -> bool {
    forall|i: int|
        0 <= i < s.len() && #[trigger] s[i] is Some ==> single_schedule_result(s[i].unwrap(), now) is Ok
}

/// The due dates given in `s` are strictly increasing.
pub open spec fn due_dates_increasing(s: Seq<Option<MilestoneSchedule>>) -> bool {
    forall|i: int, j: int|
        0 <= i < j < s.len() && #[trigger] due_of(s[i]) is Some && #[trigger] due_of(s[j]) is Some
            ==> due_of(s[i]).unwrap() < due_of(s[j]).unwrap()
}

proof fn lemma_last_due(t: Seq<Option<MilestoneSchedule>>)
    requires
        due_dates_increasing(t),
    ensures
        forall|i: int|
            0 <= i < t.len() && #[trigger] due_of(t[i]) is Some ==> last_due(t) is Some
                && due_of(t[i]).unwrap() <= last_due(t).unwrap(),
        last_due(t) is Some ==> exists|j: int| 0 <= j < t.len() && due_of(t[j]) == last_due(t),
    decreases t.len(),
{
    if t.len() > 0 {
        let p = t.drop_last();
        assert forall|i: int, j: int|
            0 <= i < j < p.len() && #[trigger] due_of(p[i]) is Some && #[trigger] due_of(p[j]) is Some
                implies due_of(p[i]).unwrap() < due_of(p[j]).unwrap() by {
            assert(p[i] == t[i] && p[j] == t[j]);
        }
        lemma_last_due(p);
        if due_of(t.last()) is Some {
            assert(due_of(t[t.len() - 1]) == last_due(t));
        } else {
            assert forall|i: int|
                0 <= i < t.len() && #[trigger] due_of(t[i]) is Some implies last_due(t) is Some
                    && due_of(t[i]).unwrap() <= last_due(t).unwrap() by {
                assert(p[i] == t[i]);
            }
            if last_due(t) is Some {
                let j = choose|j: int| 0 <= j < p.len() && due_of(p[j]) == last_due(p);
                assert(p[j] == t[j]);
            }
        }
    }
}

/// A sequence of schedules is accepted exactly when every schedule present is
/// valid on its own and the due dates given are strictly increasing.
pub proof fn lemma_sequence_accepted(s: Seq<Option<MilestoneSchedule>>, now: u64)
    ensures
        sequence_result(s, now) is Ok <==> (each_schedule_valid(s, now) && due_dates_increasing(s)),
    decreases s.len(),
{
    if s.len() > 0 {
        let p = s.drop_last();
        let e = s.last();
        lemma_sequence_accepted(p, now);
        if sequence_result(s, now) is Ok {
            assert(sequence_result(p, now) is Ok);
            lemma_last_due(p);
            assert forall|i: int|
                0 <= i < s.len() && #[trigger] s[i] is Some implies single_schedule_result(s[i].unwrap(), now) is Ok by {
                if i < p.len() {
                    assert(p[i] == s[i]);
                }
            }
            assert forall|i: int, j: int|
                0 <= i < j < s.len() && #[trigger] due_of(s[i]) is Some && #[trigger] due_of(s[j]) is Some
                    implies due_of(s[i]).unwrap() < due_of(s[j]).unwrap() by {
                assert(p[i] == s[i]);
                if j < p.len() {
                    assert(p[j] == s[j]);
                } else {
                    assert(due_of(p[i]) is Some);
                }
            }
        } else if each_schedule_valid(s, now) && due_dates_increasing(s) {
            assert forall|i: int|
                0 <= i < p.len() && #[trigger] p[i] is Some implies single_schedule_result(p[i].unwrap(), now) is Ok by {
                assert(p[i] == s[i]);
            }
            assert forall|i: int, j: int|
                0 <= i < j < p.len() && #[trigger] due_of(p[i]) is Some && #[trigger] due_of(p[j]) is Some
                    implies due_of(p[i]).unwrap() < due_of(p[j]).unwrap() by {
                assert(p[i] == s[i] && p[j] == s[j]);
            }
            lemma_last_due(p);
            if e is Some {
                assert(s[s.len() - 1] is Some);
            }
            if due_of(e) is Some && last_due(p) is Some {
                let j = choose|j: int| 0 <= j < p.len() && due_of(p[j]) == last_due(p);
                assert(p[j] == s[j]);
                assert(due_of(s[j]) is Some && due_of(s[s.len() - 1]) is Some);
            }
        }
    }
}

proof fn lemma_prefix_error(s: Seq<Option<MilestoneSchedule>>, k: int, now: u64)
    requires
        0 <= k <= s.len(),
        sequence_result(s.take(k), now) is Err,
    ensures
        sequence_result(s, now) == sequence_result(s.take(k), now),
    decreases s.len(),
{
    if k == s.len() {
        assert(s.take(k) =~= s);
    } else {
        assert(s.drop_last().take(k) =~= s.take(k));
        lemma_prefix_error(s.drop_last(), k, now);
    }
}

pub fn validate_single_schedule(schedule: &MilestoneSchedule, now: u64) -> (r: Result<(), EscrowError>)
    ensures
        r == single_schedule_result(*schedule, now),
{
    if let Some(title) = &schedule.title {
        if title.len() > MAX_SCHEDULE_TITLE_LEN as usize {
            return Err(EscrowError::ScheduleStringTooLong);
        }
    }
    if let Some(description) = &schedule.description {
        if description.len() > MAX_SCHEDULE_DESCRIPTION_LEN as usize {
            return Err(EscrowError::ScheduleStringTooLong);
        }
    }
    if let Some(due_date) = schedule.due_date {
        if due_date <= now {
            return Err(EscrowError::ScheduleDueDateInPast);
        }
    }
    Ok(())
}

/// Checks the schedules in order; the first failing entry decides the error.
pub fn validate_schedule_sequence(schedules: &Vec<Option<MilestoneSchedule>>, now: u64) -> (r: Result<(), EscrowError>)
    ensures
        r == sequence_result(schedules@, now),
        r is Ok <==> (each_schedule_valid(schedules@, now) && due_dates_increasing(schedules@)),
{
    proof {
        lemma_sequence_accepted(schedules@, now);
    }
    let ghost s = schedules@;
    let mut last: Option<u64> = None;
    let mut idx: usize = 0;
    assert(s.take(0) =~= Seq::<Option<MilestoneSchedule>>::empty());
    while idx < schedules.len()
        invariant
            s == schedules@,
            idx <= s.len(),
            sequence_result(s.take(idx as int), now) is Ok,
            last == last_due(s.take(idx as int)),
            sequence_result(s, now) is Ok <==> (each_schedule_valid(s, now) && due_dates_increasing(s)),
        decreases s.len() - idx,
    {
        let ghost t = s.take(idx as int + 1);
        assert(t.drop_last() =~= s.take(idx as int));
        assert(t.last() == s[idx as int]);
        if let Some(schedule) = &schedules[idx] {
            let single = validate_single_schedule(schedule, now);
            if let Err(e) = single {
                proof {
                    lemma_prefix_error(s, idx as int + 1, now);
                }
                return Err(e);
            }
            if let Some(due_date) = schedule.due_date {
                if let Some(previous_due) = last {
                    if due_date <= previous_due {
                        proof {
                            lemma_prefix_error(s, idx as int + 1, now);
                        }
                        return Err(EscrowError::ScheduleDatesNotMonotonic);
                    }
                }
                last = Some(due_date);
            }
        }
        idx += 1;
    }
    assert(s.take(s.len() as int) =~= s);
    Ok(())
}

/// The schedule as stored: stamped with the ledger time of the write.
pub fn store_schedule(schedule: MilestoneSchedule, now: u64) -> (stamped: MilestoneSchedule)
    ensures
        stamped == (MilestoneSchedule { updated_at: now, ..schedule }),
{
    MilestoneSchedule { updated_at: now, ..schedule }
}

} // verus!
