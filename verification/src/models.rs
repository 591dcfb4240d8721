//! The records of the time-travel store: traces and their immutable steps.
use vstd::prelude::*;
use crate::ids::{fresh_uuid, is_random_uuid, utc_now, Timestamp};
use crate::text::{has_prefix, starts_with};

verus! {

/// One run of an agent for a session.
#[derive(Clone, Debug)]
pub struct Trace {
    pub trace_id: u128,
    pub session_id: u128,
    pub tenant_id: Option<String>,
    pub created_at: Timestamp,
    pub root_prompt: String,
    pub final_status: String,
    pub total_tokens: i64,
}

/// One immutable step of a trace. JSON documents are held as their text.
#[derive(Clone, Debug)]
pub struct AgentStep {
    pub step_id: u128,
    pub trace_id: u128,
    pub parent_step_id: Option<u128>,
    pub step_number: i32,
    pub payload: String,
    pub tool_calls: Option<String>,
    pub output: Option<String>,
    pub requires_approval: bool,
    pub created_at: Timestamp,
}

/// The highest of `floor` and the step numbers in `numbers`.
pub open spec fn highest_number(floor: int, numbers: Seq<i32>) -> int
    decreases numbers.len(),
{
    if numbers.len() == 0 {
        floor
    } else {
        let h = highest_number(floor, numbers.drop_last());
        if numbers.last() > h {
            numbers.last() as int
        } else {
            h
        }
    }
}

/// No step number in `numbers` exceeds their highest, nor does `floor`.
pub proof fn lemma_highest_number_bounds(floor: int, numbers: Seq<i32>)
    ensures
        floor <= highest_number(floor, numbers),
        forall|i: int| 0 <= i < numbers.len() ==> numbers[i] <= #[trigger] highest_number(floor, numbers),
    decreases numbers.len(),
{
    if numbers.len() > 0 {
        lemma_highest_number_bounds(floor, numbers.drop_last());
        assert forall|i: int| 0 <= i < numbers.len() implies numbers[i] <= #[trigger] highest_number(floor, numbers) by {
            if i < numbers.len() - 1 {
                assert(numbers[i] == numbers.drop_last()[i]);
            }
        }
    }
}

/// The number a branch off a step numbered `parent_number` takes, given the
/// numbers already used in its trace: the next number after the parent's
/// when it is free; otherwise one past the highest number in use. `None`
/// when the number it would take does not fit in an `i32`.
pub open spec fn branch_number(parent_number: i32, numbers: Seq<i32>) -> Option<i32> {
    if parent_number < i32::MAX && !numbers.contains((parent_number + 1) as i32) {
        Some((parent_number + 1) as i32)
    } else if highest_number(parent_number as int, numbers) < i32::MAX {
        Some((highest_number(parent_number as int, numbers) + 1) as i32)
    } else {
        None
    }
}

/// A branch number is never one already used in the trace, nor the parent's.
pub proof fn lemma_branch_number_is_free(parent_number: i32, numbers: Seq<i32>)
    ensures
        branch_number(parent_number, numbers) matches Some(n) ==> {
            &&& !numbers.contains(n)
            &&& parent_number < n
        },
{
    lemma_highest_number_bounds(parent_number as int, numbers);
    if let Some(n) = branch_number(parent_number, numbers) {
        if numbers.contains(n) {
            let i = choose|i: int| 0 <= i < numbers.len() && numbers[i] == n;
            assert(numbers[i] <= highest_number(parent_number as int, numbers));
        }
    }
}

impl AgentStep {
    /// A new step that branches off `parent` with `new_payload` (JSON text),
    /// where `trace_numbers` are the step numbers already used in the
    /// parent's trace: same trace, the parent's id as its parent, the number
    /// `branch_number` gives (the one after the parent's when it is free,
    /// else one past the highest in use, so a branch never collides with an
    /// existing step), no tool calls, no output, no approval needed, a fresh
    /// random id and the current time. `None` when that number would not fit
    /// in an `i32`.
    pub fn branch_from(parent: &AgentStep, trace_numbers: &Vec<i32>, new_payload: String) -> (r: Option<AgentStep>)
        ensures
            (r is Some) == (branch_number(parent.step_number, trace_numbers@) is Some),
            r matches Some(step) ==> {
                &&& is_random_uuid(step.step_id)
                &&& step.trace_id == parent.trace_id
                &&& step.parent_step_id == Some(parent.step_id)
                &&& branch_number(parent.step_number, trace_numbers@) == Some(step.step_number)
                &&& parent.step_number < step.step_number
                &&& !trace_numbers@.contains(step.step_number)
                &&& step.payload@ == new_payload@
                &&& step.tool_calls is None
                &&& step.output is None
                &&& !step.requires_approval
            },
    {
        proof {
            lemma_branch_number_is_free(parent.step_number, trace_numbers@);
        }
        let n = trace_numbers.len();
        // Is the number after the parent's free?
        let mut next_free = parent.step_number < i32::MAX;
        if next_free {
            let next = parent.step_number + 1;
            for i in 0..n
                invariant
                    n == trace_numbers@.len(),
                    parent.step_number < i32::MAX,
                    next == parent.step_number + 1,
                    next_free == !trace_numbers@.take(i as int).contains(next),
            {
                let ghost before = trace_numbers@.take(i as int);
                let ghost after = trace_numbers@.take(i + 1);
                assert(after == before.push(trace_numbers@[i as int]));
                if trace_numbers[i] == next {
                    assert(after[i as int] == next);
                    next_free = false;
                } else {
                    assert(after.contains(next) ==> before.contains(next)) by {
                        if after.contains(next) {
                            let j = choose|j: int| 0 <= j < after.len() && after[j] == next;
                            assert(j < i);
                            assert(before[j] == next);
                        }
                    }
                    assert(before.contains(next) ==> after.contains(next)) by {
                        if before.contains(next) {
                            let j = choose|j: int| 0 <= j < before.len() && before[j] == next;
                            assert(after[j] == next);
                        }
                    }
                }
            }
            assert(trace_numbers@.take(n as int) == trace_numbers@);
        }
        let number: i32 = if next_free {
            parent.step_number + 1
        } else {
            let mut highest: i32 = parent.step_number;
            for i in 0..n
                invariant
                    n == trace_numbers@.len(),
                    highest == highest_number(parent.step_number as int, trace_numbers@.take(i as int)),
            {
                assert(trace_numbers@.take(i + 1).drop_last() == trace_numbers@.take(i as int));
                if trace_numbers[i] > highest {
                    highest = trace_numbers[i];
                }
            }
            assert(trace_numbers@.take(n as int) == trace_numbers@);
            if highest == i32::MAX {
                return None;
            }
            highest + 1
        };
        Some(AgentStep {
            step_id: fresh_uuid(),
            trace_id: parent.trace_id,
            parent_step_id: Some(parent.step_id),
            step_number: number,
            payload: new_payload,
            tool_calls: None,
            output: None,
            requires_approval: false,
            created_at: utc_now(),
        })
    }
}

/// The database behind the state store.
#[derive(Clone, Copy, Debug, PartialEq, Eq)]
pub enum StoreBackend {
    Postgres,
    Sqlite,
}

impl StoreBackend {
    /// A URL that starts with `postgres` names a PostgreSQL database; any
    /// other is opened as SQLite.
    pub fn for_url(db_url: &str) -> (r: Self)
        ensures
            r == (if has_prefix(db_url@, "postgres"@) { StoreBackend::Postgres } else { StoreBackend::Sqlite }),
    {
        if starts_with(db_url, "postgres") {
            StoreBackend::Postgres
        } else {
            StoreBackend::Sqlite
        }
    }
}

} // verus!
