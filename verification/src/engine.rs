//! The agent harness loop. `AgentRun` decides every round of a run: it hands
//! out the state the agent steps next, takes the agent's reply, and says when
//! the run ends. The caller only performs the steps it is handed (which it
//! must await) and passes each reply back.
use vstd::prelude::*;
use vstd::string::*;
use crate::state::AgentState;
use crate::text::{decimal, decimal_text};

verus! {

/// Why the harness gave up on a run.
#[derive(Clone, Debug, PartialEq, Eq)]
pub enum EngineError {
    /// The agent used its whole step budget without finishing.
    BudgetExhausted { budget: u32 },
}

/// The message of an engine error.
pub open spec fn engine_error_message(e: EngineError) -> Seq<char> {
    match e {
        EngineError::BudgetExhausted { budget } => "Agent executed maximum allowed budget ("@
            + decimal_text(budget as nat)
            + ") without finishing. Possible infinite loop detected."@,
    }
}

impl EngineError {
    /// The human-readable message of this error.
    pub fn message(&self) -> (r: String)
        ensures
            r@ == engine_error_message(*self),
    {
        match self {
            EngineError::BudgetExhausted { budget } => {
                let mut m = String::new();
                m.append("Agent executed maximum allowed budget (");
                let n = decimal(*budget as u64);
                m.append(n.as_str());
                m.append(") without finishing. Possible infinite loop detected.");
                m
            },
        }
    }
}

/// What the harness does next.
#[derive(Debug)]
pub enum RunAction<E> {
    /// Hand this state to the agent for one step.
    Step(AgentState),
    /// The run is over: return this state, finished or paused for a human.
    Return(AgentState),
    /// The run is over: the step budget is spent.
    Fail(EngineError),
    /// The run is over: the agent's step failed with this error.
    AgentFailed(E),
}

/// The head of a round on `state`, with `iterations` rounds begun, and the
/// rounds begun after it: a spent budget fails the run; otherwise the round
/// is counted, and a state that waits for human approval is returned while
/// any other is handed to the agent.
pub open spec fn head_action<E>(budget: u32, iterations: u32, state: AgentState) -> (RunAction<E>, u32) {
    if iterations >= budget {
        (RunAction::Fail(EngineError::BudgetExhausted { budget }), iterations)
    } else if state.requires_human_approval {
        (RunAction::Return(state), (iterations + 1) as u32)
    } else {
        (RunAction::Step(state), (iterations + 1) as u32)
    }
}

/// What follows the agent's reply to a step: its error ends the run with
/// that error; a finished state is returned at once; any other state begins
/// the next round.
pub open spec fn reply_action<E>(budget: u32, iterations: u32, reply: Result<AgentState, E>) -> (RunAction<E>, u32) {
    match reply {
        Err(e) => (RunAction::AgentFailed(e), iterations),
        Ok(next) => if next.is_finished {
            (RunAction::Return(next), iterations)
        } else {
            head_action(budget, iterations, next)
        },
    }
}

/// A run continued from `action`, with `iterations` rounds begun, where the
/// agent answers its steps with `replies` in order. Gives the last action
/// (a `Step` when the replies ran out first) and the states handed to the
/// agent, in order.
pub open spec fn run_on<E>(budget: u32, iterations: u32, action: RunAction<E>, replies: Seq<Result<AgentState, E>>) -> (RunAction<E>, Seq<AgentState>)
    decreases replies.len(),
{
    match action {
        RunAction::Step(s) => if replies.len() == 0 {
            (RunAction::Step(s), seq![s])
        } else {
            let (next, counted) = reply_action(budget, iterations, replies[0]);
            let rest = run_on(budget, counted, next, replies.drop_first());
            (rest.0, seq![s] + rest.1)
        },
        other => (other, Seq::empty()),
    }
}

/// A whole run of the harness from `initial` under `budget`, the agent
/// answering its steps with `replies`: how it ends, and the states handed to
/// the agent, in order.
pub open spec fn agent_run<E>(budget: u32, initial: AgentState, replies: Seq<Result<AgentState, E>>) -> (RunAction<E>, Seq<AgentState>) {
    let (first, counted) = head_action::<E>(budget, 0, initial);
    run_on(budget, counted, first, replies)
}

/// The facts of a continued run, by induction on the replies.
proof fn lemma_run_on<E>(budget: u32, iterations: u32, action: RunAction<E>, replies: Seq<Result<AgentState, E>>)
    requires
        iterations <= budget,
        action is Step ==> iterations >= 1,
        action matches RunAction::Return(x) ==> x.is_finished || x.requires_human_approval,
    ensures
        ({
            let (end, handed) = run_on(budget, iterations, action, replies);
            &&& action is Step ==> {
                &&& 1 <= handed.len() <= budget - iterations + 1
                &&& handed.len() <= replies.len() + 1
                &&& action matches RunAction::Step(s) && handed[0] == s
                &&& forall|k: int| 0 <= k < handed.len() - 1 ==> #[trigger] replies[k] == Ok::<AgentState, E>(handed[k + 1])
                &&& end matches RunAction::AgentFailed(e) ==> handed.len() <= replies.len()
                    && replies[handed.len() - 1] == Err::<AgentState, E>(e)
                &&& end matches RunAction::Return(t) ==> handed.len() <= replies.len()
                    && replies[handed.len() - 1] == Ok::<AgentState, E>(t)
                &&& end is Fail ==> handed.len() == budget - iterations + 1 && handed.len() <= replies.len()
                    && forall|k: int| 0 <= k < handed.len() ==> (#[trigger] replies[k] matches Ok(n) && !n.is_finished)
                &&& end matches RunAction::Step(t) ==> handed.len() == replies.len() + 1 && handed.last() == t
            }
            &&& !(action is Step) ==> end == action && handed.len() == 0
            &&& end matches RunAction::Return(t) ==> t.is_finished || t.requires_human_approval
            &&& end matches RunAction::Fail(e) ==> e == EngineError::BudgetExhausted { budget }
                || action == RunAction::<E>::Fail(e)
        }),
    decreases replies.len(),
{
    if action is Step && replies.len() > 0 {
        let (next, counted) = reply_action(budget, iterations, replies[0]);
        let rest = replies.drop_first();
        lemma_run_on(budget, counted, next, rest);
        let (end, handed) = run_on(budget, iterations, action, replies);
        let tail = run_on(budget, counted, next, rest).1;
        assert(handed == seq![action->Step_0] + tail);
        assert forall|k: int| 0 <= k < handed.len() - 1 implies #[trigger] replies[k] == Ok::<AgentState, E>(handed[k + 1]) by {
            if k == 0 {
                assert(handed[1] == tail[0]);
            } else {
                assert(replies[k] == rest[k - 1]);
                assert(handed[k + 1] == tail[k]);
                assert(rest[k - 1] == Ok::<AgentState, E>(tail[k - 1 + 1]));
            }
        }
        if end is Fail {
            assert forall|k: int| 0 <= k < handed.len() implies (#[trigger] replies[k] matches Ok(n) && !n.is_finished) by {
                if k > 0 {
                    assert(replies[k] == rest[k - 1]);
                }
            }
        }
    }
}

/// The agent is asked for at most `budget` steps, and a zero budget fails
/// the run before anything else, even on a state that waits for approval.
pub proof fn lemma_agent_steps_within_budget<E>(budget: u32, initial: AgentState, replies: Seq<Result<AgentState, E>>)
    ensures
        agent_run(budget, initial, replies).1.len() <= budget,
        budget == 0 ==> agent_run(budget, initial, replies) == (
            RunAction::<E>::Fail(EngineError::BudgetExhausted { budget: 0 }),
            Seq::<AgentState>::empty(),
        ),
{
    let (first, counted) = head_action::<E>(budget, 0, initial);
    lemma_run_on(budget, counted, first, replies);
}

/// Each step is taken on the state the previous step returned: the first on
/// the initial state, the next on the first reply, and so on.
pub proof fn lemma_states_thread_through_steps<E>(budget: u32, initial: AgentState, replies: Seq<Result<AgentState, E>>)
    ensures
        ({
            let handed = agent_run(budget, initial, replies).1;
            &&& handed.len() > 0 ==> handed[0] == initial
            &&& forall|k: int| 0 <= k < handed.len() - 1 ==> #[trigger] replies[k] == Ok::<AgentState, E>(handed[k + 1])
        }),
{
    let (first, counted) = head_action::<E>(budget, 0, initial);
    lemma_run_on(budget, counted, first, replies);
}

/// An agent error ends the run with that error right after the failing
/// step: no further step is taken.
pub proof fn lemma_agent_error_stops_run<E>(budget: u32, initial: AgentState, replies: Seq<Result<AgentState, E>>)
    ensures
        ({
            let (end, handed) = agent_run(budget, initial, replies);
            end matches RunAction::AgentFailed(e) ==> handed.len() >= 1 && replies[handed.len() - 1] == Err::<AgentState, E>(e)
        }),
{
    let (first, counted) = head_action::<E>(budget, 0, initial);
    lemma_run_on(budget, counted, first, replies);
}

/// A run returns only a finished state or one that waits for approval: the
/// initial state itself when no step was taken, else the last step's reply.
pub proof fn lemma_returned_state_is_finished_or_paused<E>(budget: u32, initial: AgentState, replies: Seq<Result<AgentState, E>>)
    ensures
        ({
            let (end, handed) = agent_run(budget, initial, replies);
            end matches RunAction::Return(s) ==> {
                &&& s.is_finished || s.requires_human_approval
                &&& handed.len() == 0 ==> s == initial
                &&& handed.len() > 0 ==> replies[handed.len() - 1] == Ok::<AgentState, E>(s)
            }
        }),
{
    let (first, counted) = head_action::<E>(budget, 0, initial);
    lemma_run_on(budget, counted, first, replies);
}

/// A run that spends its budget took exactly `budget` steps, and none of
/// them returned a finished state or an error.
pub proof fn lemma_exhausted_run_took_whole_budget<E>(budget: u32, initial: AgentState, replies: Seq<Result<AgentState, E>>)
    ensures
        ({
            let (end, handed) = agent_run(budget, initial, replies);
            end is Fail ==> {
                &&& end == RunAction::<E>::Fail(EngineError::BudgetExhausted { budget })
                &&& handed.len() == budget
                &&& forall|k: int| 0 <= k < budget ==> (#[trigger] replies[k] matches Ok(n) && !n.is_finished)
            }
        }),
{
    let (first, counted) = head_action::<E>(budget, 0, initial);
    lemma_run_on(budget, counted, first, replies);
}

/// A run whose replies ran out before it ended has handed every reply's
/// state on, and is waiting for the agent's answer on the last one.
pub proof fn lemma_pending_run_used_every_reply<E>(budget: u32, initial: AgentState, replies: Seq<Result<AgentState, E>>)
    ensures
        ({
            let (end, handed) = agent_run(budget, initial, replies);
            end matches RunAction::Step(s) ==> handed.len() == replies.len() + 1 && handed.last() == s
        }),
{
    let (first, counted) = head_action::<E>(budget, 0, initial);
    lemma_run_on(budget, counted, first, replies);
}

/// A state that waits for human approval halts the run before the agent
/// takes any step, as long as the budget is not spent.
pub proof fn lemma_approval_halts_before_step<E>(budget: u32, initial: AgentState, replies: Seq<Result<AgentState, E>>)
    requires
        budget > 0,
        initial.requires_human_approval,
    ensures
        agent_run(budget, initial, replies) == (RunAction::<E>::Return(initial), Seq::<AgentState>::empty()),
{
}

/// A first step that returns a finished state ends the run with that state.
pub proof fn lemma_finished_step_ends_run<E>(budget: u32, initial: AgentState, replies: Seq<Result<AgentState, E>>)
    requires
        budget > 0,
        !initial.requires_human_approval,
        replies.len() > 0,
        replies[0] matches Ok(n) && n.is_finished,
    ensures
        agent_run(budget, initial, replies) == (RunAction::<E>::Return(replies[0]->Ok_0), seq![initial]),
{
    let rest = run_on(budget, 1, RunAction::<E>::Return(replies[0]->Ok_0), replies.drop_first());
    assert(rest == (RunAction::<E>::Return(replies[0]->Ok_0), Seq::<AgentState>::empty()));
    assert(seq![initial] + Seq::<AgentState>::empty() == seq![initial]);
}

/// The harness loop's counter: how many rounds it has begun out of its budget.
pub struct AgentRun {
    budget: u32,
    iterations: u32,
}

impl AgentRun {
    /// The step budget of the run.
    pub closed spec fn budget_spec(&self) -> u32 {
        self.budget
    }

    /// The rounds begun so far.
    pub closed spec fn iterations_spec(&self) -> u32 {
        self.iterations
    }

    /// Starts a run of `initial` under `execution_budget` steps: the first
    /// round's head decides the first action.
    pub fn start<E>(initial: AgentState, execution_budget: u32) -> (r: (AgentRun, RunAction<E>))
        ensures
            r.0.budget_spec() == execution_budget,
            (r.1, r.0.iterations_spec()) == head_action::<E>(execution_budget, 0, initial),
    {
        let mut run = AgentRun { budget: execution_budget, iterations: 0 };
        let action = run.head(initial);
        (run, action)
    }

    /// The head of a round on `state`.
    fn head<E>(&mut self, state: AgentState) -> (a: RunAction<E>)
        ensures
            final(self).budget_spec() == old(self).budget_spec(),
            (a, final(self).iterations_spec()) == head_action::<E>(old(self).budget_spec(), old(self).iterations_spec(), state),
    {
        if self.iterations >= self.budget {
            return RunAction::Fail(EngineError::BudgetExhausted { budget: self.budget });
        }
        self.iterations = self.iterations + 1;
        if state.requires_human_approval {
            RunAction::Return(state)
        } else {
            RunAction::Step(state)
        }
    }

    /// Takes the agent's reply to the step it was handed.
    pub fn on_step<E>(&mut self, reply: Result<AgentState, E>) -> (a: RunAction<E>)
        ensures
            final(self).budget_spec() == old(self).budget_spec(),
            (a, final(self).iterations_spec()) == reply_action(old(self).budget_spec(), old(self).iterations_spec(), reply),
    {
        match reply {
            Err(e) => RunAction::AgentFailed(e),
            Ok(next) => {
                if next.is_finished {
                    RunAction::Return(next)
                } else {
                    self.head(next)
                }
            },
        }
    }
}

} // verus!
