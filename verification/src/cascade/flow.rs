//! The session: an ordered sequence of rounds.

use vstd::prelude::*;
use vstd::string::*;
use super::error::{result_view, CascadeError, CascadeErrorView};
use super::round::{latest_result, CascadeRound, RoundState, RoundView};
use crate::requests::stop_sequence::opt_view;

verus! {

/// Where a flow is in its life.
#[derive(Debug, Clone, Copy, PartialEq, Eq, Structural)]
pub enum FlowState {
    Unopened,
    Open,
    Closed,
}

/// One structured conversation from its first round to its last.
#[derive(Debug, Clone, PartialEq, Eq)]
pub struct CascadeFlow {
    pub cascade_name: String,
    pub rounds: Vec<CascadeRound>,
    /// When the flow was opened, in milliseconds of the caller's clock.
    pub start_time: u64,
    /// How long the flow was open, in milliseconds, once it is closed.
    pub duration: u64,
    pub state: FlowState,
}

/// A flow as plain values.
pub struct FlowView {
    pub cascade_name: Seq<char>,
    pub rounds: Seq<RoundView>,
    pub start_time: u64,
    pub duration: u64,
    pub state: FlowState,
}

/// The views of rounds.
pub open spec fn round_views(rounds: Seq<CascadeRound>) -> Seq<RoundView> {
    rounds.map_values(|r: CascadeRound| r@)
}

impl View for CascadeFlow {
    type V = FlowView;

    open spec fn view(&self) -> FlowView {
        FlowView {
            cascade_name: self.cascade_name@,
            rounds: round_views(self.rounds@),
            start_time: self.start_time,
            duration: self.duration,
            state: self.state,
        }
    }
}

/// The position of the first round that is not closed, or the number of rounds.
pub open spec fn first_unclosed(rounds: Seq<RoundView>) -> nat
    decreases rounds.len(),
{
    if rounds.len() > 0 && rounds[0].state == RoundState::Closed {
        1 + first_unclosed(rounds.skip(1))
    } else {
        0
    }
}

/// The time from `start` to `now`. A clock that ran backwards counts as no time.
pub open spec fn elapsed(start: u64, now: u64) -> u64 {
    if now >= start {
        (now - start) as u64
    } else {
        0
    }
}

/// The value of the step that ran last in any of the rounds: `None`
/// where no step has run.
pub open spec fn current_result(rounds: Seq<RoundView>) -> Option<Option<Seq<char>>>
    decreases rounds.len(),
{
    if rounds.len() == 0 {
        None
    } else {
        match latest_result(rounds.last().steps) {
            Some(value) => Some(value),
            None => current_result(rounds.drop_last()),
        }
    }
}

/// Closing a flow at time `now`. A flow without rounds cannot be closed,
/// nor one that has a round that is not closed, nor one that is not
/// open. A closed flow holds the time for which it was open.
pub open spec fn flow_closed(flow: FlowView, now: u64) -> (FlowView, Result<(), CascadeErrorView>) {
    if flow.rounds.len() == 0 {
        (flow, Err(CascadeErrorView::NoRounds))
    } else if first_unclosed(flow.rounds) < flow.rounds.len() {
        (flow, Err(CascadeErrorView::RoundNotClosed(first_unclosed(flow.rounds) as usize)))
    } else if flow.state != FlowState::Open {
        (flow, Err(CascadeErrorView::CascadeNotOpen))
    } else {
        (
            FlowView {
                duration: elapsed(flow.start_time, now),
                state: FlowState::Closed,
                ..flow
            },
            Ok(()),
        )
    }
}

/// `first_unclosed` is the position before which every round is closed and at which none is.
proof fn lemma_first_unclosed_is(rounds: Seq<RoundView>, k: int)
    requires
        0 <= k <= rounds.len(),
        forall|j: int| 0 <= j < k ==> (#[trigger] rounds[j]).state == RoundState::Closed,
        k < rounds.len() ==> rounds[k].state != RoundState::Closed,
    ensures
        first_unclosed(rounds) == k,
    decreases rounds.len(),
{
    if k > 0 {
        let rest = rounds.skip(1);
        assert forall|j: int| 0 <= j < k - 1 implies (#[trigger] rest[j]).state
            == RoundState::Closed by {
            assert(rest[j] == rounds[j + 1]);
        }
        if k - 1 < rest.len() {
            assert(rest[k - 1] == rounds[k]);
        }
        lemma_first_unclosed_is(rest, k - 1);
        assert(rounds[0].state == RoundState::Closed);
    }
}

/// Where every round is closed, none comes first among the unclosed, and
/// where one is not, the first such round is not closed.
pub proof fn lemma_first_unclosed(rounds: Seq<RoundView>)
    ensures
        first_unclosed(rounds) <= rounds.len(),
        forall|j: int|
            0 <= j < first_unclosed(rounds) ==> (#[trigger] rounds[j]).state
                == RoundState::Closed,
        first_unclosed(rounds) < rounds.len() ==> rounds[first_unclosed(rounds) as int].state
            != RoundState::Closed,
    decreases rounds.len(),
{
    if rounds.len() > 0 && rounds[0].state == RoundState::Closed {
        let rest = rounds.skip(1);
        lemma_first_unclosed(rest);
        assert forall|j: int| 0 <= j < first_unclosed(rounds) implies (#[trigger] rounds[j]).state
            == RoundState::Closed by {
            if j > 0 {
                assert(rounds[j] == rest[j - 1]);
            }
        }
        if first_unclosed(rounds) < rounds.len() {
            assert(rounds[first_unclosed(rounds) as int] == rest[first_unclosed(rest) as int]);
        }
    }
}

/// Closing needs every round closed. A flow without rounds cannot be
/// closed, and a flow whose last round is not closed cannot either. An
/// open flow with rounds that are all closed can: it is then closed, its
/// rounds are as they were, and its duration is the time since it was
/// opened, which is never negative and never more than `now`.
pub proof fn law_close_needs_closed_rounds(flow: FlowView, now: u64)
    ensures
        flow.rounds.len() == 0 ==> flow_closed(flow, now) == (
            flow,
            Err::<(), CascadeErrorView>(CascadeErrorView::NoRounds),
        ),
        flow.rounds.len() > 0 && flow.rounds.last().state != RoundState::Closed ==> flow_closed(
            flow,
            now,
        ).0 == flow && flow_closed(flow, now).1 is Err && flow_closed(flow, now).1->Err_0
            is RoundNotClosed,
        flow.state == FlowState::Open && flow.rounds.len() > 0 && (forall|j: int|
            0 <= j < flow.rounds.len() ==> (#[trigger] flow.rounds[j]).state
                == RoundState::Closed) ==> {
            &&& flow_closed(flow, now).1 is Ok
            &&& flow_closed(flow, now).0.state == FlowState::Closed
            &&& flow_closed(flow, now).0.rounds == flow.rounds
            &&& 0 <= flow_closed(flow, now).0.duration <= now
            &&& now >= flow.start_time ==> flow_closed(flow, now).0.duration == now
                - flow.start_time
        },
{
    lemma_first_unclosed(flow.rounds);
}

impl CascadeFlow {
    /// Whether `other` is this flow but for its rounds.
    pub open spec fn same_frame(&self, other: &CascadeFlow) -> bool {
        &&& self.cascade_name == other.cascade_name
        &&& self.start_time == other.start_time
        &&& self.duration == other.duration
        &&& self.state == other.state
    }

    /// A flow without rounds that has not been opened.
    pub fn new(cascade_name: &str) -> (flow: CascadeFlow)
        ensures
            flow@ == (FlowView {
                cascade_name: cascade_name@,
                rounds: Seq::empty(),
                start_time: 0,
                duration: 0,
                state: FlowState::Unopened,
            }),
    {
        let flow = CascadeFlow {
            cascade_name: cascade_name.to_owned(),
            rounds: Vec::new(),
            start_time: 0,
            duration: 0,
            state: FlowState::Unopened,
        };
        assert(flow@.rounds =~= Seq::empty());
        flow
    }

    /// Opens the flow at time `now`. Its duration counts from here.
    pub fn open_cascade(&mut self, now: u64)
        ensures
            *final(self) == (CascadeFlow {
                start_time: now,
                state: FlowState::Open,
                ..*old(self)
            }),
    {
        self.start_time = now;
        self.state = FlowState::Open;
    }

    /// Closes the flow at time `now`.
    ///
    /// A flow without rounds cannot be closed, nor one that has a round
    /// that is not closed, nor one that is not open; the flow then stays
    /// as it is. A closed flow holds the time for which it was open.
    pub fn close_cascade(&mut self, now: u64) -> (result: Result<(), CascadeError>)
        ensures
            (final(self)@, result_view(result)) == flow_closed(old(self)@, now),
            result is Err ==> *final(self) == *old(self),
            final(self).rounds == old(self).rounds,
            final(self).cascade_name == old(self).cascade_name,
    {
        if self.rounds.len() == 0 {
            return Err(CascadeError::NoRounds);
        }
        let mut i: usize = 0;
        while i < self.rounds.len()
            invariant
                i <= self.rounds.len(),
                forall|j: int| 0 <= j < i ==> (#[trigger] self@.rounds[j]).state
                    == RoundState::Closed,
            decreases self.rounds.len() - i,
        {
            match self.rounds[i].state {
                RoundState::Closed => {
                    assert(self@.rounds[i as int].state == RoundState::Closed);
                },
                _ => {
                    proof {
                        assert(self@.rounds[i as int].state != RoundState::Closed);
                        lemma_first_unclosed_is(self@.rounds, i as int);
                    }
                    return Err(CascadeError::RoundNotClosed(i));
                },
            }
            i += 1;
        }
        proof {
            lemma_first_unclosed_is(self@.rounds, i as int);
        }
        match self.state {
            FlowState::Open => {},
            _ => {
                return Err(CascadeError::CascadeNotOpen);
            },
        }
        self.duration = if now >= self.start_time {
            now - self.start_time
        } else {
            0
        };
        self.state = FlowState::Closed;
        Ok(())
    }

    /// Adds an unopened round for `task` after the rounds that are there.
    pub fn new_round(&mut self, task: &str) -> (round: &mut CascadeRound)
        ensures
            round.task@ == task@,
            round.steps@.len() == 0,
            round.step_separator == Some(' '),
            round.state == RoundState::Unopened,
            !round.step_in_progress,
            final(self).rounds@ == old(self).rounds@.push(*final(round)),
            final(self).same_frame(old(self)),
    {
        self.rounds.push(CascadeRound::new(task));
        let n = self.rounds.len();
        &mut self.rounds[n - 1]
    }

    /// The round added last.
    pub fn last_round(&mut self) -> (round: Result<&mut CascadeRound, CascadeError>)
        ensures
            old(self).rounds@.len() == 0 ==> round == Err::<&mut CascadeRound, CascadeError>(
                CascadeError::NoRounds,
            ) && *final(self) == *old(self),
            old(self).rounds@.len() > 0 ==> (round matches Ok(r) && *r == old(self).rounds@.last() && final(self).rounds@ == old(self).rounds@.update(
                old(self).rounds@.len() - 1,
                *final(r),
            ) && final(self).same_frame(old(self))),
    {
        let n = self.rounds.len();
        if n == 0 {
            Err(CascadeError::NoRounds)
        } else {
            Ok(&mut self.rounds[n - 1])
        }
    }

    /// The value of the step that ran last, in whatever round.
    ///
    /// There is none where no step has run, and none where the step that
    /// ran last found that there is no answer.
    pub fn primitive_result(&self) -> (value: Option<String>)
        ensures
            opt_view(value) == match current_result(self@.rounds) {
                Some(v) => v,
                None => None,
            },
    {
        let mut i: usize = self.rounds.len();
        assert(self@.rounds.take(i as int) =~= self@.rounds);
        while i > 0
            invariant
                i <= self.rounds.len(),
                current_result(self@.rounds) == current_result(self@.rounds.take(i as int)),
            decreases i,
        {
            proof {
                let now = self@.rounds.take(i as int);
                assert(now.drop_last() =~= self@.rounds.take(i - 1));
                assert(now.last() == self.rounds@[i - 1]@);
            }
            match self.rounds[i - 1].primitive_result() {
                Some(value) => {
                    return value;
                },
                None => {},
            }
            i -= 1;
        }
        assert(self@.rounds.take(0) =~= Seq::empty());
        None
    }
}

} // verus!
