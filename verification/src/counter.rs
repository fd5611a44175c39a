//! The counter-attack minigame: a timed sequence of required input tokens,
//! consumed front to back. A wrong token or an expired countdown fails the
//! challenge; exhausting the sequence wins it. At most one challenge is
//! active at a time, and the world suspends normal combat while one runs.

use vstd::prelude::*;
use crate::arena::EnemyHandle;
use crate::timer::{Timer, TimerMode, DT_LIMIT, DURATION_LIMIT};

verus! {

/// One discrete input of the minigame; exactly two identities exist.
#[derive(Clone, Copy, PartialEq, Eq, Structural, Debug)]
pub enum InputToken {
    Primary,
    Secondary,
}

/// Where a challenge stands after a step.
#[derive(Clone, Copy, PartialEq, Eq, Structural, Debug)]
pub enum ChallengeStatus {
    Pending,
    Success,
    Failure,
}

/// How a sequence of inputs resolves against the required tokens: inputs
/// are matched front to back; the first mismatch fails, exhausting the
/// required tokens succeeds, and running out of inputs first leaves the
/// challenge pending.
pub open spec fn spec_outcome(required: Seq<InputToken>, inputs: Seq<InputToken>) -> ChallengeStatus
    decreases inputs.len(),
{
    if required.len() == 0 {
        ChallengeStatus::Success
    } else if inputs.len() == 0 {
        ChallengeStatus::Pending
    } else if inputs[0] == required[0] {
        spec_outcome(required.drop_first(), inputs.drop_first())
    } else {
        ChallengeStatus::Failure
    }
}

/// An input sequence that repeats the required tokens exactly always wins
/// the challenge.
pub proof fn lemma_exact_inputs_succeed(required: Seq<InputToken>)
    ensures
        spec_outcome(required, required) == ChallengeStatus::Success,
    decreases required.len(),
{
    if required.len() > 0 {
        lemma_exact_inputs_succeed(required.drop_first());
    }
}

/// An input sequence that first diverges from the required tokens at any
/// position within them always fails the challenge.
pub proof fn lemma_mismatched_input_fails(required: Seq<InputToken>, inputs: Seq<InputToken>, i: int)
    requires
        0 <= i < required.len(),
        i < inputs.len(),
        forall|j: int| 0 <= j < i ==> inputs[j] == required[j],
        inputs[i] != required[i],
    ensures
        spec_outcome(required, inputs) == ChallengeStatus::Failure,
    decreases i,
{
    if i > 0 {
        lemma_mismatched_input_fails(required.drop_first(), inputs.drop_first(), i - 1);
    }
}

/// The active minigame session: the target's identity, the required
/// tokens (those before `next` are already consumed), and the countdown.
pub struct CounterAttackChallenge {
    pub target: EnemyHandle,
    pub tokens: Vec<InputToken>,
    pub next: usize,
    pub timer: Timer,
}

impl CounterAttackChallenge {
    pub open spec fn wf(self) -> bool {
        &&& 1 <= self.tokens@.len() <= 1000
        &&& self.next <= self.tokens@.len()
        &&& self.timer.wf()
    }

    /// The tokens still to be entered, front to back.
    pub open spec fn remaining(self) -> Seq<InputToken> {
        self.tokens@.skip(self.next as int)
    }

    pub fn new(target: EnemyHandle, tokens: Vec<InputToken>, duration_ms: i64) -> (r:
        CounterAttackChallenge)
        requires
            1 <= tokens@.len() <= 1000,
            0 < duration_ms <= DURATION_LIMIT,
        ensures
            r.target == target,
            r.tokens == tokens,
            r.next == 0,
            r.remaining() == tokens@,
            r.timer == (Timer {
                duration_ms,
                elapsed_ms: 0,
                mode: TimerMode::Once,
                just_finished: false,
            }),
            r.wf(),
    {
        let r = CounterAttackChallenge {
            target,
            tokens,
            next: 0,
            timer: Timer::new(duration_ms, TimerMode::Once),
        };
        proof {
            assert(r.remaining() =~= r.tokens@);
        }
        r
    }

    /// Advances the countdown.
    pub fn tick_timer(&mut self, dt: i64)
        requires
            old(self).wf(),
            0 <= dt <= DT_LIMIT,
        ensures
            *final(self) == (CounterAttackChallenge {
                timer: old(self).timer.spec_tick(dt as int),
                ..*old(self)
            }),
            final(self).wf(),
    {
        self.timer.tick(dt);
    }

    /// The countdown ran out with tokens still required.
    pub fn timed_out(&self) -> (r: bool)
        requires
            self.wf(),
        ensures
            r == (self.timer.just_finished && self.remaining().len() > 0),
    {
        self.timer.just_finished() && self.next < self.tokens.len()
    }

    /// Consumes one input: the next required token advances the sequence
    /// (winning when it was the last), anything else fails at once and
    /// changes nothing.
    pub fn feed_token(&mut self, t: InputToken) -> (r: ChallengeStatus)
        requires
            old(self).wf(),
            old(self).remaining().len() > 0,
        ensures
            final(self).wf(),
            r == spec_outcome(old(self).remaining(), seq![t]),
            t == old(self).remaining()[0] ==> *final(self) == (CounterAttackChallenge {
                next: (old(self).next + 1) as usize,
                ..*old(self)
            }) && final(self).remaining() == old(self).remaining().drop_first(),
            t != old(self).remaining()[0] ==> *final(self) == *old(self) && r
                == ChallengeStatus::Failure,
            r == ChallengeStatus::Success <==> (t == old(self).remaining()[0] && old(
                self,
            ).remaining().len() == 1),
            r == ChallengeStatus::Failure <==> t != old(self).remaining()[0],
            r == ChallengeStatus::Pending <==> (t == old(self).remaining()[0] && old(
                self,
            ).remaining().len() > 1),
    {
        let expected = self.tokens[self.next];
        assert(expected == self.remaining()[0]);
        if t == expected {
            self.next = self.next + 1;
            proof {
                assert(self.remaining() =~= old(self).remaining().drop_first());
                if old(self).remaining().len() == 1 {
                    assert(spec_outcome(old(self).remaining(), seq![t])
                        == spec_outcome(old(self).remaining().drop_first(), seq![t].drop_first()));
                    assert(old(self).remaining().drop_first().len() == 0);
                }
            }
            if self.next == self.tokens.len() {
                ChallengeStatus::Success
            } else {
                ChallengeStatus::Pending
            }
        } else {
            ChallengeStatus::Failure
        }
    }
}

} // verus!
