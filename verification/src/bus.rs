//! The sending side of the message bus: what is waiting to be handed to the workers,
//! and which messages are still waiting for a reply.

use vstd::prelude::*;

use crate::dto::{TestCase, TestSuite};
use crate::messages::WorkerMessage;

verus! {

/// The sum of `w` over the messages.
pub open spec fn weight_sum(msgs: Seq<WorkerMessage>, w: spec_fn(WorkerMessage) -> nat) -> nat
    decreases msgs.len(),
{
    if msgs.len() == 0 {
        0
    } else {
        weight_sum(msgs.drop_last(), w) + w(msgs.last())
    }
}

pub proof fn lemma_weight_sum_push(msgs: Seq<WorkerMessage>, m: WorkerMessage, w: spec_fn(WorkerMessage) -> nat)
    ensures
        weight_sum(msgs.push(m), w) == weight_sum(msgs, w) + w(m),
{
    assert(msgs.push(m).drop_last() =~= msgs);
}

pub proof fn lemma_weight_sum_concat(
    a: Seq<WorkerMessage>,
    b: Seq<WorkerMessage>,
    w: spec_fn(WorkerMessage) -> nat,
)
    ensures
        weight_sum(a + b, w) == weight_sum(a, w) + weight_sum(b, w),
    decreases b.len(),
{
    if b.len() == 0 {
        assert(a + b =~= a);
    } else {
        lemma_weight_sum_concat(a, b.drop_last(), w);
        assert((a + b).drop_last() =~= a + b.drop_last());
        assert((a + b).last() == b.last());
    }
}

pub proof fn lemma_weight_sum_remove(msgs: Seq<WorkerMessage>, i: int, w: spec_fn(WorkerMessage) -> nat)
    requires
        0 <= i < msgs.len(),
    ensures
        weight_sum(msgs.remove(i), w) + w(msgs[i]) == weight_sum(msgs, w),
    decreases msgs.len(),
{
    if i == msgs.len() - 1 {
        assert(msgs.remove(i) =~= msgs.drop_last());
    } else {
        lemma_weight_sum_remove(msgs.drop_last(), i, w);
        assert(msgs.remove(i).drop_last() =~= msgs.drop_last().remove(i));
        assert(msgs.remove(i).last() == msgs.last());
    }
}

/// The messages that hand out the cases of the suite at `suite_index`: a case with
/// a skip clause is first checked against it, any other case is run.
pub open spec fn case_messages(suite_index: usize, cases: Seq<TestCase>) -> Seq<WorkerMessage> {
    Seq::new(
        cases.len(),
        |c: int|
            if cases[c].skip is Some {
                WorkerMessage::CaseSkip { suite_index, case_index: c as usize }
            } else {
                WorkerMessage::CaseRun { suite_index, case_index: c as usize }
            },
    )
}

/// The messages of one case, as `case_messages` gives them.
pub open spec fn case_message(suite_index: usize, case_index: usize, case: TestCase) -> WorkerMessage {
    if case.skip is Some {
        WorkerMessage::CaseSkip { suite_index, case_index }
    } else {
        WorkerMessage::CaseRun { suite_index, case_index }
    }
}

/// Messages waiting to be handed to the workers, and messages that await a reply.
#[derive(Debug)]
pub struct MessageSender {
    pub outbox: Vec<WorkerMessage>,
    pub in_flight: Vec<WorkerMessage>,
}

impl MessageSender {
    pub fn new() -> (s: MessageSender)
        ensures
            s.outbox@.len() == 0,
            s.in_flight@.len() == 0,
    {
        MessageSender { outbox: Vec::new(), in_flight: Vec::new() }
    }

    fn send(&mut self, message: WorkerMessage)
        ensures
            final(self).outbox@ == old(self).outbox@.push(message),
            final(self).in_flight@ == old(self).in_flight@.push(message),
    {
        self.outbox.push(message);
        self.in_flight.push(message);
    }

    /// Asks for a suite's skip clause to be checked.
    pub fn send_suite_skip(&mut self, suite_index: usize)
        ensures
            final(self).outbox@ == old(self).outbox@.push(WorkerMessage::SuiteSkip { suite_index }),
            final(self).in_flight@ == old(self).in_flight@.push(
                WorkerMessage::SuiteSkip { suite_index },
            ),
    {
        self.send(WorkerMessage::suite_skip(suite_index));
    }

    /// Asks for a case's skip clause to be checked.
    pub fn send_case_skip(&mut self, suite_index: usize, case_index: usize)
        ensures
            final(self).outbox@ == old(self).outbox@.push(
                WorkerMessage::CaseSkip { suite_index, case_index },
            ),
            final(self).in_flight@ == old(self).in_flight@.push(
                WorkerMessage::CaseSkip { suite_index, case_index },
            ),
    {
        self.send(WorkerMessage::case_skip(suite_index, case_index));
    }

    /// Asks for a case to be run.
    pub fn send_case_run(&mut self, suite_index: usize, case_index: usize)
        ensures
            final(self).outbox@ == old(self).outbox@.push(
                WorkerMessage::CaseRun { suite_index, case_index },
            ),
            final(self).in_flight@ == old(self).in_flight@.push(
                WorkerMessage::CaseRun { suite_index, case_index },
            ),
    {
        self.send(WorkerMessage::case_run(suite_index, case_index));
    }

    /// Hands out every case of a suite: a case with a skip clause has its clause
    /// checked first, any other case is run.
    pub fn send_suite(&mut self, suite_index: usize, suite: &TestSuite)
        ensures
            final(self).outbox@ == old(self).outbox@ + case_messages(suite_index, suite.cases@),
            final(self).in_flight@ == old(self).in_flight@ + case_messages(
                suite_index,
                suite.cases@,
            ),
    {
        let cases = suite.cases();
        let mut case_index: usize = 0;
        while case_index < cases.len()
            invariant
                cases == &suite.cases,
                case_index <= cases.len(),
                self.outbox@ =~= old(self).outbox@ + case_messages(suite_index, cases@).take(
                    case_index as int,
                ),
                self.in_flight@ =~= old(self).in_flight@ + case_messages(
                    suite_index,
                    cases@,
                ).take(case_index as int),
            decreases cases.len() - case_index,
        {
            let ghost all = case_messages(suite_index, cases@);
            proof {
                assert(all.take(case_index + 1) =~= all.take(case_index as int).push(
                    all[case_index as int],
                ));
            }
            if cases[case_index].skip().is_some() {
                self.send_case_skip(suite_index, case_index);
            } else {
                self.send_case_run(suite_index, case_index);
            }
            case_index = case_index + 1;
        }
        assert(case_messages(suite_index, cases@).take(cases.len() as int) =~= case_messages(
            suite_index,
            cases@,
        ));
    }

    /// Records the reply to `answered`: that message no longer awaits one.
    pub fn dec_messages(&mut self, answered: WorkerMessage)
        requires
            old(self).in_flight@.contains(answered),
        ensures
            final(self).outbox@ == old(self).outbox@,
            exists|i: int|
                0 <= i < old(self).in_flight@.len() && old(self).in_flight@[i] == answered
                    && final(self).in_flight@ == old(self).in_flight@.remove(i),
    {
        let mut i: usize = 0;
        while i < self.in_flight.len()
            invariant
                self.in_flight@ == old(self).in_flight@,
                self.outbox@ == old(self).outbox@,
                old(self).in_flight@.contains(answered),
                i <= self.in_flight@.len(),
                forall|k: int| 0 <= k < i ==> self.in_flight@[k] != answered,
            decreases self.in_flight.len() - i,
        {
            if self.in_flight[i] == answered {
                self.in_flight.remove(i);
                return;
            }
            i = i + 1;
        }
    }

    /// Whether some message still awaits its reply.
    pub fn has_messages(&self) -> (b: bool)
        ensures
            b == (self.in_flight@.len() > 0),
    {
        self.in_flight.len() > 0
    }

    /// The number of messages that await a reply.
    pub fn n_messages(&self) -> (n: usize)
        ensures
            n == self.in_flight@.len(),
    {
        self.in_flight.len()
    }

    /// Hands out the messages not yet given to the workers, in the order they were
    /// sent, and forgets them; they still await their replies.
    pub fn take_messages(&mut self) -> (messages: Vec<WorkerMessage>)
        ensures
            messages@ == old(self).outbox@,
            final(self).outbox@.len() == 0,
            final(self).in_flight@ == old(self).in_flight@,
    {
        let mut taken: Vec<WorkerMessage> = Vec::new();
        std::mem::swap(&mut taken, &mut self.outbox);
        taken
    }
}

} // verus!
