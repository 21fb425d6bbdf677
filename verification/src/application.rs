//! The decisions of a test run: which work to hand to the workers, what each reply
//! means for the report and for the run's status, and when the run is over.
//! The caller performs the work (sending messages, receiving replies, printing) and
//! hands each reply back.

use vstd::prelude::*;

use crate::bus::{
    case_messages, lemma_weight_sum_concat, lemma_weight_sum_push, lemma_weight_sum_remove,
    weight_sum, MessageSender,
};
use crate::dto::{display_name, TestCase, TestSuite};
use crate::messages::{answered_message, reply_result, WorkerMessage, WorkerReply};
use crate::output::{
    case_shown, counted, events_view, suite_shown, EventView, Output, OutputEvent, TestCounters,
};
use crate::query::QueryResult;

verus! {

/// How a run ended: every case passed or was skipped, or something failed.
#[derive(Debug, Clone, Copy, PartialEq, Eq, Structural)]
pub enum ApplicationStatus {
    Success,
    Fail,
}

/// The number of cases of all suites.
pub open spec fn total_cases(suites: Seq<TestSuite>) -> nat
    decreases suites.len(),
{
    if suites.len() == 0 {
        0
    } else {
        total_cases(suites.drop_last()) + suites.last().cases@.len()
    }
}

/// The message names a suite, and a case of it, that exist.
pub open spec fn message_valid(suites: Seq<TestSuite>, m: WorkerMessage) -> bool {
    match m {
        WorkerMessage::SuiteSkip { suite_index } => suite_index < suites.len(),
        WorkerMessage::CaseSkip { suite_index, case_index } => suite_index < suites.len()
            && case_index < suites[suite_index as int].cases@.len(),
        WorkerMessage::CaseRun { suite_index, case_index } => suite_index < suites.len()
            && case_index < suites[suite_index as int].cases@.len(),
    }
}

/// The number of cases whose fate a message decides: all cases of its suite for a
/// suite's skip clause, one case otherwise.
pub open spec fn case_weight(suites: Seq<TestSuite>) -> spec_fn(WorkerMessage) -> nat {
    |m: WorkerMessage|
        match m {
            WorkerMessage::SuiteSkip { suite_index } => suites[suite_index as int].cases@.len(),
            _ => 1nat,
        }
}

/// A bound on the messages that a message and all the work it may lead to can take:
/// a suite's skip clause may lead to two messages per case, a case's skip clause to one
/// more message, running a case to none.
pub open spec fn potential(suites: Seq<TestSuite>) -> spec_fn(WorkerMessage) -> nat {
    |m: WorkerMessage|
        match m {
            WorkerMessage::SuiteSkip { suite_index } => (1 + 2 * suites[suite_index as int].cases@.len()) as nat,
            WorkerMessage::CaseSkip { .. } => 2nat,
            WorkerMessage::CaseRun { .. } => 1nat,
        }
}

/// The messages that start a suite: its skip clause if it has one, otherwise its cases.
pub open spec fn suite_messages(suite_index: usize, suite: TestSuite) -> Seq<WorkerMessage> {
    if suite.skip is Some {
        seq![WorkerMessage::SuiteSkip { suite_index }]
    } else {
        case_messages(suite_index, suite.cases@)
    }
}

/// The messages that start the first `k` suites.
pub open spec fn start_messages(suites: Seq<TestSuite>, k: int) -> Seq<WorkerMessage>
    decreases k,
{
    if k <= 0 {
        Seq::<WorkerMessage>::empty()
    } else {
        start_messages(suites, k - 1) + suite_messages((k - 1) as usize, suites[k - 1])
    }
}

/// The report events of starting the first `k` suites: a suite without a skip clause
/// is reported as started.
pub open spec fn start_events(suites: Seq<TestSuite>, k: int) -> Seq<EventView>
    decreases k,
{
    if k <= 0 {
        Seq::<EventView>::empty()
    } else if suites[k - 1].skip is Some {
        start_events(suites, k - 1)
    } else {
        start_events(suites, k - 1).push(EventView::SuiteStarted { suite: suite_shown(suites[k - 1]) })
    }
}

/// The message text of a failed or erroneous result.
pub open spec fn result_message(r: QueryResult) -> Seq<char> {
    match r {
        QueryResult::Fail { message } => message@,
        QueryResult::Error { message } => message@,
        QueryResult::Success => Seq::<char>::empty(),
    }
}

/// The work that a reply leads to: a suite whose skip clause did not hold has all its
/// cases handed out; a case whose skip clause did not hold is run.
pub open spec fn follow_up(suites: Seq<TestSuite>, reply: WorkerReply) -> Seq<WorkerMessage> {
    match reply {
        WorkerReply::SuiteSkip { suite_index, result } => if result is Fail {
            case_messages(suite_index, suites[suite_index as int].cases@)
        } else {
            Seq::<WorkerMessage>::empty()
        },
        WorkerReply::CaseSkip { suite_index, case_index, result } => if result is Fail {
            seq![WorkerMessage::CaseRun { suite_index, case_index }]
        } else {
            Seq::<WorkerMessage>::empty()
        },
        WorkerReply::CaseRun { .. } => Seq::<WorkerMessage>::empty(),
    }
}

/// What a reply adds to the report.
pub open spec fn reply_events(suites: Seq<TestSuite>, reply: WorkerReply) -> Seq<EventView> {
    match reply {
        WorkerReply::SuiteSkip { suite_index, result } => {
            let suite = suite_shown(suites[suite_index as int]);
            match result {
                QueryResult::Success => seq![EventView::SuiteSkipped { suite }],
                QueryResult::Fail { .. } => seq![EventView::SuiteStarted { suite }],
                QueryResult::Error { message } => seq![
                    EventView::SuiteError { suite, message: message@ },
                ],
            }
        },
        WorkerReply::CaseSkip { suite_index, case_index, result } => {
            let suite = suite_shown(suites[suite_index as int]);
            let case = case_shown(suites[suite_index as int].cases@[case_index as int]);
            match result {
                QueryResult::Success => seq![EventView::CaseSkipped { suite, case }],
                QueryResult::Fail { .. } => Seq::<EventView>::empty(),
                QueryResult::Error { message } => seq![
                    EventView::CaseError { suite, case, message: message@ },
                ],
            }
        },
        WorkerReply::CaseRun { suite_index, case_index, result } => {
            let suite = suite_shown(suites[suite_index as int]);
            let case = case_shown(suites[suite_index as int].cases@[case_index as int]);
            match result {
                QueryResult::Success => seq![EventView::CasePassed { suite, case }],
                _ => seq![EventView::CaseFailed { suite, case, message: result_message(result) }],
            }
        },
    }
}

/// The counters after a reply.
pub open spec fn counters_after(c: TestCounters, suites: Seq<TestSuite>, reply: WorkerReply) -> TestCounters {
    match reply {
        WorkerReply::SuiteSkip { suite_index, result } => {
            let n = suites[suite_index as int].cases@.len();
            match result {
                QueryResult::Success => TestCounters { skipped: (c.skipped + n) as usize, ..c },
                QueryResult::Fail { .. } => c,
                QueryResult::Error { .. } => TestCounters { skipped: (c.skipped + n) as usize, ..c },
            }
        },
        WorkerReply::CaseSkip { result, .. } => match result {
            QueryResult::Success => TestCounters { skipped: (c.skipped + 1) as usize, ..c },
            QueryResult::Fail { .. } => c,
            QueryResult::Error { .. } => TestCounters { skipped: (c.skipped + 1) as usize, ..c },
        },
        WorkerReply::CaseRun { result, .. } => match result {
            QueryResult::Success => TestCounters { passed: (c.passed + 1) as usize, ..c },
            _ => TestCounters { failed: (c.failed + 1) as usize, ..c },
        },
    }
}

/// The reply reports a failed case: one whose result did not meet the expectation, or
/// whose query could not be run. A skip clause that could not be checked skips its
/// suite or case, and fails nothing.
pub open spec fn reply_fails(reply: WorkerReply) -> bool {
    match reply {
        WorkerReply::SuiteSkip { .. } => false,
        WorkerReply::CaseSkip { .. } => false,
        WorkerReply::CaseRun { result, .. } => !(result is Success),
    }
}

/// The state of a test run.
#[derive(Debug)]
pub struct Application {
    pub suites: Vec<TestSuite>,
    pub output: Output,
    pub sender: MessageSender,
    pub status: ApplicationStatus,
    pub started: bool,
}

proof fn lemma_case_messages_weights(suites: Seq<TestSuite>, s: usize, cases: Seq<TestCase>)
    ensures
        weight_sum(case_messages(s, cases), case_weight(suites)) == cases.len(),
        weight_sum(case_messages(s, cases), potential(suites)) <= 2 * cases.len(),
    decreases cases.len(),
{
    if cases.len() > 0 {
        let msgs = case_messages(s, cases);
        lemma_case_messages_weights(suites, s, cases.drop_last());
        assert(msgs.drop_last() =~= case_messages(s, cases.drop_last()));
    }
}

proof fn lemma_case_messages_valid(suites: Seq<TestSuite>, s: usize)
    requires
        s < suites.len(),
    ensures
        forall|i: int|
            0 <= i < case_messages(s, suites[s as int].cases@).len() ==> message_valid(
                suites,
                #[trigger] case_messages(s, suites[s as int].cases@)[i],
            ),
{
}

proof fn lemma_total_cases_take(suites: Seq<TestSuite>, k: int)
    requires
        0 <= k < suites.len(),
    ensures
        total_cases(suites.take(k + 1)) == total_cases(suites.take(k)) + suites[k].cases@.len(),
{
    assert(suites.take(k + 1).drop_last() =~= suites.take(k));
}

proof fn lemma_total_cases_bound(suites: Seq<TestSuite>, s: int)
    requires
        0 <= s < suites.len(),
    ensures
        suites[s].cases@.len() <= total_cases(suites),
    decreases suites.len(),
{
    if s < suites.len() - 1 {
        lemma_total_cases_bound(suites.drop_last(), s);
    }
}

impl Application {
    /// The invariant of a run.
    pub open spec fn wf(&self) -> bool {
        let suites = self.suites@;
        let in_flight = self.sender.in_flight@;
        let c = self.output.counters;
        &&& total_cases(suites) <= usize::MAX
        &&& forall|i: int| 0 <= i < in_flight.len() ==> message_valid(suites, #[trigger] in_flight[i])
        &&& forall|i: int|
            0 <= i < self.sender.outbox@.len() ==> message_valid(suites, #[trigger] self.sender.outbox@[i])
        &&& self.started ==> counted(c) + weight_sum(in_flight, case_weight(suites)) == total_cases(suites)
        &&& !self.started ==> counted(c) == 0 && in_flight.len() == 0
        &&& (self.status == ApplicationStatus::Fail <==> c.failed > 0)
    }

    /// A run of `suites`, reported through `output`, that has not started: nothing sent,
    /// nothing counted.
    pub fn new(suites: Vec<TestSuite>, output: Output) -> (app: Application)
        requires
            total_cases(suites@) <= usize::MAX,
            counted(output.counters) == 0,
            output.events@.len() == 0,
        ensures
            app.output == output,
            app.wf(),
            !app.started,
            app.suites@ == suites@,
            app.status == ApplicationStatus::Success,
            counted(app.output.counters) == 0,
            app.output.events@.len() == 0,
            app.sender.outbox@.len() == 0,
            app.sender.in_flight@.len() == 0,
    {
        Application {
            suites,
            output,
            sender: MessageSender::new(),
            status: ApplicationStatus::Success,
            started: false,
        }
    }

    /// Reports the start of the run.
    pub fn header(&mut self)
        requires
            old(self).wf(),
        ensures
            final(self).wf(),
            final(self).suites@ == old(self).suites@,
            final(self).started == old(self).started,
            final(self).status == old(self).status,
            final(self).output.counters == old(self).output.counters,
            final(self).sender.outbox@ == old(self).sender.outbox@,
            final(self).sender.in_flight@ == old(self).sender.in_flight@,
            events_view(final(self).output.events@) == events_view(old(self).output.events@).push(
                EventView::Header,
            ),
    {
        self.output.header();
    }

    /// Reports the end of the run with its counts.
    pub fn footer(&mut self)
        requires
            old(self).wf(),
        ensures
            final(self).wf(),
            final(self).suites@ == old(self).suites@,
            final(self).started == old(self).started,
            final(self).status == old(self).status,
            final(self).output.counters == old(self).output.counters,
            final(self).sender.outbox@ == old(self).sender.outbox@,
            final(self).sender.in_flight@ == old(self).sender.in_flight@,
            events_view(final(self).output.events@) == events_view(old(self).output.events@).push(
                EventView::Footer {
                    passed: old(self).output.counters.passed as nat,
                    skipped: old(self).output.counters.skipped as nat,
                    failed: old(self).output.counters.failed as nat,
                },
            ),
    {
        self.output.footer();
    }

    /// Starts every suite: a suite with a skip clause has the clause checked first;
    /// any other suite is reported as started and has its cases handed out.
    pub fn send_start_suites(&mut self)
        requires
            old(self).wf(),
            !old(self).started,
        ensures
            final(self).wf(),
            final(self).started,
            final(self).suites@ == old(self).suites@,
            final(self).status == old(self).status,
            final(self).output.counters == old(self).output.counters,
            final(self).sender.in_flight@ == start_messages(old(self).suites@, old(self).suites@.len() as int),
            final(self).sender.outbox@ == old(self).sender.outbox@ + start_messages(
                old(self).suites@,
                old(self).suites@.len() as int,
            ),
            events_view(final(self).output.events@) == events_view(old(self).output.events@)
                + start_events(old(self).suites@, old(self).suites@.len() as int),
    {
        let ghost suites = self.suites@;
        let ghost old_outbox = self.sender.outbox@;
        let ghost old_events = events_view(self.output.events@);
        let mut k: usize = 0;
        assert(suites.take(0) =~= Seq::<TestSuite>::empty());
        assert(self.sender.in_flight@ =~= start_messages(suites, 0));
        assert(self.sender.outbox@ =~= old_outbox + start_messages(suites, 0));
        assert(events_view(self.output.events@) =~= old_events + start_events(suites, 0));
        while k < self.suites.len()
            invariant
                self.suites@ == suites,
                total_cases(suites) <= usize::MAX,
                !self.started,
                self.status == old(self).status,
                self.output.counters == old(self).output.counters,
                counted(self.output.counters) == 0,
                self.status == ApplicationStatus::Fail <==> self.output.counters.failed > 0,
                k <= suites.len(),
                self.sender.in_flight@ == start_messages(suites, k as int),
                self.sender.outbox@ == old_outbox + start_messages(suites, k as int),
                events_view(self.output.events@) == old_events + start_events(suites, k as int),
                weight_sum(self.sender.in_flight@, case_weight(suites)) == total_cases(suites.take(k as int)),
                forall|i: int|
                    0 <= i < self.sender.in_flight@.len() ==> message_valid(
                        suites,
                        #[trigger] self.sender.in_flight@[i],
                    ),
            decreases suites.len() - k,
        {
            let ghost before_flight = self.sender.in_flight@;
            let ghost before_outbox = self.sender.outbox@;
            let ghost before_events = events_view(self.output.events@);
            proof {
                lemma_total_cases_take(suites, k as int);
                lemma_case_messages_valid(suites, k);
                lemma_case_messages_weights(suites, k, suites[k as int].cases@);
            }
            if self.suites[k].skip().is_some() {
                self.sender.send_suite_skip(k);
                proof {
                    lemma_weight_sum_push(before_flight, WorkerMessage::SuiteSkip { suite_index: k }, case_weight(suites));
                    assert(self.sender.in_flight@ =~= start_messages(suites, k + 1));
                    assert(self.sender.outbox@ =~= old_outbox + start_messages(suites, k + 1));
                    assert(events_view(self.output.events@) =~= old_events + start_events(suites, k + 1));
                }
            } else {
                self.output.suite_started(&self.suites[k]);
                self.sender.send_suite(k, &self.suites[k]);
                proof {
                    lemma_weight_sum_concat(before_flight, case_messages(k, suites[k as int].cases@), case_weight(suites));
                    assert(self.sender.in_flight@ =~= start_messages(suites, k + 1));
                    assert(self.sender.outbox@ =~= old_outbox + start_messages(suites, k + 1));
                    assert(events_view(self.output.events@) =~= old_events + start_events(suites, k + 1));
                    assert forall|i: int| 0 <= i < self.sender.in_flight@.len() implies message_valid(
                        suites,
                        #[trigger] self.sender.in_flight@[i],
                    ) by {
                        if i >= before_flight.len() {
                            assert(self.sender.in_flight@[i] == case_messages(k, suites[k as int].cases@)[i - before_flight.len()]);
                        }
                    }
                }
            }
            k = k + 1;
        }
        assert(suites.take(suites.len() as int) =~= suites);
        self.started = true;
    }

    fn on_case_run(&mut self, suite_index: usize, case_index: usize, result: QueryResult)
        requires
            suite_index < old(self).suites@.len(),
            case_index < old(self).suites@[suite_index as int].cases@.len(),
            old(self).output.counters.passed < usize::MAX,
            old(self).output.counters.failed < usize::MAX,
        ensures
            final(self).suites@ == old(self).suites@,
            final(self).started == old(self).started,
            final(self).sender.outbox@ == old(self).sender.outbox@,
            final(self).sender.in_flight@ == old(self).sender.in_flight@,
            final(self).output.counters == counters_after(
                old(self).output.counters,
                old(self).suites@,
                WorkerReply::CaseRun { suite_index, case_index, result },
            ),
            final(self).status == if reply_fails(WorkerReply::CaseRun { suite_index, case_index, result }) {
                ApplicationStatus::Fail
            } else {
                old(self).status
            },
            events_view(final(self).output.events@) == events_view(old(self).output.events@)
                + reply_events(old(self).suites@, WorkerReply::CaseRun { suite_index, case_index, result }),
    {
        let ghost before = events_view(self.output.events@);
        let suite = &self.suites[suite_index];
        let case = &suite.cases()[case_index];
        match result {
            QueryResult::Success => self.output.case_passed(suite, case),
            QueryResult::Fail { message } | QueryResult::Error { message } => {
                self.status = ApplicationStatus::Fail;
                self.output.case_failed(suite, case, message.as_str());
            },
        }
        assert(events_view(self.output.events@) =~= before + reply_events(
            old(self).suites@,
            WorkerReply::CaseRun { suite_index, case_index, result },
        ));
    }

    fn on_case_skip(&mut self, suite_index: usize, case_index: usize, result: QueryResult)
        requires
            suite_index < old(self).suites@.len(),
            case_index < old(self).suites@[suite_index as int].cases@.len(),
            old(self).output.counters.skipped < usize::MAX,
        ensures
            final(self).suites@ == old(self).suites@,
            final(self).started == old(self).started,
            final(self).sender.outbox@ == old(self).sender.outbox@ + follow_up(
                old(self).suites@,
                WorkerReply::CaseSkip { suite_index, case_index, result },
            ),
            final(self).sender.in_flight@ == old(self).sender.in_flight@ + follow_up(
                old(self).suites@,
                WorkerReply::CaseSkip { suite_index, case_index, result },
            ),
            final(self).output.counters == counters_after(
                old(self).output.counters,
                old(self).suites@,
                WorkerReply::CaseSkip { suite_index, case_index, result },
            ),
            final(self).status == if reply_fails(WorkerReply::CaseSkip { suite_index, case_index, result }) {
                ApplicationStatus::Fail
            } else {
                old(self).status
            },
            events_view(final(self).output.events@) == events_view(old(self).output.events@)
                + reply_events(old(self).suites@, WorkerReply::CaseSkip { suite_index, case_index, result }),
    {
        let ghost before = events_view(self.output.events@);
        let ghost before_outbox = self.sender.outbox@;
        let ghost before_flight = self.sender.in_flight@;
        let suite = &self.suites[suite_index];
        let case = &suite.cases()[case_index];
        match result {
            QueryResult::Success => self.output.case_skipped(suite, case),
            QueryResult::Fail { .. } => self.sender.send_case_run(suite_index, case_index),
            QueryResult::Error { message } => self.output.case_error(suite, case, message.as_str()),
        }
        let ghost reply = WorkerReply::CaseSkip { suite_index, case_index, result };
        assert(events_view(self.output.events@) =~= before + reply_events(old(self).suites@, reply));
        assert(self.sender.outbox@ =~= before_outbox + follow_up(old(self).suites@, reply));
        assert(self.sender.in_flight@ =~= before_flight + follow_up(old(self).suites@, reply));
    }

    fn on_suite_skip(&mut self, suite_index: usize, result: QueryResult)
        requires
            suite_index < old(self).suites@.len(),
            old(self).output.counters.skipped + old(self).suites@[suite_index as int].cases@.len() <= usize::MAX,
        ensures
            final(self).suites@ == old(self).suites@,
            final(self).started == old(self).started,
            final(self).sender.outbox@ == old(self).sender.outbox@ + follow_up(
                old(self).suites@,
                WorkerReply::SuiteSkip { suite_index, result },
            ),
            final(self).sender.in_flight@ == old(self).sender.in_flight@ + follow_up(
                old(self).suites@,
                WorkerReply::SuiteSkip { suite_index, result },
            ),
            final(self).output.counters == counters_after(
                old(self).output.counters,
                old(self).suites@,
                WorkerReply::SuiteSkip { suite_index, result },
            ),
            final(self).status == if reply_fails(WorkerReply::SuiteSkip { suite_index, result }) {
                ApplicationStatus::Fail
            } else {
                old(self).status
            },
            events_view(final(self).output.events@) == events_view(old(self).output.events@)
                + reply_events(old(self).suites@, WorkerReply::SuiteSkip { suite_index, result }),
    {
        let ghost before = events_view(self.output.events@);
        let ghost before_outbox = self.sender.outbox@;
        let ghost before_flight = self.sender.in_flight@;
        let suite = &self.suites[suite_index];
        match result {
            QueryResult::Success => self.output.suite_skipped(suite),
            QueryResult::Fail { .. } => {
                self.output.suite_started(suite);
                self.sender.send_suite(suite_index, suite);
            },
            QueryResult::Error { message } => self.output.suite_error(suite, message.as_str()),
        }
        let ghost reply = WorkerReply::SuiteSkip { suite_index, result };
        assert(events_view(self.output.events@) =~= before + reply_events(old(self).suites@, reply));
        assert(self.sender.outbox@ =~= before_outbox + follow_up(old(self).suites@, reply));
        assert(self.sender.in_flight@ =~= before_flight + follow_up(old(self).suites@, reply));
    }

    /// Takes in a worker's reply: the message it answers no longer awaits a reply, and
    /// the result decides what is reported, what work follows, and whether the run
    /// has failed.
    pub fn handle_reply(&mut self, reply: WorkerReply)
        requires
            old(self).wf(),
            old(self).started,
            old(self).sender.in_flight@.contains(answered_message(reply)),
        ensures
            final(self).wf(),
            final(self).started,
            final(self).suites@ == old(self).suites@,
            exists|i: int|
                0 <= i < old(self).sender.in_flight@.len() && old(self).sender.in_flight@[i]
                    == answered_message(reply) && final(self).sender.in_flight@ == old(
                    self,
                ).sender.in_flight@.remove(i) + follow_up(old(self).suites@, reply),
            final(self).sender.outbox@ == old(self).sender.outbox@ + follow_up(old(self).suites@, reply),
            final(self).output.counters == counters_after(old(self).output.counters, old(self).suites@, reply),
            final(self).status == if reply_fails(reply) {
                ApplicationStatus::Fail
            } else {
                old(self).status
            },
            events_view(final(self).output.events@) == events_view(old(self).output.events@)
                + reply_events(old(self).suites@, reply),
            weight_sum(final(self).sender.in_flight@, potential(final(self).suites@)) < weight_sum(
                old(self).sender.in_flight@,
                potential(old(self).suites@),
            ),
    {
        let ghost suites = self.suites@;
        let ghost flight0 = self.sender.in_flight@;
        let ghost the_reply = reply;
        let answered = reply.answered();
        let ghost i0 = choose|i: int| 0 <= i < flight0.len() && flight0[i] == answered;
        assert(message_valid(suites, flight0[i0]));
        self.sender.dec_messages(answered);
        let ghost flight1 = self.sender.in_flight@;
        let ghost i = choose|i: int|
            0 <= i < flight0.len() && flight0[i] == answered && flight1 == flight0.remove(i);
        proof {
            lemma_weight_sum_remove(flight0, i, case_weight(suites));
            lemma_weight_sum_remove(flight0, i, potential(suites));
            assert(message_valid(suites, flight0[i]));
            assert forall|j: int| 0 <= j < flight1.len() implies message_valid(suites, #[trigger] flight1[j]) by {
                if j < i {
                    assert(flight1[j] == flight0[j]);
                } else {
                    assert(flight1[j] == flight0[j + 1]);
                }
            }
        }
        match reply {
            WorkerReply::SuiteSkip { suite_index, result } => {
                proof {
                    lemma_total_cases_bound(suites, suite_index as int);
                }
                self.on_suite_skip(suite_index, result);
            },
            WorkerReply::CaseSkip { suite_index, case_index, result } => {
                self.on_case_skip(suite_index, case_index, result);
            },
            WorkerReply::CaseRun { suite_index, case_index, result } => {
                self.on_case_run(suite_index, case_index, result);
            },
        }
        proof {
            let follow = follow_up(suites, the_reply);
            lemma_weight_sum_concat(flight1, follow, case_weight(suites));
            lemma_weight_sum_concat(flight1, follow, potential(suites));
            match the_reply {
                WorkerReply::SuiteSkip { suite_index, result } => {
                    lemma_case_messages_weights(suites, suite_index, suites[suite_index as int].cases@);
                    lemma_case_messages_valid(suites, suite_index);
                },
                WorkerReply::CaseSkip { suite_index, case_index, result } => {
                    if result is Fail {
                        lemma_weight_sum_push(Seq::<WorkerMessage>::empty(), WorkerMessage::CaseRun { suite_index, case_index }, case_weight(suites));
                        lemma_weight_sum_push(Seq::<WorkerMessage>::empty(), WorkerMessage::CaseRun { suite_index, case_index }, potential(suites));
                        assert(follow =~= Seq::<WorkerMessage>::empty().push(WorkerMessage::CaseRun { suite_index, case_index }));
                    }
                },
                WorkerReply::CaseRun { .. } => {},
            }
            assert forall|j: int| 0 <= j < self.sender.in_flight@.len() implies message_valid(
                suites,
                #[trigger] self.sender.in_flight@[j],
            ) by {
                if j >= flight1.len() {
                    assert(self.sender.in_flight@[j] == follow[j - flight1.len()]);
                }
            }
        }
    }

    /// Whether some message still awaits its reply; the run is over when none does.
    pub fn has_messages(&self) -> (b: bool)
        ensures
            b == (self.sender.in_flight@.len() > 0),
    {
        self.sender.has_messages()
    }

    /// Hands out the messages not yet given to the workers, in the order they were sent.
    pub fn take_messages(&mut self) -> (messages: Vec<WorkerMessage>)
        requires
            old(self).wf(),
        ensures
            final(self).wf(),
            messages@ == old(self).sender.outbox@,
            forall|i: int| 0 <= i < messages@.len() ==> message_valid(final(self).suites@, #[trigger] messages@[i]),
            final(self).sender.outbox@.len() == 0,
            final(self).sender.in_flight@ == old(self).sender.in_flight@,
            final(self).suites@ == old(self).suites@,
            final(self).started == old(self).started,
            final(self).status == old(self).status,
            final(self).output.counters == old(self).output.counters,
            final(self).output.events@ == old(self).output.events@,
    {
        self.sender.take_messages()
    }

    /// Hands out the report events not yet displayed, in order.
    pub fn take_events(&mut self) -> (events: Vec<OutputEvent>)
        requires
            old(self).wf(),
        ensures
            final(self).wf(),
            events@ == old(self).output.events@,
            final(self).output.events@.len() == 0,
            final(self).sender.outbox@ == old(self).sender.outbox@,
            final(self).sender.in_flight@ == old(self).sender.in_flight@,
            final(self).suites@ == old(self).suites@,
            final(self).started == old(self).started,
            final(self).status == old(self).status,
            final(self).output.counters == old(self).output.counters,
    {
        self.output.take_events()
    }

    pub fn status(&self) -> (s: ApplicationStatus)
        ensures
            s == self.status,
    {
        self.status
    }

    pub fn counters(&self) -> (c: TestCounters)
        ensures
            c == self.output.counters,
    {
        self.output.counters
    }

    pub fn suites(&self) -> (s: &Vec<TestSuite>)
        ensures
            s@ == self.suites@,
    {
        &self.suites
    }
}

/// The number of cases of all suites, or `None` when it does not fit in a `usize`.
pub fn get_n_cases(suites: &Vec<TestSuite>) -> (n: Option<usize>)
    ensures
        total_cases(suites@) <= usize::MAX ==> n == Some(total_cases(suites@) as usize),
        total_cases(suites@) > usize::MAX ==> n is None,
{
    let mut total: usize = 0;
    let mut k: usize = 0;
    assert(suites@.take(0) =~= Seq::<TestSuite>::empty());
    while k < suites.len()
        invariant
            k <= suites.len(),
            total == total_cases(suites@.take(k as int)),
        decreases suites.len() - k,
    {
        proof {
            lemma_total_cases_take(suites@, k as int);
        }
        let n = suites[k].cases().len();
        if total > usize::MAX - n {
            proof {
                lemma_total_cases_prefix_bound(suites@, k + 1);
            }
            return None;
        }
        total = total + n;
        k = k + 1;
    }
    assert(suites@.take(suites.len() as int) =~= suites@);
    Some(total)
}

proof fn lemma_total_cases_prefix_bound(suites: Seq<TestSuite>, k: int)
    requires
        0 <= k <= suites.len(),
    ensures
        total_cases(suites.take(k)) <= total_cases(suites),
    decreases suites.len(),
{
    if k < suites.len() {
        lemma_total_cases_prefix_bound(suites.drop_last(), k);
        assert(suites.drop_last().take(k) =~= suites.take(k));
    } else {
        assert(suites.take(k) =~= suites);
    }
}

/// When a started run has no message left awaiting a reply, every case of every
/// suite has been counted exactly once, as passed, skipped or failed.
pub proof fn lemma_finished_run_counts_every_case(app: Application)
    requires
        app.wf(),
        app.started,
        app.sender.in_flight@.len() == 0,
    ensures
        counted(app.output.counters) == total_cases(app.suites@),
{
}

/// A run has failed exactly when some case has failed.
pub proof fn lemma_status_reflects_failures(app: Application)
    requires
        app.wf(),
    ensures
        app.status == ApplicationStatus::Fail <==> app.output.counters.failed > 0,
{
}

/// A finished run that succeeded has every case passed or skipped (exit code 0).
pub proof fn lemma_successful_run_passed_or_skipped_everything(app: Application)
    requires
        app.wf(),
        app.started,
        app.sender.in_flight@.len() == 0,
        app.status == ApplicationStatus::Success,
    ensures
        app.output.counters.failed == 0,
        app.output.counters.passed + app.output.counters.skipped == total_cases(app.suites@),
{
}

/// A suite whose skip clause holds is skipped with all its cases: no case of it is
/// handed out, every one of its cases is counted as skipped, and the suite is reported
/// skipped under its shown name.
pub proof fn lemma_suite_skip_holds(suites: Seq<TestSuite>, s: usize, c: TestCounters)
    requires
        s < suites.len(),
        c.skipped + suites[s as int].cases@.len() <= usize::MAX,
    ensures
        ({
            let suite = suites[s as int];
            let reply = WorkerReply::SuiteSkip { suite_index: s, result: QueryResult::Success };
            &&& follow_up(suites, reply).len() == 0
            &&& counters_after(c, suites, reply).passed == c.passed
            &&& counters_after(c, suites, reply).failed == c.failed
            &&& counters_after(c, suites, reply).skipped == c.skipped + suite.cases@.len()
            &&& reply_events(suites, reply) == seq![
                EventView::SuiteSkipped { suite: display_name(suite.name@, suite.description) },
            ]
            &&& !reply_fails(reply)
        }),
{
}

/// A suite whose skip clause does not hold starts: it is reported started, nothing is
/// counted yet, and each of its cases is handed out in order, checked against its own
/// skip clause first when it has one and run otherwise.
pub proof fn lemma_suite_skip_fails_starts_cases(suites: Seq<TestSuite>, s: usize, c: TestCounters, message: String)
    requires
        s < suites.len(),
        suites[s as int].cases@.len() <= usize::MAX,
    ensures
        ({
            let suite = suites[s as int];
            let reply = WorkerReply::SuiteSkip { suite_index: s, result: QueryResult::Fail { message } };
            let follow = follow_up(suites, reply);
            &&& follow.len() == suite.cases@.len()
            &&& forall|k: int| 0 <= k < follow.len() ==> {
                &&& (#[trigger] follow[k]) is CaseSkip <==> suite.cases@[k].skip is Some
                &&& follow[k] is CaseRun <==> suite.cases@[k].skip is None
                &&& follow[k] matches WorkerMessage::CaseSkip { suite_index, case_index } ==> suite_index
                    == s && case_index == k
                &&& follow[k] matches WorkerMessage::CaseRun { suite_index, case_index } ==> suite_index
                    == s && case_index == k
            }
            &&& counters_after(c, suites, reply) == c
            &&& reply_events(suites, reply) == seq![
                EventView::SuiteStarted { suite: display_name(suite.name@, suite.description) },
            ]
            &&& !reply_fails(reply)
        }),
{
    let suite = suites[s as int];
    let reply = WorkerReply::SuiteSkip { suite_index: s, result: QueryResult::Fail { message } };
    let follow = follow_up(suites, reply);
    assert(follow == case_messages(s, suite.cases@));
    assert forall|k: int| 0 <= k < follow.len() implies {
        &&& (#[trigger] follow[k]) is CaseSkip <==> suite.cases@[k].skip is Some
        &&& follow[k] is CaseRun <==> suite.cases@[k].skip is None
        &&& follow[k] matches WorkerMessage::CaseSkip { suite_index, case_index } ==> suite_index == s
            && case_index == k
        &&& follow[k] matches WorkerMessage::CaseRun { suite_index, case_index } ==> suite_index == s
            && case_index == k
    } by {
        assert(follow[k] == case_messages(s, suite.cases@)[k]);
        if suite.cases@[k].skip is Some {
            assert(follow[k] == WorkerMessage::CaseSkip { suite_index: s, case_index: k as usize });
        } else {
            assert(follow[k] == WorkerMessage::CaseRun { suite_index: s, case_index: k as usize });
        }
    }
}

/// A suite whose skip clause could not be checked is skipped with all its cases, and
/// the error is shown; the run does not fail on it.
pub proof fn lemma_suite_skip_error_skips(suites: Seq<TestSuite>, s: usize, c: TestCounters, message: String)
    requires
        s < suites.len(),
        c.skipped + suites[s as int].cases@.len() <= usize::MAX,
    ensures
        ({
            let suite = suites[s as int];
            let reply = WorkerReply::SuiteSkip { suite_index: s, result: QueryResult::Error { message } };
            &&& follow_up(suites, reply).len() == 0
            &&& counters_after(c, suites, reply).passed == c.passed
            &&& counters_after(c, suites, reply).failed == c.failed
            &&& counters_after(c, suites, reply).skipped == c.skipped + suite.cases@.len()
            &&& reply_events(suites, reply) == seq![
                EventView::SuiteError {
                    suite: display_name(suite.name@, suite.description),
                    message: message@,
                },
            ]
            &&& !reply_fails(reply)
        }),
{
}

/// A case whose skip clause holds is never run: nothing follows for it, it is counted
/// as one more skipped case, and it is reported skipped under its shown name.
pub proof fn lemma_case_skip_holds(suites: Seq<TestSuite>, s: usize, k: usize, c: TestCounters)
    requires
        s < suites.len(),
        k < suites[s as int].cases@.len(),
        c.skipped < usize::MAX,
    ensures
        ({
            let suite = suites[s as int];
            let case = suite.cases@[k as int];
            let reply = WorkerReply::CaseSkip { suite_index: s, case_index: k, result: QueryResult::Success };
            &&& follow_up(suites, reply).len() == 0
            &&& counters_after(c, suites, reply).passed == c.passed
            &&& counters_after(c, suites, reply).failed == c.failed
            &&& counters_after(c, suites, reply).skipped == c.skipped + 1
            &&& reply_events(suites, reply) == seq![
                EventView::CaseSkipped {
                    suite: display_name(suite.name@, suite.description),
                    case: display_name(case.name@, case.description),
                },
            ]
            &&& !reply_fails(reply)
        }),
{
}

/// A case whose skip clause does not hold is run, and nothing else happens yet: the one
/// message that follows runs exactly that case, nothing is counted or reported.
pub proof fn lemma_case_skip_fails_runs_case(suites: Seq<TestSuite>, s: usize, k: usize, c: TestCounters, message: String)
    requires
        s < suites.len(),
        k < suites[s as int].cases@.len(),
    ensures
        ({
            let reply = WorkerReply::CaseSkip { suite_index: s, case_index: k, result: QueryResult::Fail { message } };
            &&& follow_up(suites, reply) == seq![WorkerMessage::CaseRun { suite_index: s, case_index: k }]
            &&& counters_after(c, suites, reply) == c
            &&& reply_events(suites, reply).len() == 0
            &&& !reply_fails(reply)
        }),
{
    let reply = WorkerReply::CaseSkip { suite_index: s, case_index: k, result: QueryResult::Fail { message } };
    assert(follow_up(suites, reply) =~= seq![WorkerMessage::CaseRun { suite_index: s, case_index: k }]);
}

/// A case whose skip clause could not be checked is not run: it is counted as skipped,
/// the error is shown, and the run does not fail on it.
pub proof fn lemma_case_skip_error_skips(suites: Seq<TestSuite>, s: usize, k: usize, c: TestCounters, message: String)
    requires
        s < suites.len(),
        k < suites[s as int].cases@.len(),
        c.skipped < usize::MAX,
    ensures
        ({
            let suite = suites[s as int];
            let case = suite.cases@[k as int];
            let reply = WorkerReply::CaseSkip { suite_index: s, case_index: k, result: QueryResult::Error { message } };
            &&& follow_up(suites, reply).len() == 0
            &&& counters_after(c, suites, reply).passed == c.passed
            &&& counters_after(c, suites, reply).failed == c.failed
            &&& counters_after(c, suites, reply).skipped == c.skipped + 1
            &&& reply_events(suites, reply) == seq![
                EventView::CaseError {
                    suite: display_name(suite.name@, suite.description),
                    case: display_name(case.name@, case.description),
                    message: message@,
                },
            ]
            &&& !reply_fails(reply)
        }),
{
}

/// A case that ran is counted once: as passed, reported passed, when its check
/// succeeded; otherwise as failed, reported failed with the message of the result,
/// and the run fails. Nothing follows a case that ran.
pub proof fn lemma_case_run_counted(suites: Seq<TestSuite>, s: usize, k: usize, c: TestCounters, result: QueryResult)
    requires
        s < suites.len(),
        k < suites[s as int].cases@.len(),
        c.passed < usize::MAX,
        c.failed < usize::MAX,
    ensures
        ({
            let suite = suites[s as int];
            let case = suite.cases@[k as int];
            let reply = WorkerReply::CaseRun { suite_index: s, case_index: k, result };
            let after = counters_after(c, suites, reply);
            &&& follow_up(suites, reply).len() == 0
            &&& after.skipped == c.skipped
            &&& result is Success ==> {
                &&& after.passed == c.passed + 1
                &&& after.failed == c.failed
                &&& reply_events(suites, reply) == seq![
                    EventView::CasePassed {
                        suite: display_name(suite.name@, suite.description),
                        case: display_name(case.name@, case.description),
                    },
                ]
                &&& !reply_fails(reply)
            }
            &&& result matches QueryResult::Fail { message } ==> {
                &&& after.passed == c.passed
                &&& after.failed == c.failed + 1
                &&& reply_events(suites, reply) == seq![
                    EventView::CaseFailed {
                        suite: display_name(suite.name@, suite.description),
                        case: display_name(case.name@, case.description),
                        message: message@,
                    },
                ]
                &&& reply_fails(reply)
            }
            &&& result matches QueryResult::Error { message } ==> {
                &&& after.passed == c.passed
                &&& after.failed == c.failed + 1
                &&& reply_events(suites, reply) == seq![
                    EventView::CaseFailed {
                        suite: display_name(suite.name@, suite.description),
                        case: display_name(case.name@, case.description),
                        message: message@,
                    },
                ]
                &&& reply_fails(reply)
            }
        }),
{
}

} // verus!
