//! What a test run reports: the counters of passed, skipped and failed cases, the
//! sequence of report events, and their rendering as plain or colored text.

use vstd::prelude::*;
use vstd::string::*;

use crate::dto::{display_name, TestCase, TestSuite};
use crate::text::{append_decimal, decimal};

verus! {

/// The numbers of passed, skipped and failed test cases.
#[derive(Debug, Clone, Copy, PartialEq, Eq, Structural)]
pub struct TestCounters {
    pub passed: usize,
    pub skipped: usize,
    pub failed: usize,
}

/// A call that changes counters: one more passed, skipped or failed case, or a number
/// of skipped or failed cases at once.
#[derive(Debug, Clone, Copy, PartialEq, Eq, Structural)]
pub enum CounterCall {
    IncPassed,
    IncSkipped,
    IncFailed,
    AddSkipped(usize),
    AddFailed(usize),
}

/// The counters after one call.
pub open spec fn counter_step(c: TestCounters, call: CounterCall) -> TestCounters {
    match call {
        CounterCall::IncPassed => TestCounters { passed: (c.passed + 1) as usize, ..c },
        CounterCall::IncSkipped => TestCounters { skipped: (c.skipped + 1) as usize, ..c },
        CounterCall::IncFailed => TestCounters { failed: (c.failed + 1) as usize, ..c },
        CounterCall::AddSkipped(n) => TestCounters { skipped: (c.skipped + n) as usize, ..c },
        CounterCall::AddFailed(n) => TestCounters { failed: (c.failed + n) as usize, ..c },
    }
}

/// The counters after a sequence of calls, in order.
pub open spec fn counters_after_calls(c: TestCounters, calls: Seq<CounterCall>) -> TestCounters
    decreases calls.len(),
{
    if calls.len() == 0 {
        c
    } else {
        counter_step(counters_after_calls(c, calls.drop_last()), calls.last())
    }
}

/// How many passed cases a call adds.
pub open spec fn passed_part(call: CounterCall) -> nat {
    match call {
        CounterCall::IncPassed => 1,
        _ => 0,
    }
}

/// How many skipped cases a call adds.
pub open spec fn skipped_part(call: CounterCall) -> nat {
    match call {
        CounterCall::IncSkipped => 1,
        CounterCall::AddSkipped(n) => n as nat,
        _ => 0,
    }
}

/// How many failed cases a call adds.
pub open spec fn failed_part(call: CounterCall) -> nat {
    match call {
        CounterCall::IncFailed => 1,
        CounterCall::AddFailed(n) => n as nat,
        _ => 0,
    }
}

/// The sum of `part` over the calls.
pub open spec fn calls_sum(calls: Seq<CounterCall>, part: spec_fn(CounterCall) -> nat) -> nat
    decreases calls.len(),
{
    if calls.len() == 0 {
        0
    } else {
        calls_sum(calls.drop_last(), part) + part(calls.last())
    }
}

/// Counters that start at zero count every call: after any sequence of calls whose
/// totals fit in a `usize` (so that no call overflows), `passed` is the number of
/// `inc_passed` calls, `skipped` the number of `inc_skipped` calls plus every value
/// given to `add_skipped`, and `failed` likewise for `inc_failed` and `add_failed`.
pub proof fn lemma_counters_count_calls(calls: Seq<CounterCall>)
    requires
        calls_sum(calls, |c: CounterCall| passed_part(c)) <= usize::MAX,
        calls_sum(calls, |c: CounterCall| skipped_part(c)) <= usize::MAX,
        calls_sum(calls, |c: CounterCall| failed_part(c)) <= usize::MAX,
    ensures
        counters_after_calls(TestCounters { passed: 0, skipped: 0, failed: 0 }, calls) == (TestCounters {
            passed: calls_sum(calls, |c: CounterCall| passed_part(c)) as usize,
            skipped: calls_sum(calls, |c: CounterCall| skipped_part(c)) as usize,
            failed: calls_sum(calls, |c: CounterCall| failed_part(c)) as usize,
        }),
    decreases calls.len(),
{
    if calls.len() > 0 {
        lemma_counters_count_calls(calls.drop_last());
    }
}

impl Default for TestCounters {
    fn default() -> (c: TestCounters)
        ensures
            c.passed == 0,
            c.skipped == 0,
            c.failed == 0,
    {
        TestCounters { passed: 0, skipped: 0, failed: 0 }
    }
}

impl TestCounters {
    pub fn new() -> (c: TestCounters)
        ensures
            c.passed == 0,
            c.skipped == 0,
            c.failed == 0,
    {
        TestCounters { passed: 0, skipped: 0, failed: 0 }
    }

    pub fn inc_passed(&mut self)
        requires
            old(self).passed < usize::MAX,
        ensures
            *final(self) == counter_step(*old(self), CounterCall::IncPassed),
    {
        self.passed = self.passed + 1;
    }

    pub fn inc_skipped(&mut self)
        requires
            old(self).skipped < usize::MAX,
        ensures
            *final(self) == counter_step(*old(self), CounterCall::IncSkipped),
    {
        self.skipped = self.skipped + 1;
    }

    pub fn inc_failed(&mut self)
        requires
            old(self).failed < usize::MAX,
        ensures
            *final(self) == counter_step(*old(self), CounterCall::IncFailed),
    {
        self.failed = self.failed + 1;
    }

    pub fn add_skipped(&mut self, value: usize)
        requires
            old(self).skipped + value <= usize::MAX,
        ensures
            *final(self) == counter_step(*old(self), CounterCall::AddSkipped(value)),
    {
        self.skipped = self.skipped + value;
    }

    pub fn add_failed(&mut self, value: usize)
        requires
            old(self).failed + value <= usize::MAX,
        ensures
            *final(self) == counter_step(*old(self), CounterCall::AddFailed(value)),
    {
        self.failed = self.failed + value;
    }

    pub fn passed(&self) -> (n: usize)
        ensures
            n == self.passed,
    {
        self.passed
    }

    pub fn skipped(&self) -> (n: usize)
        ensures
            n == self.skipped,
    {
        self.skipped
    }

    pub fn failed(&self) -> (n: usize)
        ensures
            n == self.failed,
    {
        self.failed
    }
}

/// The number of cases that the counters account for.
pub open spec fn counted(c: TestCounters) -> nat {
    (c.passed + c.skipped + c.failed) as nat
}

/// The verdict a report ends with.
#[derive(Debug, Clone, Copy, PartialEq, Eq, Structural)]
pub enum Verdict {
    Skipped,
    Failed,
    Passed,
}

/// Nothing ran: skipped; something failed: failed; otherwise passed.
pub open spec fn verdict_of(passed: nat, failed: nat) -> Verdict {
    if passed == 0 && failed == 0 {
        Verdict::Skipped
    } else if failed > 0 {
        Verdict::Failed
    } else {
        Verdict::Passed
    }
}

/// A report ends "failed" exactly when some case failed, "skipped" when no case passed
/// or failed, and "passed" when cases passed and none failed.
pub proof fn lemma_verdict(passed: nat, failed: nat)
    ensures
        (verdict_of(passed, failed) == Verdict::Failed) <==> failed > 0,
        (verdict_of(passed, failed) == Verdict::Skipped) <==> (passed == 0 && failed == 0),
        (verdict_of(passed, failed) == Verdict::Passed) <==> (passed > 0 && failed == 0),
{
}

/// The verdict a report ends with, given the numbers of passed and failed cases.
pub fn footer_verdict(passed: usize, failed: usize) -> (v: Verdict)
    ensures
        v == verdict_of(passed as nat, failed as nat),
{
    if passed == 0 && failed == 0 {
        Verdict::Skipped
    } else if failed > 0 {
        Verdict::Failed
    } else {
        Verdict::Passed
    }
}

pub open spec fn verdict_word(v: Verdict) -> Seq<char> {
    match v {
        Verdict::Skipped => "skipped"@,
        Verdict::Failed => "failed"@,
        Verdict::Passed => "passed"@,
    }
}

impl Verdict {
    /// The word by which a report names the verdict.
    pub fn word(&self) -> (s: &'static str)
        ensures
            s@ == verdict_word(*self),
    {
        match self {
            Verdict::Skipped => "skipped",
            Verdict::Failed => "failed",
            Verdict::Passed => "passed",
        }
    }
}

/// Something a test run reports. Suites and cases are named as they are shown:
/// by their description when they have one.
#[derive(Debug, Clone)]
pub enum OutputEvent {
    Header,
    Footer { passed: usize, skipped: usize, failed: usize },
    SuiteStarted { suite: String },
    SuiteError { suite: String, message: String },
    SuiteSkipped { suite: String },
    CasePassed { suite: String, case: String },
    CaseFailed { suite: String, case: String, message: String },
    CaseSkipped { suite: String, case: String },
    CaseError { suite: String, case: String, message: String },
}

/// A report event as a value of specifications.
pub enum EventView {
    Header,
    Footer { passed: nat, skipped: nat, failed: nat },
    SuiteStarted { suite: Seq<char> },
    SuiteError { suite: Seq<char>, message: Seq<char> },
    SuiteSkipped { suite: Seq<char> },
    CasePassed { suite: Seq<char>, case: Seq<char> },
    CaseFailed { suite: Seq<char>, case: Seq<char>, message: Seq<char> },
    CaseSkipped { suite: Seq<char>, case: Seq<char> },
    CaseError { suite: Seq<char>, case: Seq<char>, message: Seq<char> },
}

impl View for OutputEvent {
    type V = EventView;

    open spec fn view(&self) -> EventView {
        match self {
            OutputEvent::Header => EventView::Header,
            OutputEvent::Footer { passed, skipped, failed } => EventView::Footer {
                passed: *passed as nat,
                skipped: *skipped as nat,
                failed: *failed as nat,
            },
            OutputEvent::SuiteStarted { suite } => EventView::SuiteStarted { suite: suite@ },
            OutputEvent::SuiteError { suite, message } => EventView::SuiteError {
                suite: suite@,
                message: message@,
            },
            OutputEvent::SuiteSkipped { suite } => EventView::SuiteSkipped { suite: suite@ },
            OutputEvent::CasePassed { suite, case } => EventView::CasePassed {
                suite: suite@,
                case: case@,
            },
            OutputEvent::CaseFailed { suite, case, message } => EventView::CaseFailed {
                suite: suite@,
                case: case@,
                message: message@,
            },
            OutputEvent::CaseSkipped { suite, case } => EventView::CaseSkipped {
                suite: suite@,
                case: case@,
            },
            OutputEvent::CaseError { suite, case, message } => EventView::CaseError {
                suite: suite@,
                case: case@,
                message: message@,
            },
        }
    }
}

pub open spec fn events_view(events: Seq<OutputEvent>) -> Seq<EventView> {
    events.map_values(|e: OutputEvent| e@)
}

pub open spec fn suite_shown(suite: TestSuite) -> Seq<char> {
    display_name(suite.name@, suite.description)
}

pub open spec fn case_shown(case: TestCase) -> Seq<char> {
    display_name(case.name@, case.description)
}

/// A suite or a case is shown under its description when it has one, and under its
/// name otherwise.
pub proof fn lemma_shown_names(suite: TestSuite, case: TestCase)
    ensures
        suite.description matches Some(d) ==> suite_shown(suite) == d@,
        suite.description is None ==> suite_shown(suite) == suite.name@,
        case.description matches Some(d) ==> case_shown(case) == d@,
        case.description is None ==> case_shown(case) == case.name@,
{
}

/// The report of a run: the counters and the events not yet taken for display.
#[derive(Debug)]
pub struct Output {
    pub formatter: Formatter,
    pub counters: TestCounters,
    pub events: Vec<OutputEvent>,
    pub verbosity: isize,
}

impl Output {
    /// An output that renders with `formatter`, at the given verbosity, with its
    /// counters at zero and no event yet.
    pub fn new(formatter: Formatter, verbosity: isize) -> (o: Output)
        ensures
            o.formatter == formatter,
            o.verbosity == verbosity,
            o.counters == (TestCounters { passed: 0, skipped: 0, failed: 0 }),
            o.events@.len() == 0,
    {
        Output { formatter, counters: TestCounters::new(), events: Vec::new(), verbosity }
    }

    fn record(&mut self, event: OutputEvent)
        ensures
            final(self).formatter == old(self).formatter,
            final(self).verbosity == old(self).verbosity,
            final(self).counters == old(self).counters,
            events_view(final(self).events@) == events_view(old(self).events@).push(event@),
    {
        let ghost before = self.events@;
        self.events.push(event);
        assert(events_view(self.events@) =~= events_view(before).push(event@));
    }

    pub fn header(&mut self)
        ensures
            final(self).formatter == old(self).formatter,
            final(self).verbosity == old(self).verbosity,
            final(self).counters == old(self).counters,
            events_view(final(self).events@) == events_view(old(self).events@).push(
                EventView::Header,
            ),
    {
        self.record(OutputEvent::Header);
    }

    pub fn footer(&mut self)
        ensures
            final(self).formatter == old(self).formatter,
            final(self).verbosity == old(self).verbosity,
            final(self).counters == old(self).counters,
            events_view(final(self).events@) == events_view(old(self).events@).push(
                EventView::Footer {
                    passed: old(self).counters.passed as nat,
                    skipped: old(self).counters.skipped as nat,
                    failed: old(self).counters.failed as nat,
                },
            ),
    {
        let event = OutputEvent::Footer {
            passed: self.counters.passed(),
            skipped: self.counters.skipped(),
            failed: self.counters.failed(),
        };
        self.record(event);
    }

    pub fn suite_started(&mut self, suite: &TestSuite)
        ensures
            final(self).formatter == old(self).formatter,
            final(self).verbosity == old(self).verbosity,
            final(self).counters == old(self).counters,
            events_view(final(self).events@) == events_view(old(self).events@).push(
                EventView::SuiteStarted { suite: suite_shown(*suite) },
            ),
    {
        let name = suite.display_name().clone();
        self.record(OutputEvent::SuiteStarted { suite: name });
    }

    /// Reports that a suite's skip clause could not be checked: the error is shown and
    /// the suite is skipped, its cases counted as skipped.
    pub fn suite_error(&mut self, suite: &TestSuite, message: &str)
        requires
            old(self).counters.skipped + suite.cases@.len() <= usize::MAX,
        ensures
            final(self).formatter == old(self).formatter,
            final(self).verbosity == old(self).verbosity,
            final(self).counters == (TestCounters {
                skipped: (old(self).counters.skipped + suite.cases@.len()) as usize,
                ..old(self).counters
            }),
            events_view(final(self).events@) == events_view(old(self).events@).push(
                EventView::SuiteError { suite: suite_shown(*suite), message: message@ },
            ),
    {
        let name = suite.display_name().clone();
        self.record(OutputEvent::SuiteError { suite: name, message: message.to_owned() });
        self.counters.add_skipped(suite.cases().len());
    }

    pub fn suite_skipped(&mut self, suite: &TestSuite)
        requires
            old(self).counters.skipped + suite.cases@.len() <= usize::MAX,
        ensures
            final(self).formatter == old(self).formatter,
            final(self).verbosity == old(self).verbosity,
            final(self).counters == (TestCounters {
                skipped: (old(self).counters.skipped + suite.cases@.len()) as usize,
                ..old(self).counters
            }),
            events_view(final(self).events@) == events_view(old(self).events@).push(
                EventView::SuiteSkipped { suite: suite_shown(*suite) },
            ),
    {
        let name = suite.display_name().clone();
        self.record(OutputEvent::SuiteSkipped { suite: name });
        self.counters.add_skipped(suite.cases().len());
    }

    pub fn case_passed(&mut self, suite: &TestSuite, case: &TestCase)
        requires
            old(self).counters.passed < usize::MAX,
        ensures
            final(self).formatter == old(self).formatter,
            final(self).verbosity == old(self).verbosity,
            final(self).counters == (TestCounters {
                passed: (old(self).counters.passed + 1) as usize,
                ..old(self).counters
            }),
            events_view(final(self).events@) == events_view(old(self).events@).push(
                EventView::CasePassed { suite: suite_shown(*suite), case: case_shown(*case) },
            ),
    {
        let suite_name = suite.display_name().clone();
        let case_name = case.display_name().clone();
        self.record(OutputEvent::CasePassed { suite: suite_name, case: case_name });
        self.counters.inc_passed();
    }

    pub fn case_failed(&mut self, suite: &TestSuite, case: &TestCase, message: &str)
        requires
            old(self).counters.failed < usize::MAX,
        ensures
            final(self).formatter == old(self).formatter,
            final(self).verbosity == old(self).verbosity,
            final(self).counters == (TestCounters {
                failed: (old(self).counters.failed + 1) as usize,
                ..old(self).counters
            }),
            events_view(final(self).events@) == events_view(old(self).events@).push(
                EventView::CaseFailed {
                    suite: suite_shown(*suite),
                    case: case_shown(*case),
                    message: message@,
                },
            ),
    {
        let suite_name = suite.display_name().clone();
        let case_name = case.display_name().clone();
        self.record(
            OutputEvent::CaseFailed { suite: suite_name, case: case_name, message: message.to_owned() },
        );
        self.counters.inc_failed();
    }

    pub fn case_skipped(&mut self, suite: &TestSuite, case: &TestCase)
        requires
            old(self).counters.skipped < usize::MAX,
        ensures
            final(self).formatter == old(self).formatter,
            final(self).verbosity == old(self).verbosity,
            final(self).counters == (TestCounters {
                skipped: (old(self).counters.skipped + 1) as usize,
                ..old(self).counters
            }),
            events_view(final(self).events@) == events_view(old(self).events@).push(
                EventView::CaseSkipped { suite: suite_shown(*suite), case: case_shown(*case) },
            ),
    {
        let suite_name = suite.display_name().clone();
        let case_name = case.display_name().clone();
        self.record(OutputEvent::CaseSkipped { suite: suite_name, case: case_name });
        self.counters.inc_skipped();
    }

    /// Reports that a case's skip clause could not be checked: the error is shown and
    /// the case is skipped.
    pub fn case_error(&mut self, suite: &TestSuite, case: &TestCase, message: &str)
        requires
            old(self).counters.skipped < usize::MAX,
        ensures
            final(self).formatter == old(self).formatter,
            final(self).verbosity == old(self).verbosity,
            final(self).counters == (TestCounters {
                skipped: (old(self).counters.skipped + 1) as usize,
                ..old(self).counters
            }),
            events_view(final(self).events@) == events_view(old(self).events@).push(
                EventView::CaseError {
                    suite: suite_shown(*suite),
                    case: case_shown(*case),
                    message: message@,
                },
            ),
    {
        let suite_name = suite.display_name().clone();
        let case_name = case.display_name().clone();
        self.record(
            OutputEvent::CaseError { suite: suite_name, case: case_name, message: message.to_owned() },
        );
        self.counters.inc_skipped();
    }

    /// Hands out the events recorded so far, in order, and forgets them.
    pub fn take_events(&mut self) -> (events: Vec<OutputEvent>)
        ensures
            final(self).formatter == old(self).formatter,
            final(self).verbosity == old(self).verbosity,
            final(self).counters == old(self).counters,
            final(self).events@.len() == 0,
            events@ == old(self).events@,
    {
        let mut taken: Vec<OutputEvent> = Vec::new();
        std::mem::swap(&mut taken, &mut self.events);
        taken
    }
}

/// How the plain formatter prints an event.
pub open spec fn plain_text(e: EventView) -> Seq<char> {
    match e {
        EventView::Header => "\nrunning tests...\n\n"@,
        EventView::Footer { passed, skipped, failed } => "\ntest result: "@ + verdict_word(
            verdict_of(passed, failed),
        ) + ". "@ + decimal(passed) + " passed; "@ + decimal(failed) + " failed; "@ + decimal(
            skipped,
        ) + " skipped\n\n"@,
        EventView::SuiteStarted { suite } => "suite "@ + suite + " .. started\n"@,
        EventView::SuiteError { suite, message } => "suite "@ + suite + " .. "@ + "error"@
            + "\n  - "@ + message + "\n"@,
        EventView::SuiteSkipped { suite } => "suite "@ + suite + " .. "@ + "skipped"@ + "\n"@,
        EventView::CasePassed { suite, case } => "test "@ + suite + "::"@ + case + " .. "@
            + "passed"@ + "\n"@,
        EventView::CaseFailed { suite, case, message } => "test "@ + suite + "::"@ + case
            + " .. "@ + "failed"@ + "\n    - "@ + message + "\n"@,
        EventView::CaseSkipped { suite, case } => "test "@ + suite + "::"@ + case + " .. "@
            + "skipped"@ + "\n"@,
        EventView::CaseError { suite, case, message } => "test "@ + suite + "::"@ + case
            + " .. "@ + "error"@ + "\n    - "@ + message + "\n"@,
    }
}

/// Renders report events as plain text.
#[derive(Debug, Clone, Copy)]
pub struct PlainFormatter {}

impl Default for PlainFormatter {
    fn default() -> (f: PlainFormatter) {
        PlainFormatter {}
    }
}

impl PlainFormatter {
    /// The text printed for an event.
    pub fn render(&self, event: &OutputEvent) -> (s: String)
        ensures
            s@ == plain_text(event@),
    {
        match event {
            OutputEvent::Header => "\nrunning tests...\n\n".to_owned(),
            OutputEvent::Footer { passed, skipped, failed } => {
                let mut s = "\ntest result: ".to_owned();
                s.append(footer_verdict(*passed, *failed).word());
                s.append(". ");
                append_decimal(&mut s, *passed as u64);
                s.append(" passed; ");
                append_decimal(&mut s, *failed as u64);
                s.append(" failed; ");
                append_decimal(&mut s, *skipped as u64);
                s.append(" skipped\n\n");
                s
            },
            OutputEvent::SuiteStarted { suite } => {
                let mut s = "suite ".to_owned();
                s.append(suite.as_str());
                s.append(" .. started\n");
                s
            },
            OutputEvent::SuiteError { suite, message } => {
                let mut s = "suite ".to_owned();
                s.append(suite.as_str());
                s.append(" .. ");
                s.append("error");
                s.append("\n  - ");
                s.append(message.as_str());
                s.append("\n");
                s
            },
            OutputEvent::SuiteSkipped { suite } => {
                let mut s = "suite ".to_owned();
                s.append(suite.as_str());
                s.append(" .. ");
                s.append("skipped");
                s.append("\n");
                s
            },
            OutputEvent::CasePassed { suite, case } => {
                let mut s = "test ".to_owned();
                s.append(suite.as_str());
                s.append("::");
                s.append(case.as_str());
                s.append(" .. ");
                s.append("passed");
                s.append("\n");
                s
            },
            OutputEvent::CaseFailed { suite, case, message } => {
                let mut s = "test ".to_owned();
                s.append(suite.as_str());
                s.append("::");
                s.append(case.as_str());
                s.append(" .. ");
                s.append("failed");
                s.append("\n    - ");
                s.append(message.as_str());
                s.append("\n");
                s
            },
            OutputEvent::CaseSkipped { suite, case } => {
                let mut s = "test ".to_owned();
                s.append(suite.as_str());
                s.append("::");
                s.append(case.as_str());
                s.append(" .. ");
                s.append("skipped");
                s.append("\n");
                s
            },
            OutputEvent::CaseError { suite, case, message } => {
                let mut s = "test ".to_owned();
                s.append(suite.as_str());
                s.append("::");
                s.append(case.as_str());
                s.append(" .. ");
                s.append("error");
                s.append("\n    - ");
                s.append(message.as_str());
                s.append("\n");
                s
            },
        }
    }
}

/// A color in which part of a report is printed.
#[derive(Debug, Clone, Copy, PartialEq, Eq, Structural)]
pub enum TextColor {
    Green,
    Red,
    Yellow,
}

/// A piece of a report: its text, and the color it is printed in, if any
/// (`None`: the terminal's own).
#[derive(Debug, Clone)]
pub struct Piece {
    pub text: String,
    pub color: Option<TextColor>,
}

impl View for Piece {
    type V = (Seq<char>, Option<TextColor>);

    open spec fn view(&self) -> (Seq<char>, Option<TextColor>) {
        (self.text@, self.color)
    }
}

pub open spec fn pieces_view(pieces: Seq<Piece>) -> Seq<(Seq<char>, Option<TextColor>)> {
    pieces.map_values(|p: Piece| p@)
}

/// The color that shows a verdict.
pub open spec fn verdict_color(v: Verdict) -> TextColor {
    match v {
        Verdict::Skipped => TextColor::Yellow,
        Verdict::Failed => TextColor::Red,
        Verdict::Passed => TextColor::Green,
    }
}

/// A line that ends with a colored word: `lead`, then `word` in `color`, then `tail`.
pub open spec fn colored_line(
    lead: Seq<char>,
    word: Seq<char>,
    color: TextColor,
    tail: Seq<char>,
) -> Seq<(Seq<char>, Option<TextColor>)> {
    seq![(lead, None), (word, Some(color)), (tail, None)]
}

/// How the color formatter prints an event: the same text as the plain formatter,
/// with the word that tells how a suite or case ended, and the verdict, in color.
pub open spec fn color_pieces(e: EventView) -> Seq<(Seq<char>, Option<TextColor>)> {
    match e {
        EventView::Header => seq![("\nrunning tests...\n\n"@, None)],
        EventView::Footer { passed, skipped, failed } => colored_line(
            "\ntest result: "@,
            verdict_word(verdict_of(passed, failed)),
            verdict_color(verdict_of(passed, failed)),
            ". "@ + decimal(passed) + " passed; "@ + decimal(failed) + " failed; "@ + decimal(
                skipped,
            ) + " skipped\n\n"@,
        ),
        EventView::SuiteStarted { suite } => seq![("suite "@ + suite + " .. started\n"@, None)],
        EventView::SuiteError { suite, message } => colored_line(
            "suite "@ + suite + " .. "@,
            "error"@,
            TextColor::Red,
            "\n  - "@ + message + "\n"@,
        ),
        EventView::SuiteSkipped { suite } => colored_line(
            "suite "@ + suite + " .. "@,
            "skipped"@,
            TextColor::Yellow,
            "\n"@,
        ),
        EventView::CasePassed { suite, case } => colored_line(
            "test "@ + suite + "::"@ + case + " .. "@,
            "passed"@,
            TextColor::Green,
            "\n"@,
        ),
        EventView::CaseFailed { suite, case, message } => colored_line(
            "test "@ + suite + "::"@ + case + " .. "@,
            "failed"@,
            TextColor::Red,
            "\n    - "@ + message + "\n"@,
        ),
        EventView::CaseSkipped { suite, case } => colored_line(
            "test "@ + suite + "::"@ + case + " .. "@,
            "skipped"@,
            TextColor::Yellow,
            "\n"@,
        ),
        EventView::CaseError { suite, case, message } => colored_line(
            "test "@ + suite + "::"@ + case + " .. "@,
            "error"@,
            TextColor::Red,
            "\n    - "@ + message + "\n"@,
        ),
    }
}

/// The text of pieces, one after the other, colors left out.
pub open spec fn pieces_text(pieces: Seq<(Seq<char>, Option<TextColor>)>) -> Seq<char>
    decreases pieces.len(),
{
    if pieces.len() == 0 {
        Seq::<char>::empty()
    } else {
        pieces_text(pieces.drop_last()) + pieces.last().0
    }
}

/// Colors change nothing of what is printed: without them the color formatter prints
/// an event exactly as the plain formatter does.
pub proof fn lemma_color_text_is_plain_text(e: EventView)
    ensures
        pieces_text(color_pieces(e)) == plain_text(e),
{
    let p = color_pieces(e);
    reveal_with_fuel(pieces_text, 4);
    if p.len() == 3 {
        assert(p.drop_last().drop_last() =~= seq![p[0]]);
        assert(p.drop_last() =~= seq![p[0], p[1]]);
        assert(seq![p[0]].drop_last() =~= Seq::<(Seq<char>, Option<TextColor>)>::empty());
        assert(pieces_text(p) =~= p[0].0 + p[1].0 + p[2].0);
    } else {
        assert(p.drop_last() =~= Seq::<(Seq<char>, Option<TextColor>)>::empty());
    }
    match e {
        EventView::Header => {
            assert(pieces_text(p) =~= plain_text(e));
        },
        EventView::Footer { passed, skipped, failed } => {
            assert(pieces_text(p) =~= plain_text(e));
        },
        EventView::SuiteStarted { .. } => {
            assert(pieces_text(p) =~= plain_text(e));
        },
        EventView::SuiteError { .. } => {
            assert(pieces_text(p) =~= plain_text(e));
        },
        EventView::SuiteSkipped { .. } => {
            assert(pieces_text(p) =~= plain_text(e));
        },
        EventView::CasePassed { .. } => {
            assert(pieces_text(p) =~= plain_text(e));
        },
        EventView::CaseFailed { .. } => {
            assert(pieces_text(p) =~= plain_text(e));
        },
        EventView::CaseSkipped { .. } => {
            assert(pieces_text(p) =~= plain_text(e));
        },
        EventView::CaseError { .. } => {
            assert(pieces_text(p) =~= plain_text(e));
        },
    }
}

impl TextColor {
    /// The color of a verdict.
    pub fn of_verdict(v: Verdict) -> (c: TextColor)
        ensures
            c == verdict_color(v),
    {
        match v {
            Verdict::Skipped => TextColor::Yellow,
            Verdict::Failed => TextColor::Red,
            Verdict::Passed => TextColor::Green,
        }
    }
}

fn plain_piece(text: String) -> (p: Piece)
    ensures
        p@ == (text@, None::<TextColor>),
{
    Piece { text, color: None }
}

fn colored_pieces(lead: String, word: &str, color: TextColor, tail: String) -> (pieces: Vec<Piece>)
    ensures
        pieces_view(pieces@) == colored_line(lead@, word@, color, tail@),
{
    let mut pieces: Vec<Piece> = Vec::new();
    pieces.push(plain_piece(lead));
    pieces.push(Piece { text: word.to_owned(), color: Some(color) });
    pieces.push(plain_piece(tail));
    assert(pieces_view(pieces@) =~= colored_line(lead@, word@, color, tail@));
    pieces
}

/// Renders report events as text with colors.
#[derive(Debug, Clone, Copy)]
pub struct ColorFormatter {}

impl Default for ColorFormatter {
    fn default() -> (f: ColorFormatter) {
        ColorFormatter {}
    }
}

impl ColorFormatter {
    /// The pieces printed for an event, in order.
    pub fn render(&self, event: &OutputEvent) -> (pieces: Vec<Piece>)
        ensures
            pieces_view(pieces@) == color_pieces(event@),
    {
        match event {
            OutputEvent::Header => {
                let mut pieces: Vec<Piece> = Vec::new();
                pieces.push(plain_piece("\nrunning tests...\n\n".to_owned()));
                assert(pieces_view(pieces@) =~= color_pieces(event@));
                pieces
            },
            OutputEvent::Footer { passed, skipped, failed } => {
                let verdict = footer_verdict(*passed, *failed);
                let mut tail = ". ".to_owned();
                append_decimal(&mut tail, *passed as u64);
                tail.append(" passed; ");
                append_decimal(&mut tail, *failed as u64);
                tail.append(" failed; ");
                append_decimal(&mut tail, *skipped as u64);
                tail.append(" skipped\n\n");
                colored_pieces(
                    "\ntest result: ".to_owned(),
                    verdict.word(),
                    TextColor::of_verdict(verdict),
                    tail,
                )
            },
            OutputEvent::SuiteStarted { suite } => {
                let mut s = "suite ".to_owned();
                s.append(suite.as_str());
                s.append(" .. started\n");
                let mut pieces: Vec<Piece> = Vec::new();
                pieces.push(plain_piece(s));
                assert(pieces_view(pieces@) =~= color_pieces(event@));
                pieces
            },
            OutputEvent::SuiteError { suite, message } => {
                let mut lead = "suite ".to_owned();
                lead.append(suite.as_str());
                lead.append(" .. ");
                let mut tail = "\n  - ".to_owned();
                tail.append(message.as_str());
                tail.append("\n");
                colored_pieces(lead, "error", TextColor::Red, tail)
            },
            OutputEvent::SuiteSkipped { suite } => {
                let mut lead = "suite ".to_owned();
                lead.append(suite.as_str());
                lead.append(" .. ");
                colored_pieces(lead, "skipped", TextColor::Yellow, "\n".to_owned())
            },
            OutputEvent::CasePassed { suite, case } => colored_pieces(
                case_lead(suite, case),
                "passed",
                TextColor::Green,
                "\n".to_owned(),
            ),
            OutputEvent::CaseFailed { suite, case, message } => {
                let mut tail = "\n    - ".to_owned();
                tail.append(message.as_str());
                tail.append("\n");
                colored_pieces(case_lead(suite, case), "failed", TextColor::Red, tail)
            },
            OutputEvent::CaseSkipped { suite, case } => colored_pieces(
                case_lead(suite, case),
                "skipped",
                TextColor::Yellow,
                "\n".to_owned(),
            ),
            OutputEvent::CaseError { suite, case, message } => {
                let mut tail = "\n    - ".to_owned();
                tail.append(message.as_str());
                tail.append("\n");
                colored_pieces(case_lead(suite, case), "error", TextColor::Red, tail)
            },
        }
    }
}

/// "test SUITE::CASE .. ".
fn case_lead(suite: &String, case: &String) -> (s: String)
    ensures
        s@ == "test "@ + suite@ + "::"@ + case@ + " .. "@,
{
    let mut s = "test ".to_owned();
    s.append(suite.as_str());
    s.append("::");
    s.append(case.as_str());
    s.append(" .. ");
    s
}

/// How a run's report is rendered: as plain text, or with colors.
#[derive(Debug, Clone, Copy)]
pub enum Formatter {
    Plain(PlainFormatter),
    Color(ColorFormatter),
}

/// The pieces that a formatter prints for an event: the plain text as one uncolored
/// piece, or the colored pieces.
pub open spec fn formatter_pieces(f: Formatter, e: EventView) -> Seq<(Seq<char>, Option<TextColor>)> {
    match f {
        Formatter::Plain(_) => seq![(plain_text(e), None)],
        Formatter::Color(_) => color_pieces(e),
    }
}

/// The output of a run: rendered as plain text in text mode, with colors otherwise,
/// at the given verbosity, with its counters at zero and no event yet.
pub fn create_output(text_mode: bool, verbosity: isize) -> (o: Output)
    ensures
        text_mode <==> o.formatter is Plain,
        o.verbosity == verbosity,
        o.counters == (TestCounters { passed: 0, skipped: 0, failed: 0 }),
        o.events@.len() == 0,
{
    if text_mode {
        Output::new(Formatter::Plain(PlainFormatter::default()), verbosity)
    } else {
        Output::new(Formatter::Color(ColorFormatter::default()), verbosity)
    }
}

/// The verbosity that `verbose` uses of the verbose option and `quiet` uses of the
/// quiet option give: their difference, kept within the range of `isize`.
pub open spec fn verbosity_of(verbose: nat, quiet: nat) -> int {
    let d = verbose - quiet;
    if d > isize::MAX {
        isize::MAX as int
    } else if d < isize::MIN {
        isize::MIN as int
    } else {
        d
    }
}

/// The verbosity of a run, from how many times the verbose and quiet options were given.
pub fn verbosity_level(verbose: u64, quiet: u64) -> (v: isize)
    ensures
        v as int == verbosity_of(verbose as nat, quiet as nat),
{
    if verbose >= quiet {
        let d: u64 = verbose - quiet;
        if d > isize::MAX as u64 {
            isize::MAX
        } else {
            d as isize
        }
    } else {
        let d: u64 = quiet - verbose;
        if d > isize::MAX as u64 {
            isize::MIN
        } else {
            -(d as isize)
        }
    }
}

impl Formatter {
    /// The pieces printed for an event, in order.
    pub fn render(&self, event: &OutputEvent) -> (pieces: Vec<Piece>)
        ensures
            pieces_view(pieces@) == formatter_pieces(*self, event@),
    {
        match self {
            Formatter::Plain(f) => {
                let mut pieces: Vec<Piece> = Vec::new();
                pieces.push(plain_piece(f.render(event)));
                assert(pieces_view(pieces@) =~= formatter_pieces(*self, event@));
                pieces
            },
            Formatter::Color(f) => f.render(event),
        }
    }
}

} // verus!
