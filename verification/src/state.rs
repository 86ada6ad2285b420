//! The session view-state and its transitions: the identifier field, the
//! append-only output log, the two status messages, and the Start action that
//! fills them. The whole transition is specified as a function on a
//! mathematical model of the state, so that what a click does — and what it
//! ignores — is pinned down exactly.

use vstd::prelude::*;

use crate::logo::Logo;
use crate::text::dec_str;
use crate::text::lemma_dec_str_no_newline;
use crate::text::u64_to_string;

verus! {

/// The window title.
pub open spec fn window_title_text() -> Seq<char> {
    "Gateway Logger V0.1.0"@
}

/// What the output log holds before any run.
pub open spec fn default_log_text() -> Seq<char> {
    "Output will be here"@
}

/// What the two status labels hold before any run; they are filled once a run
/// ends.
pub open spec fn blank_message_text() -> Seq<char> {
    " "@
}

/// The test-result message every run leaves behind.
pub open spec fn test_result_text() -> Seq<char> {
    "Check the button and LM for shorts"@
}

/// The error-code message every run leaves behind.
pub open spec fn error_code_text() -> Seq<char> {
    "GPIO: pin (gpio 11) value is 0"@
}

/// The log line a run appends for step `i`: a line break, then `line{i}`.
pub open spec fn line_text(i: nat) -> Seq<char> {
    "\nline"@ + dec_str(i)
}

/// Everything a run appends to the log up to step `n`: the lines for
/// `1, 2, ..., n`, in order.
pub open spec fn run_lines(n: nat) -> Seq<char>
    decreases n,
{
    if n == 0 {
        Seq::empty()
    } else {
        run_lines((n - 1) as nat) + line_text(n)
    }
}

/// How many steps one run simulates, and so how many lines it appends.
pub const RUN_LINE_COUNT: u64 = 50;

/// The mathematical model of the view-state: each text field as a sequence of
/// characters, and the logo as decoded.
#[verifier::ext_equal]
pub struct StateModel {
    pub identifier: Seq<char>,
    pub greeting: Seq<char>,
    pub logo: Option<Logo>,
    pub log: Seq<char>,
    pub test_result: Seq<char>,
    pub error_code: Seq<char>,
}

/// The model of a freshly started session: empty identifier and greeting, no
/// logo yet, the placeholder log, and blank status labels.
pub open spec fn init_model() -> StateModel {
    StateModel {
        identifier: Seq::empty(),
        greeting: Seq::empty(),
        logo: None,
        log: default_log_text(),
        test_result: blank_message_text(),
        error_code: blank_message_text(),
    }
}

/// What one click of Start does to the state, whatever the state is: the run
/// lines are appended to the log, both status messages are overwritten with
/// their fixed texts, and every other field — the identifier among them — is
/// left alone.
pub open spec fn start_transition(m: StateModel) -> StateModel {
    StateModel {
        log: m.log + run_lines(RUN_LINE_COUNT as nat),
        test_result: test_result_text(),
        error_code: error_code_text(),
        ..m
    }
}

/// The state after the identifier field is edited: only that field changes.
pub open spec fn with_identifier(m: StateModel, text: Seq<char>) -> StateModel {
    StateModel { identifier: text, ..m }
}

/// The state after the logo is registered at startup: only the logo changes.
pub open spec fn with_logo(m: StateModel, logo: Logo) -> StateModel {
    StateModel { logo: Some(logo), ..m }
}

/// The session view-state. One instance owns every field for the life of the
/// process.
pub struct AppState {
    /// The identifier the user typed; free-form, never validated.
    pub identifier: String,
    /// An optional greeting line; shown only when non-empty.
    pub greeting: String,
    /// The decoded logo, set once at startup.
    pub logo: Option<Logo>,
    /// The accumulated output log; append-only, unbounded by design.
    pub log: String,
    /// The test-result label.
    pub test_result: String,
    /// The error-code label.
    pub error_code: String,
}

impl View for AppState {
    type V = StateModel;

    open spec fn view(&self) -> StateModel {
        StateModel {
            identifier: self.identifier@,
            greeting: self.greeting@,
            logo: self.logo,
            log: self.log@,
            test_result: self.test_result@,
            error_code: self.error_code@,
        }
    }
}

impl AppState {
    /// A fresh session, before the logo is loaded and before any run.
    pub fn new() -> (s: AppState)
        ensures
            s@ == init_model(),
    {
        let s = AppState {
            identifier: String::new(),
            greeting: String::new(),
            logo: None,
            log: String::from_str("Output will be here"),
            test_result: String::from_str(" "),
            error_code: String::from_str(" "),
        };
        proof {
            assert(s@ =~= init_model());
        }
        s
    }

    /// Stores what the user typed in the identifier field. Nothing else moves.
    pub fn set_identifier(&mut self, text: String)
        ensures
            final(self)@ == with_identifier(old(self)@, text@),
    {
        self.identifier = text;
        proof {
            assert(self@ =~= with_identifier(old(self)@, text@));
        }
    }

    /// Registers the decoded logo at startup. Nothing else moves.
    pub fn set_logo(&mut self, logo: Logo)
        ensures
            final(self)@ == with_logo(old(self)@, logo),
    {
        self.logo = Some(logo);
        proof {
            assert(self@ =~= with_logo(old(self)@, logo));
        }
    }

    /// One click of Start: appends the lines `line1` through `line50` to the
    /// log, each on its own line, after whatever the log already held, and
    /// overwrites the two status messages with their fixed texts. The
    /// identifier plays no part, whatever it holds.
    pub fn start(&mut self)
        ensures
            final(self)@ == start_transition(old(self)@),
    {
        let mut i: u64 = 1;
        proof {
            assert(self.log@ =~= old(self).log@ + run_lines(0));
        }
        while i <= RUN_LINE_COUNT
            invariant
                1 <= i <= RUN_LINE_COUNT + 1,
                self.log@ == old(self).log@ + run_lines((i - 1) as nat),
                self.identifier == old(self).identifier,
                self.greeting == old(self).greeting,
                self.logo == old(self).logo,
                self.test_result == old(self).test_result,
                self.error_code == old(self).error_code,
            decreases RUN_LINE_COUNT + 1 - i,
        {
            self.log.append("\nline");
            let digits = u64_to_string(i);
            self.log.append(digits.as_str());
            proof {
                assert(self.log@ =~= old(self).log@ + run_lines(i as nat));
            }
            i = i + 1;
        }
        self.test_result = String::from_str("Check the button and LM for shorts");
        self.error_code = String::from_str("GPIO: pin (gpio 11) value is 0");
        proof {
            assert(self@ =~= start_transition(old(self)@));
        }
    }

    /// The fixed window title.
    pub fn window_title() -> (t: &'static str)
        ensures
            t@ == window_title_text(),
    {
        "Gateway Logger V0.1.0"
    }
}

/// How many lines a piece of text spans beyond its first: the number of line
/// breaks in it.
pub open spec fn line_break_count(s: Seq<char>) -> nat
    decreases s.len(),
{
    if s.len() == 0 {
        0
    } else {
        line_break_count(s.drop_last()) + (if s.last() == '\n' {
            1nat
        } else {
            0nat
        })
    }
}

/// Line breaks add up over concatenation.
pub proof fn lemma_line_break_count_concat(a: Seq<char>, b: Seq<char>)
    ensures
        line_break_count(a + b) == line_break_count(a) + line_break_count(b),
    decreases b.len(),
{
    if b.len() == 0 {
        assert(a + b =~= a);
    } else {
        lemma_line_break_count_concat(a, b.drop_last());
        assert((a + b).drop_last() =~= a + b.drop_last());
        assert((a + b).last() == b.last());
    }
}

/// Text without a line break spans a single line.
pub proof fn lemma_no_line_break(s: Seq<char>)
    requires
        forall|k: int| 0 <= k < s.len() ==> s[k] != '\n',
    ensures
        line_break_count(s) == 0,
    decreases s.len(),
{
    if s.len() > 0 {
        assert(forall|k: int|
            0 <= k < s.drop_last().len() ==> s.drop_last()[k] == s[k]);
        lemma_no_line_break(s.drop_last());
    }
}

/// Each run line stands on a line of its own: it opens with the one line break
/// it contains.
pub proof fn lemma_line_text_one_break(i: nat)
    ensures
        line_break_count(line_text(i)) == 1,
{
    reveal_strlit("\nline");
    let s = "\nline"@;
    let head = seq!['\n'];
    let rest = s.subrange(1, 5);
    assert(s =~= head + rest);
    let e = Seq::<char>::empty();
    assert(line_break_count(e) == 0);
    assert(head.drop_last() =~= e);
    assert(line_break_count(head) == 1);
    assert(forall|k: int| 0 <= k < rest.len() ==> rest[k] == s[k + 1]);
    lemma_no_line_break(rest);
    lemma_line_break_count_concat(head, rest);
    lemma_dec_str_no_newline(i);
    lemma_no_line_break(dec_str(i));
    lemma_line_break_count_concat(s, dec_str(i));
}

/// What a run appends spans exactly `n` fresh lines.
pub proof fn lemma_run_lines_break_count(n: nat)
    ensures
        line_break_count(run_lines(n)) == n,
    decreases n,
{
    if n > 0 {
        lemma_run_lines_break_count((n - 1) as nat);
        lemma_line_text_one_break(n);
        lemma_line_break_count_concat(run_lines((n - 1) as nat), line_text(n));
    }
}

/// One click of Start appends the fifty run lines after the prior content of
/// the log — whatever that content is, the default placeholder included — and
/// the log gains exactly fifty lines. Repeated clicks therefore keep
/// appending, fifty lines at a time.
pub proof fn lemma_start_appends_fifty_lines(m: StateModel)
    ensures
        start_transition(m).log == m.log + run_lines(RUN_LINE_COUNT as nat),
        line_break_count(start_transition(m).log) == line_break_count(m.log) + 50,
{
    lemma_run_lines_break_count(RUN_LINE_COUNT as nat);
    lemma_line_break_count_concat(m.log, run_lines(RUN_LINE_COUNT as nat));
}

/// Every click leaves the same two status messages, whatever the state was
/// when the button was pressed.
pub proof fn lemma_start_messages_fixed(m: StateModel)
    ensures
        start_transition(m).test_result == test_result_text(),
        start_transition(m).error_code == error_code_text(),
{
}

/// Editing the identifier field beforehand does not alter what a run does:
/// the log, the test-result message and the error-code message come out the
/// same as if the field had been left alone.
pub proof fn lemma_identifier_ignored_by_start(m: StateModel, text: Seq<char>)
    ensures
        start_transition(with_identifier(m, text)).log == start_transition(m).log,
        start_transition(with_identifier(m, text)).test_result == start_transition(m).test_result,
        start_transition(with_identifier(m, text)).error_code == start_transition(m).error_code,
        start_transition(with_identifier(m, text)) == with_identifier(start_transition(m), text),
{
    assert(start_transition(with_identifier(m, text)) =~= with_identifier(
        start_transition(m),
        text,
    ));
}

} // verus!
