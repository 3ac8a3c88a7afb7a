//! The line protocol spoken with the privileged authentication helper.
//!
//! The helper writes one line per event, `KEYWORD` optionally followed by a
//! single space and free text; answers go back as the text followed by a
//! newline. Nothing is quoted or escaped in either direction.

use vstd::prelude::*;
use vstd::string::*;

verus! {

/// What one helper line, or the state of the helper itself, means.
#[derive(Clone, Debug)]
pub enum Event {
    /// The helper could not be started, or its stream broke.
    Failed,
    /// The helper runs and accepts answers.
    Responder,
    /// The helper asks for input; the flag says whether input may be shown.
    Request(String, bool),
    ShowError(String),
    ShowDebug(String),
    /// The helper's verdict on the last attempt.
    Complete(bool),
}

/// `Event` with its texts as character sequences.
pub enum EventView {
    Failed,
    Responder,
    Request(Seq<char>, bool),
    ShowError(Seq<char>),
    ShowDebug(Seq<char>),
    Complete(bool),
}

impl View for Event {
    type V = EventView;

    open spec fn view(&self) -> EventView {
        match *self {
            Event::Failed => EventView::Failed,
            Event::Responder => EventView::Responder,
            Event::Request(s, echo) => EventView::Request(s@, echo),
            Event::ShowError(s) => EventView::ShowError(s@),
            Event::ShowDebug(s) => EventView::ShowDebug(s@),
            Event::Complete(ok) => EventView::Complete(ok),
        }
    }
}

pub open spec fn kw_prompt_echo_off() -> Seq<char> {
    "PAM_PROMPT_ECHO_OFF"@
}

pub open spec fn kw_prompt_echo_on() -> Seq<char> {
    "PAM_PROMPT_ECHO_ON"@
}

pub open spec fn kw_error_msg() -> Seq<char> {
    "PAM_ERROR_MSG"@
}

pub open spec fn kw_text_info() -> Seq<char> {
    "PAM_TEXT_INFO"@
}

pub open spec fn kw_success() -> Seq<char> {
    "SUCCESS"@
}

pub open spec fn kw_failure() -> Seq<char> {
    "FAILURE"@
}

/// The line without its terminating newline, if it has one.
pub open spec fn strip_newline(line: Seq<char>) -> Seq<char> {
    if line.len() > 0 && line.last() == '\n' {
        line.drop_last()
    } else {
        line
    }
}

/// `body` is the keyword `kw` alone, or `kw`, one space, and free text.
pub open spec fn tagged(body: Seq<char>, kw: Seq<char>) -> bool {
    body.len() >= kw.len() && body.subrange(0, kw.len() as int) == kw && (body.len() > kw.len()
        ==> body[kw.len() as int] == ' ')
}

/// The free text that follows keyword `kw` and its space in `body`.
pub open spec fn payload(body: Seq<char>, kw: Seq<char>) -> Seq<char> {
    if body.len() > kw.len() {
        body.subrange(kw.len() as int + 1, body.len() as int)
    } else {
        Seq::empty()
    }
}

/// The event a line stands for; `None` for a line that starts with no known
/// keyword.
pub open spec fn decode(line: Seq<char>) -> Option<EventView> {
    let body = strip_newline(line);
    if tagged(body, kw_prompt_echo_off()) {
        Some(EventView::Request(payload(body, kw_prompt_echo_off()), false))
    } else if tagged(body, kw_prompt_echo_on()) {
        Some(EventView::Request(payload(body, kw_prompt_echo_on()), true))
    } else if tagged(body, kw_error_msg()) {
        Some(EventView::ShowError(payload(body, kw_error_msg())))
    } else if tagged(body, kw_text_info()) {
        Some(EventView::ShowDebug(payload(body, kw_text_info())))
    } else if tagged(body, kw_success()) {
        Some(EventView::Complete(true))
    } else if tagged(body, kw_failure()) {
        Some(EventView::Complete(false))
    } else {
        None
    }
}

/// Frame of an answer: the text, then a newline.
pub open spec fn frame(answer: Seq<char>) -> Seq<char> {
    answer.push('\n')
}

/// The line that carries keyword `kw` and free text `rest`.
pub open spec fn line_of(kw: Seq<char>, rest: Seq<char>) -> Seq<char> {
    (kw.push(' ') + rest).push('\n')
}

/// The six keywords of the protocol.
pub open spec fn is_keyword(kw: Seq<char>) -> bool {
    ||| kw == kw_prompt_echo_off()
    ||| kw == kw_prompt_echo_on()
    ||| kw == kw_error_msg()
    ||| kw == kw_text_info()
    ||| kw == kw_success()
    ||| kw == kw_failure()
}

proof fn lemma_keywords()
    ensures
        kw_prompt_echo_off() == seq![
            'P', 'A', 'M', '_', 'P', 'R', 'O', 'M', 'P', 'T', '_', 'E', 'C', 'H', 'O', '_', 'O', 'F', 'F',
        ],
        kw_prompt_echo_on() == seq![
            'P', 'A', 'M', '_', 'P', 'R', 'O', 'M', 'P', 'T', '_', 'E', 'C', 'H', 'O', '_', 'O', 'N',
        ],
        kw_error_msg() == seq!['P', 'A', 'M', '_', 'E', 'R', 'R', 'O', 'R', '_', 'M', 'S', 'G'],
        kw_text_info() == seq!['P', 'A', 'M', '_', 'T', 'E', 'X', 'T', '_', 'I', 'N', 'F', 'O'],
        kw_success() == seq!['S', 'U', 'C', 'C', 'E', 'S', 'S'],
        kw_failure() == seq!['F', 'A', 'I', 'L', 'U', 'R', 'E'],
{
    reveal_strlit("PAM_PROMPT_ECHO_OFF");
    reveal_strlit("PAM_PROMPT_ECHO_ON");
    reveal_strlit("PAM_ERROR_MSG");
    reveal_strlit("PAM_TEXT_INFO");
    reveal_strlit("SUCCESS");
    reveal_strlit("FAILURE");
    assert(kw_prompt_echo_off() =~= seq![
        'P', 'A', 'M', '_', 'P', 'R', 'O', 'M', 'P', 'T', '_', 'E', 'C', 'H', 'O', '_', 'O', 'F', 'F',
    ]);
    assert(kw_prompt_echo_on() =~= seq![
        'P', 'A', 'M', '_', 'P', 'R', 'O', 'M', 'P', 'T', '_', 'E', 'C', 'H', 'O', '_', 'O', 'N',
    ]);
    assert(kw_error_msg() =~= seq!['P', 'A', 'M', '_', 'E', 'R', 'R', 'O', 'R', '_', 'M', 'S', 'G']);
    assert(kw_text_info() =~= seq!['P', 'A', 'M', '_', 'T', 'E', 'X', 'T', '_', 'I', 'N', 'F', 'O']);
    assert(kw_success() =~= seq!['S', 'U', 'C', 'C', 'E', 'S', 'S']);
    assert(kw_failure() =~= seq!['F', 'A', 'I', 'L', 'U', 'R', 'E']);
}

/// No line carries two keywords: a body tagged by one keyword is tagged by
/// no other, so the order in which `decode` tries them plays no part.
pub proof fn law_keyword_is_unique(body: Seq<char>, a: Seq<char>, b: Seq<char>)
    requires
        is_keyword(a),
        is_keyword(b),
        tagged(body, a),
        tagged(body, b),
    ensures
        a == b,
{
    lemma_keywords();
    if a != b {
        let k = if a.len() <= b.len() { a.len() as int } else { b.len() as int };
        assert(forall|i: int| 0 <= i < a.len() ==> body.subrange(0, a.len() as int)[i] == body[i]);
        assert(forall|i: int| 0 <= i < b.len() ==> body.subrange(0, b.len() as int)[i] == body[i]);
        assert(forall|i: int| 0 <= i < k ==> a[i] == b[i]);
        if a.len() == b.len() {
            assert(a =~= b);
        } else if a.len() < b.len() {
            assert(body[a.len() as int] == ' ');
            assert(b[a.len() as int] == ' ');
        } else {
            assert(body[b.len() as int] == ' ');
            assert(a[b.len() as int] == ' ');
        }
    }
}

proof fn lemma_keywords_differ()
    ensures
        kw_prompt_echo_off().len() == 19,
        kw_prompt_echo_on().len() == 18,
        kw_error_msg().len() == 13,
        kw_text_info().len() == 13,
        kw_success().len() == 7,
        kw_failure().len() == 7,
        kw_error_msg() != kw_text_info(),
        kw_success() != kw_failure(),
{
    lemma_keywords();
    assert(kw_error_msg()[4] == 'E' && kw_text_info()[4] == 'T');
    assert(kw_success()[0] == 'S' && kw_failure()[0] == 'F');
}

proof fn lemma_only_tag(body: Seq<char>, kw: Seq<char>)
    requires
        is_keyword(kw),
        tagged(body, kw),
    ensures
        tagged(body, kw_prompt_echo_off()) ==> kw == kw_prompt_echo_off(),
        tagged(body, kw_prompt_echo_on()) ==> kw == kw_prompt_echo_on(),
        tagged(body, kw_error_msg()) ==> kw == kw_error_msg(),
        tagged(body, kw_text_info()) ==> kw == kw_text_info(),
        tagged(body, kw_success()) ==> kw == kw_success(),
        tagged(body, kw_failure()) ==> kw == kw_failure(),
{
    if tagged(body, kw_prompt_echo_off()) {
        law_keyword_is_unique(body, kw, kw_prompt_echo_off());
    }
    if tagged(body, kw_prompt_echo_on()) {
        law_keyword_is_unique(body, kw, kw_prompt_echo_on());
    }
    if tagged(body, kw_error_msg()) {
        law_keyword_is_unique(body, kw, kw_error_msg());
    }
    if tagged(body, kw_text_info()) {
        law_keyword_is_unique(body, kw, kw_text_info());
    }
    if tagged(body, kw_success()) {
        law_keyword_is_unique(body, kw, kw_success());
    }
    if tagged(body, kw_failure()) {
        law_keyword_is_unique(body, kw, kw_failure());
    }
}

proof fn lemma_line_is_tagged(kw: Seq<char>, rest: Seq<char>)
    ensures
        strip_newline(line_of(kw, rest)) == kw.push(' ') + rest,
        tagged(strip_newline(line_of(kw, rest)), kw),
        payload(strip_newline(line_of(kw, rest)), kw) == rest,
        strip_newline(kw.push('\n')) == kw,
        tagged(kw, kw),
        payload(kw, kw) == Seq::<char>::empty(),
{
    let body = kw.push(' ') + rest;
    assert(line_of(kw, rest).drop_last() =~= body);
    assert(body.subrange(0, kw.len() as int) =~= kw);
    assert(body.subrange(kw.len() as int + 1, body.len() as int) =~= rest);
    assert(kw.push('\n').drop_last() =~= kw);
    assert(kw.subrange(0, kw.len() as int) =~= kw);
}

/// Each keyword maps to its event, and the text after the keyword's space
/// comes through unchanged, whatever characters it holds.
pub proof fn law_decode_line_of(rest: Seq<char>)
    ensures
        decode(line_of(kw_prompt_echo_off(), rest)) == Some(EventView::Request(rest, false)),
        decode(line_of(kw_prompt_echo_on(), rest)) == Some(EventView::Request(rest, true)),
        decode(line_of(kw_error_msg(), rest)) == Some(EventView::ShowError(rest)),
        decode(line_of(kw_text_info(), rest)) == Some(EventView::ShowDebug(rest)),
        decode(line_of(kw_success(), rest)) == Some(EventView::Complete(true)),
        decode(line_of(kw_failure(), rest)) == Some(EventView::Complete(false)),
{
    lemma_line_is_tagged(kw_prompt_echo_off(), rest);
    lemma_line_is_tagged(kw_prompt_echo_on(), rest);
    lemma_line_is_tagged(kw_error_msg(), rest);
    lemma_line_is_tagged(kw_text_info(), rest);
    lemma_line_is_tagged(kw_success(), rest);
    lemma_line_is_tagged(kw_failure(), rest);
    lemma_keywords_differ();
    lemma_only_tag(strip_newline(line_of(kw_prompt_echo_off(), rest)), kw_prompt_echo_off());
    lemma_only_tag(strip_newline(line_of(kw_prompt_echo_on(), rest)), kw_prompt_echo_on());
    lemma_only_tag(strip_newline(line_of(kw_error_msg(), rest)), kw_error_msg());
    lemma_only_tag(strip_newline(line_of(kw_text_info(), rest)), kw_text_info());
    lemma_only_tag(strip_newline(line_of(kw_success(), rest)), kw_success());
    lemma_only_tag(strip_newline(line_of(kw_failure(), rest)), kw_failure());
}

/// A keyword alone on its line decodes as it does with empty text.
pub proof fn law_decode_bare_keyword()
    ensures
        decode(kw_prompt_echo_off().push('\n')) == Some(EventView::Request(Seq::empty(), false)),
        decode(kw_prompt_echo_on().push('\n')) == Some(EventView::Request(Seq::empty(), true)),
        decode(kw_error_msg().push('\n')) == Some(EventView::ShowError(Seq::empty())),
        decode(kw_text_info().push('\n')) == Some(EventView::ShowDebug(Seq::empty())),
        decode(kw_success().push('\n')) == Some(EventView::Complete(true)),
        decode(kw_failure().push('\n')) == Some(EventView::Complete(false)),
{
    let rest = Seq::<char>::empty();
    lemma_line_is_tagged(kw_prompt_echo_off(), rest);
    lemma_line_is_tagged(kw_prompt_echo_on(), rest);
    lemma_line_is_tagged(kw_error_msg(), rest);
    lemma_line_is_tagged(kw_text_info(), rest);
    lemma_line_is_tagged(kw_success(), rest);
    lemma_line_is_tagged(kw_failure(), rest);
    lemma_keywords_differ();
    lemma_only_tag(kw_prompt_echo_off(), kw_prompt_echo_off());
    lemma_only_tag(kw_prompt_echo_on(), kw_prompt_echo_on());
    lemma_only_tag(kw_error_msg(), kw_error_msg());
    lemma_only_tag(kw_text_info(), kw_text_info());
    lemma_only_tag(kw_success(), kw_success());
    lemma_only_tag(kw_failure(), kw_failure());
}

/// A line that ends without a newline decodes as the same line with one,
/// unless its own last character is a newline.
pub proof fn law_newline_is_optional(body: Seq<char>)
    requires
        body.len() == 0 || body.last() != '\n',
    ensures
        decode(body) == decode(body.push('\n')),
{
    assert(body.push('\n').drop_last() =~= body);
}

/// A framed answer ends in exactly the newline that framing added: taking
/// the newline off gives the answer back.
pub proof fn law_frame_round_trip(answer: Seq<char>)
    ensures
        strip_newline(frame(answer)) == answer,
{
    assert(frame(answer).drop_last() =~= answer);
}

fn is_tagged(body: &str, n: usize, kw: &str, k: usize) -> (b: bool)
    requires
        n == body@.len(),
        k == kw@.len(),
    ensures
        b == tagged(body@, kw@),
{
    if n < k {
        return false;
    }
    let head = body.substring_char(0, k);
    if head.to_owned() != kw.to_owned() {
        return false;
    }
    if n == k {
        true
    } else {
        body.get_char(k) == ' '
    }
}

fn payload_of(body: &str, n: usize, k: usize) -> (text: String)
    requires
        n == body@.len(),
        k <= n,
    ensures
        text@ == if n > k {
            body@.subrange(k as int + 1, n as int)
        } else {
            Seq::empty()
        },
{
    if n > k {
        body.substring_char(k + 1, n).to_owned()
    } else {
        String::new()
    }
}

/// Decodes one line as read from the helper, with or without its newline.
pub fn decode_line(line: &str) -> (event: Option<Event>)
    ensures
        event.is_some() == decode(line@).is_some(),
        event matches Some(e) ==> decode(line@) == Some(e@),
{
    proof {
        reveal_strlit("PAM_PROMPT_ECHO_OFF");
        reveal_strlit("PAM_PROMPT_ECHO_ON");
        reveal_strlit("PAM_ERROR_MSG");
        reveal_strlit("PAM_TEXT_INFO");
        reveal_strlit("SUCCESS");
        reveal_strlit("FAILURE");
    }
    let full = line.unicode_len();
    let body = if full > 0 && line.get_char(full - 1) == '\n' {
        line.substring_char(0, full - 1)
    } else {
        line
    };
    assert(body@ == strip_newline(line@));
    let n = body.unicode_len();
    if is_tagged(body, n, "PAM_PROMPT_ECHO_OFF", 19) {
        Some(Event::Request(payload_of(body, n, 19), false))
    } else if is_tagged(body, n, "PAM_PROMPT_ECHO_ON", 18) {
        Some(Event::Request(payload_of(body, n, 18), true))
    } else if is_tagged(body, n, "PAM_ERROR_MSG", 13) {
        Some(Event::ShowError(payload_of(body, n, 13)))
    } else if is_tagged(body, n, "PAM_TEXT_INFO", 13) {
        Some(Event::ShowDebug(payload_of(body, n, 13)))
    } else if is_tagged(body, n, "SUCCESS", 7) {
        Some(Event::Complete(true))
    } else if is_tagged(body, n, "FAILURE", 7) {
        Some(Event::Complete(false))
    } else {
        None
    }
}

/// What a write to the helper's standard input comes to: nothing if it
/// went through, the helper's failure if it did not.
pub fn written(done: bool) -> (event: Option<Event>)
    ensures
        done ==> event is None,
        !done ==> (event matches Some(e) && e@ == EventView::Failed),
{
    if done {
        None
    } else {
        Some(Event::Failed)
    }
}

/// Frames an answer for the helper's standard input.
pub fn frame_response(resp: &str) -> (framed: String)
    ensures
        framed@ == frame(resp@),
{
    proof {
        reveal_strlit("\n");
    }
    let framed = resp.to_owned().concat("\n");
    assert(framed@ =~= frame(resp@));
    framed
}

/// Where the helper is installed unless the build names another place.
pub open spec fn default_helper_path() -> Seq<char> {
    "/usr/libexec/polkit-agent-helper-1"@
}

/// How to start the helper for one request: the program, its only argument,
/// and the first frame to put on its standard input.
pub struct Launch {
    pub program: String,
    pub argument: String,
    pub greeting: String,
}

/// Plans the start of the helper: it runs as `configured` (or from its
/// default place) with the user name as its sole argument, and is sent the
/// cookie, framed, before anything else.
pub fn launch_plan(configured: Option<&str>, pw_name: &str, cookie: &str) -> (plan: Launch)
    ensures
        plan.program@ == (match configured {
            Some(path) => path@,
            None => default_helper_path(),
        }),
        plan.argument@ == pw_name@,
        plan.greeting@ == frame(cookie@),
{
    let program = match configured {
        Some(path) => path.to_owned(),
        None => "/usr/libexec/polkit-agent-helper-1".to_owned(),
    };
    Launch { program, argument: pw_name.to_owned(), greeting: frame_response(cookie) }
}

/// How starting the helper went.
#[derive(Clone, Copy, Debug, PartialEq, Eq)]
pub enum Spawned {
    /// The helper runs and has been sent the cookie.
    Running,
    /// The helper binary could not be executed.
    SpawnError,
    /// The helper started, but the cookie could not be written to it.
    IoError,
}

/// What one attempt to read a line from the helper gave.
#[derive(Clone, Debug)]
pub enum Read {
    Line(String),
    /// A read of zero bytes: the helper closed its output.
    EndOfStream,
    /// The read failed, or the bytes were no text.
    Error,
}

pub enum ReadView {
    Line(Seq<char>),
    EndOfStream,
    Error,
}

impl View for Read {
    type V = ReadView;

    open spec fn view(&self) -> ReadView {
        match *self {
            Read::Line(s) => ReadView::Line(s@),
            Read::EndOfStream => ReadView::EndOfStream,
            Read::Error => ReadView::Error,
        }
    }
}

/// What the reader does after one read.
#[derive(Clone, Debug)]
pub enum Step {
    /// Hand this event on; unless it is `Failed`, read again.
    Deliver(Event),
    /// The line is none of the protocol's: warn, and read again.
    Skip,
    /// Nothing more will come: the helper is gone.
    Finished,
}

pub enum StepView {
    Deliver(EventView),
    Skip,
    Finished,
}

impl View for Step {
    type V = StepView;

    open spec fn view(&self) -> StepView {
        match *self {
            Step::Deliver(e) => StepView::Deliver(e@),
            Step::Skip => StepView::Skip,
            Step::Finished => StepView::Finished,
        }
    }
}

/// What the reader remembers of its helper.
pub struct Reader {
    /// The helper has given its outcome and asked nothing since.
    pub settled: bool,
    /// The helper is gone: it did not start, its stream failed, or its
    /// stream ended. Nothing more is read.
    pub ended: bool,
}

/// The reader's answer to one read. A reader whose helper is gone answers
/// every read with the end. Else an end of stream before the helper's
/// outcome, and every failed read, is the helper failing; an unknown line
/// is skipped and ends nothing.
pub open spec fn step_for(reader: Reader, read: ReadView) -> StepView {
    if reader.ended {
        StepView::Finished
    } else {
        match read {
            ReadView::Line(line) => match decode(line) {
                Some(event) => StepView::Deliver(event),
                None => StepView::Skip,
            },
            ReadView::EndOfStream => if reader.settled {
                StepView::Finished
            } else {
                StepView::Deliver(EventView::Failed)
            },
            ReadView::Error => StepView::Deliver(EventView::Failed),
        }
    }
}

/// What the reader remembers after a read that it answered with `step`:
/// an outcome settles the helper and a new prompt unsettles it; a failure
/// and the end of the stream are the end of the helper, for good.
pub open spec fn reader_after(reader: Reader, step: StepView) -> Reader {
    Reader {
        settled: match step {
            StepView::Deliver(EventView::Complete(_)) => true,
            StepView::Deliver(EventView::Request(_, _)) => false,
            _ => reader.settled,
        },
        ended: reader.ended || step == StepView::Deliver(EventView::Failed) || step
            == StepView::Finished,
    }
}

/// The reader of a helper that was started with this outcome.
pub open spec fn reader_started(outcome: Spawned) -> Reader {
    Reader { settled: false, ended: outcome != Spawned::Running }
}

/// The reading side of one helper process.
#[derive(Debug)]
pub struct AgentHelper {
    settled: bool,
    ended: bool,
}

impl View for AgentHelper {
    type V = Reader;

    closed spec fn view(&self) -> Reader {
        Reader { settled: self.settled, ended: self.ended }
    }
}

impl AgentHelper {
    /// Whether the helper is gone and nothing more is to be read.
    pub fn has_ended(&self) -> (ended: bool)
        ensures
            ended == self@.ended,
    {
        self.ended
    }

    /// Turns the outcome of starting the helper into the reader and the
    /// first event: a running helper announces its responder; a helper that
    /// did not start or took no cookie has failed, and its reader has ended.
    pub fn new(outcome: Spawned) -> (started: (AgentHelper, Event))
        ensures
            started.0@ == reader_started(outcome),
            started.1@ == (if outcome == Spawned::Running {
                EventView::Responder
            } else {
                EventView::Failed
            }),
    {
        match outcome {
            Spawned::Running => (AgentHelper { settled: false, ended: false }, Event::Responder),
            Spawned::SpawnError => (AgentHelper { settled: false, ended: true }, Event::Failed),
            Spawned::IoError => (AgentHelper { settled: false, ended: true }, Event::Failed),
        }
    }

    /// Answers one read from the helper's output.
    pub fn next(&mut self, read: Read) -> (step: Step)
        ensures
            step@ == step_for(old(self)@, read@),
            final(self)@ == reader_after(old(self)@, step@),
    {
        if self.ended {
            return Step::Finished;
        }
        let step = match read {
            Read::Line(line) => match decode_line(line.as_str()) {
                Some(event) => Step::Deliver(event),
                None => Step::Skip,
            },
            Read::EndOfStream => if self.settled {
                Step::Finished
            } else {
                Step::Deliver(Event::Failed)
            },
            Read::Error => Step::Deliver(Event::Failed),
        };
        match &step {
            Step::Deliver(Event::Complete(_)) => {
                self.settled = true;
            },
            Step::Deliver(Event::Request(_, _)) => {
                self.settled = false;
            },
            Step::Deliver(Event::Failed) => {
                self.ended = true;
            },
            Step::Finished => {
                self.ended = true;
            },
            _ => {},
        }
        step
    }
}

/// Until the helper has given its outcome, the end of its stream is the
/// same to the reader as a failed read: both deliver `Failed`.
pub proof fn law_early_end_is_failure(reader: Reader)
    requires
        !reader.settled,
        !reader.ended,
    ensures
        step_for(reader, ReadView::EndOfStream) == step_for(reader, ReadView::Error),
        step_for(reader, ReadView::EndOfStream) == StepView::Deliver(EventView::Failed),
{
}

/// No line, known or not, makes the reader report failure or the end.
pub proof fn law_lines_never_fail(reader: Reader, line: Seq<char>)
    requires
        !reader.ended,
    ensures
        step_for(reader, ReadView::Line(line)) != StepView::Deliver(EventView::Failed),
        step_for(reader, ReadView::Line(line)) != StepView::Finished,
{
}

/// The answers to a run of reads, one after the other.
pub open spec fn steps(reader: Reader, reads: Seq<ReadView>) -> Seq<StepView>
    decreases reads.len(),
{
    if reads.len() == 0 {
        Seq::empty()
    } else {
        let before = steps(reader, reads.drop_last());
        before.push(step_for(reader_through(reader, reads.drop_last()), reads.last()))
    }
}

/// What the reader remembers after a run of reads.
pub open spec fn reader_through(reader: Reader, reads: Seq<ReadView>) -> Reader
    decreases reads.len(),
{
    if reads.len() == 0 {
        reader
    } else {
        let before = reader_through(reader, reads.drop_last());
        reader_after(before, step_for(before, reads.last()))
    }
}

/// Failure is reported once. After the reader has delivered `Failed`, and
/// after it has reported the end, every later read is answered with the
/// end: the helper is neither read nor started again.
pub proof fn law_nothing_after_the_end(reader: Reader, reads: Seq<ReadView>, i: int, j: int)
    requires
        0 <= i < j < reads.len(),
        steps(reader, reads)[i] == StepView::Deliver(EventView::Failed) || steps(reader, reads)[i]
            == StepView::Finished,
    ensures
        steps(reader, reads)[j] == StepView::Finished,
    decreases reads.len(),
{
    let init = reads.drop_last();
    lemma_steps(reader, init);
    lemma_steps(reader, reads);
    if j < init.len() {
        law_nothing_after_the_end(reader, init, i, j);
    } else {
        lemma_ended_stays(reader, init, i);
    }
}

proof fn lemma_steps(reader: Reader, reads: Seq<ReadView>)
    ensures
        steps(reader, reads).len() == reads.len(),
        forall|k: int|
            0 <= k < reads.len() ==> #[trigger] steps(reader, reads)[k] == step_for(
                reader_through(reader, reads.subrange(0, k)),
                reads[k],
            ),
    decreases reads.len(),
{
    if reads.len() > 0 {
        let init = reads.drop_last();
        lemma_steps(reader, init);
        assert forall|k: int| 0 <= k < reads.len() implies #[trigger] steps(reader, reads)[k]
            == step_for(reader_through(reader, reads.subrange(0, k)), reads[k]) by {
            if k < init.len() {
                assert(init.subrange(0, k) =~= reads.subrange(0, k));
                assert(init[k] == reads[k]);
            } else {
                assert(reads.subrange(0, k) =~= init);
            }
        }
    }
}

proof fn lemma_ended_stays(reader: Reader, reads: Seq<ReadView>, i: int)
    requires
        0 <= i < reads.len(),
        step_for(reader_through(reader, reads.subrange(0, i)), reads[i]) == StepView::Deliver(
            EventView::Failed,
        ) || step_for(reader_through(reader, reads.subrange(0, i)), reads[i]) == StepView::Finished,
    ensures
        reader_through(reader, reads).ended,
    decreases reads.len(),
{
    let init = reads.drop_last();
    if i < init.len() {
        assert(init.subrange(0, i) =~= reads.subrange(0, i));
        assert(init[i] == reads[i]);
        lemma_ended_stays(reader, init, i);
    } else {
        assert(reads.subrange(0, i) =~= init);
    }
}

/// One turn of a helper's event source. Without a reader yet, the outcome
/// of starting the helper gives the reader and the first event; with a
/// reader, the read is answered as `next` answers it. There is a reader
/// after every turn, so the helper is started at most once: a start that
/// failed leaves a reader that has ended.
pub fn subscription(helper: Option<AgentHelper>, spawned: Spawned, read: Read) -> (turn: (
    Step,
    Option<AgentHelper>,
))
    ensures
        turn.1 is Some,
        helper is None ==> turn.1.unwrap()@ == reader_started(spawned) && turn.0@
            == StepView::Deliver(
            if spawned == Spawned::Running {
                EventView::Responder
            } else {
                EventView::Failed
            },
        ),
        helper matches Some(running) ==> turn.0@ == step_for(running@, read@) && turn.1.unwrap()@
            == reader_after(running@, turn.0@),
{
    match helper {
        None => {
            let (started, event) = AgentHelper::new(spawned);
            (Step::Deliver(event), Some(started))
        },
        Some(running) => {
            let mut running = running;
            let step = running.next(read);
            (step, Some(running))
        },
    }
}

} // verus!
