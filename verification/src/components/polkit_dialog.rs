//! One authentication dialog: the state that bridges the helper's events and
//! the user's actions, from the first prompt to the single verdict.

use crate::subscriptions::polkit_agent_helper::{frame, Event, EventView};
use vstd::prelude::*;
use vstd::string::*;

verus! {

/// Why a request was denied.
#[derive(Clone, Copy, Debug, PartialEq, Eq, Structural)]
pub enum Denial {
    /// The helper could not be run, or its stream failed.
    Failed,
    /// No candidate identity was a local user.
    NoEligibleIdentity,
    /// The cookie already names a request in flight.
    DuplicateCookie,
}

/// The single outcome of one authentication request.
#[derive(Clone, Copy, Debug, PartialEq, Eq, Structural)]
pub enum Verdict {
    Granted,
    Denied(Denial),
    Cancelled,
}

/// Where a dialog stands.
#[derive(Clone, Copy, Debug, PartialEq, Eq, Structural)]
pub enum Phase {
    /// The helper is starting: its responder, its first prompt, or both are
    /// still to come.
    AwaitingResponder,
    /// The user may type: the helper has asked and can be answered, or
    /// has rejected an answer and takes another.
    AwaitingInput,
    /// An answer was sent; the helper's reaction is awaited.
    Submitting,
    /// The helper rejected the answer; passed through on the way back to
    /// input, never rested in.
    Retrying,
    /// The verdict is out. Nothing changes any more.
    Terminal(Verdict),
}

/// What a request carries from the bus to its dialog.
#[derive(Clone, Debug)]
pub struct Params {
    pub pw_name: String,
    pub action_id: String,
    pub message: String,
    pub icon_name: Option<String>,
    pub details: Vec<(String, String)>,
    pub cookie: String,
}

pub struct ParamsView {
    pub pw_name: Seq<char>,
    pub action_id: Seq<char>,
    pub message: Seq<char>,
    pub icon_name: Option<Seq<char>>,
    pub details: Seq<(Seq<char>, Seq<char>)>,
    pub cookie: Seq<char>,
}

impl View for Params {
    type V = ParamsView;

    open spec fn view(&self) -> ParamsView {
        ParamsView {
            pw_name: self.pw_name@,
            action_id: self.action_id@,
            message: self.message@,
            icon_name: match self.icon_name {
                Some(name) => Some(name@),
                None => None,
            },
            details: self.details.deep_view(),
            cookie: self.cookie@,
        }
    }
}

/// What reaches a dialog: the helper's events and the user's actions.
#[derive(Clone, Debug)]
pub enum Msg {
    Agent(Event),
    /// Submit the text typed so far.
    Authenticate,
    Cancel,
    /// The text in the input field changed.
    Password(String),
    TogglePasswordVisibility,
}

pub enum MsgView {
    Agent(EventView),
    Authenticate,
    Cancel,
    Password(Seq<char>),
    TogglePasswordVisibility,
}

impl View for Msg {
    type V = MsgView;

    open spec fn view(&self) -> MsgView {
        match *self {
            Msg::Agent(e) => MsgView::Agent(e@),
            Msg::Authenticate => MsgView::Authenticate,
            Msg::Cancel => MsgView::Cancel,
            Msg::Password(s) => MsgView::Password(s@),
            Msg::TogglePasswordVisibility => MsgView::TogglePasswordVisibility,
        }
    }
}

/// What the caller must do after a step.
#[derive(Clone, Debug)]
pub enum Effect {
    /// Nothing beyond showing the state.
    Idle,
    /// The helper runs: open the dialog for the user. Until then the user
    /// is told nothing of the request.
    Show,
    /// Put the keyboard focus back on the emptied input field.
    Focus,
    /// Write this answer, framed, to the helper.
    Respond(String),
    /// End the helper, hand the verdict to the waiting caller, remove the
    /// dialog.
    Finish(Verdict),
}

pub enum EffectView {
    Idle,
    Show,
    Focus,
    Respond(Seq<char>),
    Finish(Verdict),
}

impl View for Effect {
    type V = EffectView;

    open spec fn view(&self) -> EffectView {
        match *self {
            Effect::Idle => EffectView::Idle,
            Effect::Show => EffectView::Show,
            Effect::Focus => EffectView::Focus,
            Effect::Respond(s) => EffectView::Respond(s@),
            Effect::Finish(v) => EffectView::Finish(v),
        }
    }
}

/// A dialog as the contracts see it.
pub struct StateView {
    pub id: u64,
    pub params: ParamsView,
    pub phase: Phase,
    pub responder: bool,
    pub prompted: bool,
    pub password: Seq<char>,
    pub password_visible: bool,
    pub message: Option<Seq<char>>,
    pub password_label: Seq<char>,
    pub echo: bool,
    pub retries: u32,
}

/// The phase a responder or a prompt leaves a dialog in: they open input
/// once both have arrived, and not before.
pub open spec fn resting_phase(responder: bool, prompted: bool) -> Phase {
    if responder && prompted {
        Phase::AwaitingInput
    } else {
        Phase::AwaitingResponder
    }
}

/// One more failed attempt; the count stops at the largest value it can hold.
pub open spec fn one_more(retries: u32) -> u32 {
    if retries < u32::MAX {
        (retries + 1) as u32
    } else {
        retries
    }
}

/// A dialog just created for `params`.
pub open spec fn initial(id: u64, params: ParamsView) -> StateView {
    StateView {
        id,
        params,
        phase: Phase::AwaitingResponder,
        responder: false,
        prompted: false,
        password: Seq::empty(),
        password_visible: false,
        message: None,
        password_label: Seq::empty(),
        echo: false,
        retries: 0,
    }
}

/// The state after the helper's event `e`, and what to do about it.
pub open spec fn on_event(s: StateView, e: EventView) -> (StateView, EffectView) {
    match e {
        EventView::Responder => (
            StateView {
                responder: true,
                phase: if s.phase == Phase::AwaitingResponder {
                    resting_phase(true, s.prompted)
                } else {
                    s.phase
                },
                ..s
            },
            if s.responder {
                EffectView::Idle
            } else {
                EffectView::Show
            },
        ),
        EventView::Failed => (
            StateView { phase: Phase::Terminal(Verdict::Denied(Denial::Failed)), ..s },
            EffectView::Finish(Verdict::Denied(Denial::Failed)),
        ),
        EventView::Request(text, echo) => (
            StateView {
                password_label: text,
                echo,
                prompted: true,
                phase: resting_phase(s.responder, true),
                ..s
            },
            EffectView::Idle,
        ),
        EventView::ShowError(text) => (StateView { message: Some(text), ..s }, EffectView::Idle),
        EventView::ShowDebug(text) => (StateView { message: Some(text), ..s }, EffectView::Idle),
        EventView::Complete(true) => (
            StateView { phase: Phase::Terminal(Verdict::Granted), ..s },
            EffectView::Finish(Verdict::Granted),
        ),
        EventView::Complete(false) => (
            StateView {
                retries: one_more(s.retries),
                password: Seq::empty(),
                phase: Phase::AwaitingInput,
                ..s
            },
            EffectView::Focus,
        ),
    }
}

/// The transition function of a dialog. A dialog whose verdict is out
/// ignores everything; a live one follows the helper and the user.
pub open spec fn step(s: StateView, m: MsgView) -> (StateView, EffectView) {
    if s.phase is Terminal {
        (s, EffectView::Idle)
    } else {
        match m {
            MsgView::Agent(e) => on_event(s, e),
            MsgView::Authenticate => if s.phase == Phase::AwaitingInput {
                (StateView { phase: Phase::Submitting, ..s }, EffectView::Respond(s.password))
            } else {
                (s, EffectView::Idle)
            },
            MsgView::Cancel => (
                StateView { phase: Phase::Terminal(Verdict::Cancelled), ..s },
                EffectView::Finish(Verdict::Cancelled),
            ),
            MsgView::Password(text) => (StateView { password: text, ..s }, EffectView::Idle),
            MsgView::TogglePasswordVisibility => (
                StateView { password_visible: !s.password_visible, ..s },
                EffectView::Idle,
            ),
        }
    }
}

/// What holds of every dialog at rest: it is never in the passing phase,
/// and it does not wait for the helper once both the responder and a prompt
/// are at hand.
pub open spec fn well_formed(s: StateView) -> bool {
    &&& s.phase != Phase::Retrying
    &&& s.phase == Phase::AwaitingResponder ==> !(s.responder && s.prompted)
}

/// One authentication dialog.
#[derive(Debug)]
pub struct State {
    id: u64,
    pub params: Params,
    phase: Phase,
    responder: bool,
    prompted: bool,
    password: String,
    password_visible: bool,
    message: Option<String>,
    password_label: String,
    echo: bool,
    retries: u32,
}

impl View for State {
    type V = StateView;

    closed spec fn view(&self) -> StateView {
        StateView {
            id: self.id,
            params: self.params@,
            phase: self.phase,
            responder: self.responder,
            prompted: self.prompted,
            password: self.password@,
            password_visible: self.password_visible,
            message: match self.message {
                Some(text) => Some(text@),
                None => None,
            },
            password_label: self.password_label@,
            echo: self.echo,
            retries: self.retries,
        }
    }
}

impl State {
    /// Opens the dialog of a request: nothing typed, nothing asked, no
    /// failed attempt, the helper still to report.
    pub fn new(id: u64, params: Params) -> (state: State)
        ensures
            state@ == initial(id, params@),
            well_formed(state@),
    {
        State {
            id,
            params,
            phase: Phase::AwaitingResponder,
            responder: false,
            prompted: false,
            password: String::new(),
            password_visible: false,
            message: None,
            password_label: String::new(),
            echo: false,
            retries: 0,
        }
    }

    fn rest(&mut self)
        ensures
            *final(self) == (State { phase: resting_phase(old(self).responder, old(self).prompted), ..*old(self) }),
    {
        self.phase = if self.responder && self.prompted {
            Phase::AwaitingInput
        } else {
            Phase::AwaitingResponder
        };
    }

    fn finish(&mut self, verdict: Verdict) -> (effect: Effect)
        ensures
            *final(self) == (State { phase: Phase::Terminal(verdict), ..*old(self) }),
            effect == Effect::Finish(verdict),
    {
        self.phase = Phase::Terminal(verdict);
        Effect::Finish(verdict)
    }

    /// Counts a rejected attempt and empties the input: the dialog is on
    /// its way back to input.
    fn fail_attempt(&mut self)
        ensures
            *final(self) == (State {
                phase: Phase::Retrying,
                retries: one_more(old(self).retries),
                password: final(self).password,
                ..*old(self)
            }),
            final(self).password@ == Seq::<char>::empty(),
    {
        self.retries = self.retries.saturating_add(1);
        self.password = String::new();
        self.phase = Phase::Retrying;
    }

    /// Opens input again after a rejected attempt.
    fn resume_input(&mut self)
        requires
            old(self).phase == Phase::Retrying,
        ensures
            *final(self) == (State { phase: Phase::AwaitingInput, ..*old(self) }),
    {
        self.phase = Phase::AwaitingInput;
    }

    fn agent(&mut self, event: Event) -> (effect: Effect)
        requires
            !(old(self)@.phase is Terminal),
        ensures
            (final(self)@, effect@) == on_event(old(self)@, event@),
            final(self).params == old(self).params,
    {
        match event {
            Event::Responder => {
                let first = !self.responder;
                self.responder = true;
                if matches!(self.phase, Phase::AwaitingResponder) {
                    self.rest();
                }
                if first {
                    Effect::Show
                } else {
                    Effect::Idle
                }
            },
            Event::Failed => self.finish(Verdict::Denied(Denial::Failed)),
            Event::Request(text, echo) => {
                self.password_label = text;
                self.echo = echo;
                self.prompted = true;
                self.rest();
                Effect::Idle
            },
            Event::ShowError(text) => {
                self.message = Some(text);
                Effect::Idle
            },
            Event::ShowDebug(text) => {
                self.message = Some(text);
                Effect::Idle
            },
            Event::Complete(success) => {
                if success {
                    self.finish(Verdict::Granted)
                } else {
                    self.fail_attempt();
                    self.resume_input();
                    Effect::Focus
                }
            },
        }
    }

    /// Takes one message: the dialog moves as `step` says, and the effect
    /// tells the caller what to do.
    pub fn step(&mut self, msg: Msg) -> (effect: Effect)
        ensures
            (final(self)@, effect@) == step(old(self)@, msg@),
    {
        if matches!(self.phase, Phase::Terminal(_)) {
            return Effect::Idle;
        }
        match msg {
            Msg::Agent(event) => self.agent(event),
            Msg::Authenticate => {
                if matches!(self.phase, Phase::AwaitingInput) {
                    self.phase = Phase::Submitting;
                    Effect::Respond(self.password.clone())
                } else {
                    Effect::Idle
                }
            },
            Msg::Cancel => self.finish(Verdict::Cancelled),
            Msg::Password(text) => {
                self.password = text;
                Effect::Idle
            },
            Msg::TogglePasswordVisibility => {
                self.password_visible = !self.password_visible;
                Effect::Idle
            },
        }
    }

    /// The user submits `text`: it becomes the text typed, and is sent to
    /// the helper if input is open. In any other phase nothing is sent.
    pub fn submit(&mut self, text: String) -> (effect: Effect)
        ensures
            (final(self)@, effect@) == step(
                step(old(self)@, MsgView::Password(text@)).0,
                MsgView::Authenticate,
            ),
            old(self)@.phase == Phase::AwaitingInput ==> effect@ == EffectView::Respond(text@)
                && final(self)@.phase == Phase::Submitting,
            old(self)@.phase != Phase::AwaitingInput ==> effect@ == EffectView::Idle,
    {
        self.step(Msg::Password(text));
        self.step(Msg::Authenticate)
    }

    /// Takes one message and gives the dialog back unless its verdict is
    /// out, in which case the dialog is gone and the effect carries it.
    pub fn update(self, event: Msg) -> (next: (Option<State>, Effect))
        ensures
            next.1@ == step(self@, event@).1,
            step(self@, event@).0.phase is Terminal <==> next.0.is_none(),
            next.0 matches Some(state) ==> state@ == step(self@, event@).0,
    {
        let mut state = self;
        let effect = state.step(event);
        if matches!(state.phase, Phase::Terminal(_)) {
            (None, effect)
        } else {
            (Some(state), effect)
        }
    }

    /// Cancels the dialog: the verdict, unless one is out already.
    pub fn cancel(self) -> (effect: Effect)
        ensures
            effect@ == step(self@, MsgView::Cancel).1,
            !(self@.phase is Terminal) ==> effect@ == EffectView::Finish(Verdict::Cancelled),
    {
        let mut state = self;
        state.step(Msg::Cancel)
    }
    /// The surface the dialog is shown on.
    pub fn id(&self) -> (id: u64)
        ensures
            id == self@.id,
    {
        self.id
    }

    /// The cookie of the request the dialog belongs to.
    pub fn cookie(&self) -> (cookie: &String)
        ensures
            cookie@ == self@.params.cookie,
    {
        &self.params.cookie
    }

    pub fn phase(&self) -> (phase: Phase)
        ensures
            phase == self@.phase,
    {
        self.phase
    }

    /// Whether the verdict is out.
    pub fn is_terminal(&self) -> (done: bool)
        ensures
            done == self@.phase is Terminal,
    {
        matches!(self.phase, Phase::Terminal(_))
    }

    /// Whether the helper runs, and the dialog is therefore open.
    pub fn is_open(&self) -> (open: bool)
        ensures
            open == self@.responder,
    {
        self.responder
    }

    /// Whether the user may type and submit.
    pub fn sensitive(&self) -> (open: bool)
        ensures
            open == (self@.phase == Phase::AwaitingInput),
    {
        matches!(self.phase, Phase::AwaitingInput)
    }

    /// How many answers the helper has rejected.
    pub fn retries(&self) -> (n: u32)
        ensures
            n == self@.retries,
    {
        self.retries
    }

    /// Whether the helper allows the input to be shown.
    pub fn echo(&self) -> (echo: bool)
        ensures
            echo == self@.echo,
    {
        self.echo
    }

    /// The helper's last prompt.
    pub fn password_label(&self) -> (label: &String)
        ensures
            label@ == self@.password_label,
    {
        &self.password_label
    }

    /// The helper's last error or notice.
    pub fn message(&self) -> (text: &Option<String>)
        ensures
            match *text {
                Some(t) => self@.message == Some(t@),
                None => self@.message is None,
            },
    {
        &self.message
    }

    /// The text typed so far.
    pub fn password(&self) -> (text: &String)
        ensures
            text@ == self@.password,
    {
        &self.password
    }

    pub fn password_visible(&self) -> (visible: bool)
        ensures
            visible == self@.password_visible,
    {
        self.password_visible
    }
}

/// The state after a run of messages, taken in order.
pub open spec fn run(s: StateView, msgs: Seq<MsgView>) -> StateView
    decreases msgs.len(),
{
    if msgs.len() == 0 {
        s
    } else {
        step(run(s, msgs.drop_last()), msgs.last()).0
    }
}

/// How many verdicts a run of messages hands out.
pub open spec fn verdicts(s: StateView, msgs: Seq<MsgView>) -> nat
    decreases msgs.len(),
{
    if msgs.len() == 0 {
        0
    } else {
        let before = verdicts(s, msgs.drop_last());
        if step(run(s, msgs.drop_last()), msgs.last()).1 is Finish {
            before + 1
        } else {
            before
        }
    }
}

/// Once the verdict is out nothing moves the dialog and nothing more is
/// asked of the caller: a second cancellation, a late event and a late
/// failure are all without effect.
pub proof fn law_terminal_absorbs(s: StateView, m: MsgView)
    requires
        s.phase is Terminal,
    ensures
        step(s, m) == (s, EffectView::Idle),
{
}

/// A step hands out a verdict exactly when it takes a live dialog to its
/// end, and the verdict handed out is the one the dialog ends in.
pub proof fn law_verdict_marks_the_end(s: StateView, m: MsgView)
    ensures
        step(s, m).1 is Finish <==> !(s.phase is Terminal) && step(s, m).0.phase is Terminal,
        step(s, m).1 matches EffectView::Finish(v) ==> step(s, m).0.phase == Phase::Terminal(v),
{
}

/// Over any run of messages a dialog that starts live hands out one verdict
/// if it has ended and none if it has not: never two, never a silent end.
pub proof fn law_one_verdict(s: StateView, msgs: Seq<MsgView>)
    requires
        !(s.phase is Terminal),
    ensures
        verdicts(s, msgs) == (if run(s, msgs).phase is Terminal {
            1nat
        } else {
            0nat
        }),
    decreases msgs.len(),
{
    if msgs.len() > 0 {
        law_one_verdict(s, msgs.drop_last());
        law_verdict_marks_the_end(run(s, msgs.drop_last()), msgs.last());
    }
}

/// A failure of the helper ends a live dialog as denied, whatever phase it
/// was in.
pub proof fn law_failure_denies(s: StateView)
    requires
        !(s.phase is Terminal),
    ensures
        step(s, MsgView::Agent(EventView::Failed)).0.phase == Phase::Terminal(
            Verdict::Denied(Denial::Failed),
        ),
        step(s, MsgView::Agent(EventView::Failed)).1 == EffectView::Finish(
            Verdict::Denied(Denial::Failed),
        ),
{
}

/// Cancelling ends a live dialog as cancelled, whatever phase it was in.
pub proof fn law_cancel_cancels(s: StateView)
    requires
        !(s.phase is Terminal),
    ensures
        step(s, MsgView::Cancel).0.phase == Phase::Terminal(Verdict::Cancelled),
        step(s, MsgView::Cancel).1 == EffectView::Finish(Verdict::Cancelled),
        step(step(s, MsgView::Cancel).0, MsgView::Cancel) == (
            step(s, MsgView::Cancel).0,
            EffectView::Idle,
        ),
{
}

/// The helper's acceptance ends a live dialog as granted.
pub proof fn law_success_grants(s: StateView)
    requires
        !(s.phase is Terminal),
    ensures
        step(s, MsgView::Agent(EventView::Complete(true))).0.phase == Phase::Terminal(
            Verdict::Granted,
        ),
        step(s, MsgView::Agent(EventView::Complete(true))).1 == EffectView::Finish(
            Verdict::Granted,
        ),
{
}

/// Every step keeps a dialog well formed.
pub proof fn law_step_keeps_well_formed(s: StateView, m: MsgView)
    requires
        well_formed(s),
    ensures
        well_formed(step(s, m).0),
{
}

/// A step never touches what the request carried, nor the dialog's number.
pub proof fn law_step_keeps_request(s: StateView, m: MsgView)
    ensures
        step(s, m).0.params == s.params,
        step(s, m).0.id == s.id,
{
}

/// An answer goes to the helper only when input is open, it is the text
/// typed so far, and sending it closes input until the helper reacts.
pub proof fn law_answer_needs_open_input(s: StateView, m: MsgView)
    ensures
        step(s, m).1 is Respond <==> m is Authenticate && s.phase == Phase::AwaitingInput,
        step(s, m).1 is Respond ==> step(s, m).1 == EffectView::Respond(s.password) && step(
            s,
            m,
        ).0.phase == Phase::Submitting,
{
}

/// A rejected answer, in whatever live phase it comes, counts one failed
/// attempt, empties the input and opens it again. Nothing else changes: the
/// request, the prompt and the helper stay, and no verdict goes out.
pub proof fn law_rejection_reopens_input(s: StateView)
    requires
        !(s.phase is Terminal),
    ensures
        step(s, MsgView::Agent(EventView::Complete(false))) == (
            StateView {
                phase: Phase::AwaitingInput,
                retries: one_more(s.retries),
                password: Seq::empty(),
                ..s
            },
            EffectView::Focus,
        ),
        s.retries < u32::MAX ==> step(s, MsgView::Agent(EventView::Complete(false))).0.retries
            == s.retries + 1,
{
}

/// Whenever input is open, submitting sends the text typed to the helper.
pub proof fn law_open_input_takes_an_answer(s: StateView)
    requires
        s.phase == Phase::AwaitingInput,
    ensures
        step(s, MsgView::Authenticate) == (
            StateView { phase: Phase::Submitting, ..s },
            EffectView::Respond(s.password),
        ),
{
}

/// The count of failed attempts never goes down, and only a rejection
/// raises it.
pub proof fn law_retries_only_grow(s: StateView, m: MsgView)
    ensures
        step(s, m).0.retries >= s.retries,
        step(s, m).0.retries != s.retries ==> m == MsgView::Agent(EventView::Complete(false)),
{
}

/// Errors and notices from the helper change what is shown and nothing
/// else: the phase stays.
pub proof fn law_notices_keep_phase(s: StateView, text: Seq<char>)
    ensures
        step(s, MsgView::Agent(EventView::ShowError(text))).0.phase == s.phase,
        step(s, MsgView::Agent(EventView::ShowDebug(text))).0.phase == s.phase,
        step(s, MsgView::Agent(EventView::ShowError(text))).1 == EffectView::Idle,
        step(s, MsgView::Agent(EventView::ShowDebug(text))).1 == EffectView::Idle,
{
}

/// At the start, the responder and the first prompt open input once both
/// are in, in whichever order they come, and neither opens it alone.
pub proof fn law_input_needs_responder_and_prompt(
    id: u64,
    params: ParamsView,
    text: Seq<char>,
    echo: bool,
)
    ensures
        ({
            let fresh = initial(id, params);
            let asked = step(fresh, MsgView::Agent(EventView::Request(text, echo))).0;
            let ready = step(fresh, MsgView::Agent(EventView::Responder)).0;
            &&& asked.phase == Phase::AwaitingResponder
            &&& ready.phase == Phase::AwaitingResponder
            &&& step(asked, MsgView::Agent(EventView::Responder)).0.phase == Phase::AwaitingInput
            &&& step(ready, MsgView::Agent(EventView::Request(text, echo))).0.phase
                == Phase::AwaitingInput
            &&& step(asked, MsgView::Agent(EventView::Responder)).0 == step(
                ready,
                MsgView::Agent(EventView::Request(text, echo)),
            ).0
        }),
{
}

/// A dialog opens exactly when the helper first reports that it runs, and
/// on nothing else: no prompt, no failure, no action of the user opens it.
pub proof fn law_only_the_responder_opens(s: StateView, m: MsgView)
    ensures
        step(s, m).1 is Show <==> !(s.phase is Terminal) && !s.responder && m == MsgView::Agent(
            EventView::Responder,
        ),
        step(s, m).1 is Show ==> step(s, m).0.responder,
        s.responder ==> step(s, m).0.responder,
{
}

/// Over every run of messages that holds no report of a running helper,
/// a dialog that is not open is never opened: a helper that cannot be run
/// ends the request without the user ever being told of it.
pub proof fn law_no_dialog_without_responder(s: StateView, msgs: Seq<MsgView>)
    requires
        !s.responder,
        forall|k: int| 0 <= k < msgs.len() ==> msgs[k] != MsgView::Agent(EventView::Responder),
    ensures
        !run(s, msgs).responder,
        forall|k: int|
            0 <= k < msgs.len() ==> !(#[trigger] step(run(s, msgs.subrange(0, k)), msgs[k]).1 is Show),
    decreases msgs.len(),
{
    if msgs.len() > 0 {
        let init = msgs.drop_last();
        law_no_dialog_without_responder(s, init);
        assert forall|k: int| 0 <= k < msgs.len() implies !(#[trigger] step(
            run(s, msgs.subrange(0, k)),
            msgs[k],
        ).1 is Show) by {
            law_only_the_responder_opens(run(s, msgs.subrange(0, k)), msgs[k]);
        }
    }
}

/// A dialog that is open is not opened again, whatever comes.
pub proof fn law_dialog_opens_once(s: StateView, msgs: Seq<MsgView>)
    requires
        s.responder,
    ensures
        run(s, msgs).responder,
        forall|k: int|
            0 <= k < msgs.len() ==> !(#[trigger] step(run(s, msgs.subrange(0, k)), msgs[k]).1 is Show),
    decreases msgs.len(),
{
    if msgs.len() > 0 {
        law_dialog_opens_once(s, msgs.drop_last());
        assert forall|k: int| 0 <= k < msgs.len() implies !(#[trigger] step(
            run(s, msgs.subrange(0, k)),
            msgs[k],
        ).1 is Show) by {
            law_dialog_opens_once(s, msgs.subrange(0, k));
            law_only_the_responder_opens(run(s, msgs.subrange(0, k)), msgs[k]);
        }
    }
}

/// Without the helper running, its failure ends the request as denied and
/// opens nothing.
pub proof fn law_failed_start_shows_nothing(id: u64, params: ParamsView)
    ensures
        step(initial(id, params), MsgView::Agent(EventView::Failed)).1 == EffectView::Finish(
            Verdict::Denied(Denial::Failed),
        ),
        !step(initial(id, params), MsgView::Agent(EventView::Failed)).0.responder,
{
}

/// `s` without the colons it ends with.
pub open spec fn without_colons(s: Seq<char>) -> Seq<char>
    decreases s.len(),
{
    if s.len() > 0 && s.last() == ':' {
        without_colons(s.drop_last())
    } else {
        s
    }
}

/// What a dialog shows.
#[derive(Clone, Debug, PartialEq, Eq)]
pub struct Shown {
    /// The request's message.
    pub body: String,
    /// The name of the icon: the request's, or the one for authentication.
    pub icon_name: String,
    /// The hint in the empty input field: the prompt without its colons.
    pub placeholder: String,
    /// The text typed so far.
    pub password: String,
    /// Whether the input is a secret, to be masked unless revealed.
    pub secret: bool,
    /// Whether a secret input is masked right now.
    pub masked: bool,
    /// Whether the input field and the button that submits respond. The
    /// button that cancels responds as long as the dialog is there.
    pub sensitive: bool,
    /// Whether to say that the last password was not accepted.
    pub invalid_password: bool,
}

/// `shown` is what the dialog `s` shows.
pub open spec fn shows(s: StateView, shown: Shown) -> bool {
    &&& shown.body@ == s.params.message
    &&& shown.icon_name@ == (match s.params.icon_name {
        Some(name) => name,
        None => "dialog-authentication"@,
    })
    &&& shown.placeholder@ == without_colons(s.password_label)
    &&& shown.password@ == s.password
    &&& shown.secret == !s.echo
    &&& shown.masked == !s.password_visible
    &&& shown.sensitive == (s.phase == Phase::AwaitingInput)
    &&& shown.invalid_password == (s.retries > 0)
}

fn trim_colons(s: &str) -> (t: &str)
    ensures
        t@ == without_colons(s@),
{
    let n = s.unicode_len();
    let mut end: usize = n;
    assert(s@.subrange(0, n as int) =~= s@);
    while end > 0 && s.get_char(end - 1) == ':'
        invariant
            end <= n,
            n == s@.len(),
            without_colons(s@) == without_colons(s@.subrange(0, end as int)),
        decreases end,
    {
        assert(s@.subrange(0, end as int).drop_last() =~= s@.subrange(0, end - 1));
        end -= 1;
    }
    s.substring_char(0, end)
}

impl State {
    /// Says what the dialog shows.
    pub fn shown(&self) -> (shown: Shown)
        ensures
            shows(self@, shown),
    {
        Shown {
            body: self.params.message.clone(),
            icon_name: match &self.params.icon_name {
                Some(name) => name.clone(),
                None => "dialog-authentication".to_owned(),
            },
            placeholder: trim_colons(self.password_label.as_str()).to_owned(),
            password: self.password.clone(),
            secret: !self.echo,
            masked: !self.password_visible,
            sensitive: matches!(self.phase, Phase::AwaitingInput),
            invalid_password: self.retries > 0,
        }
    }
}

} // verus!
