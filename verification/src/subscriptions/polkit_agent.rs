//! The authentication agent as the bus sees it: which identity a request is
//! answered as, what a request becomes, and how the agent registers itself.

use crate::components::polkit_dialog::{Denial, Params, Verdict};
use vstd::prelude::*;

verus! {

/// The errors the agent can raise on the bus.
#[derive(Clone, Copy, Debug, PartialEq, Eq, Structural)]
pub enum PolkitError {
    Failed,
    Cancelled,
    NotSupported,
    NotAuthorized,
    CancellationIdNotUnique,
}

/// What a detail of an identity or a subject holds.
#[derive(Clone, Debug)]
pub enum Value {
    U32(u32),
    Str(String),
    /// Any other kind of value; nothing here reads those.
    Other,
}

pub enum ValueView {
    U32(u32),
    Str(Seq<char>),
    Other,
}

impl View for Value {
    type V = ValueView;

    open spec fn view(&self) -> ValueView {
        match *self {
            Value::U32(n) => ValueView::U32(n),
            Value::Str(s) => ValueView::Str(s@),
            Value::Other => ValueView::Other,
        }
    }
}

/// A principal the authority offers as eligible to authenticate.
#[derive(Clone, Debug)]
pub struct Identity {
    pub identity_kind: String,
    pub identity_details: Vec<(String, Value)>,
}

/// The descriptor of the session the agent registers for.
#[derive(Clone, Debug)]
pub struct Subject {
    pub subject_kind: String,
    pub subject_details: Vec<(String, Value)>,
}

/// The value filed under `key`: the first entry with that key.
pub open spec fn lookup(details: Seq<(String, Value)>, key: Seq<char>) -> Option<ValueView>
    decreases details.len(),
{
    if details.len() == 0 {
        None
    } else if details[0].0@ == key {
        Some(details[0].1@)
    } else {
        lookup(details.drop_first(), key)
    }
}

/// The user id an identity names: that of a `unix-user` identity whose `uid`
/// detail is a 32-bit number. Identities of any other kind name none.
pub open spec fn unix_uid(identity: Identity) -> Option<u32> {
    if identity.identity_kind@ == "unix-user"@ {
        match lookup(identity.identity_details@, "uid"@) {
            Some(ValueView::U32(uid)) => Some(uid),
            _ => None,
        }
    } else {
        None
    }
}

/// The user ids that a list of identities names, in the list's order.
pub open spec fn candidate_uids(identities: Seq<Identity>) -> Seq<u32>
    decreases identities.len(),
{
    if identities.len() == 0 {
        Seq::empty()
    } else {
        let before = candidate_uids(identities.drop_last());
        match unix_uid(identities.last()) {
            Some(uid) => before.push(uid),
            None => before,
        }
    }
}

/// The user to authenticate as: the agent's own user if offered, else root
/// if offered, else the first one offered.
pub open spec fn choose_uid(uids: Seq<u32>, own: u32) -> Option<u32> {
    if uids.contains(own) {
        Some(own)
    } else if uids.contains(0u32) {
        Some(0u32)
    } else if uids.len() > 0 {
        Some(uids[0])
    } else {
        None
    }
}

fn find_detail<'a>(details: &'a Vec<(String, Value)>, key: &str) -> (found: Option<&'a Value>)
    ensures
        found.is_some() == lookup(details@, key@).is_some(),
        found matches Some(value) ==> lookup(details@, key@) == Some(value@),
{
    let wanted = key.to_owned();
    let mut i: usize = 0;
    assert(details@.subrange(0, details@.len() as int) =~= details@);
    while i < details.len()
        invariant
            i <= details.len(),
            wanted@ == key@,
            lookup(details@, key@) == lookup(details@.subrange(i as int, details@.len() as int), key@),
        decreases details.len() - i,
    {
        let ghost tail = details@.subrange(i as int, details@.len() as int);
        assert(tail[0] == details@[i as int]);
        assert(tail.drop_first() =~= details@.subrange(i + 1, details@.len() as int));
        if details[i].0 == wanted {
            return Some(&details[i].1);
        }
        i += 1;
    }
    None
}

/// The user id that one identity names, if it names one.
pub fn identity_uid(identity: &Identity) -> (uid: Option<u32>)
    ensures
        uid == unix_uid(*identity),
{
    if identity.identity_kind != "unix-user".to_owned() {
        return None;
    }
    match find_detail(&identity.identity_details, "uid") {
        Some(Value::U32(uid)) => Some(*uid),
        _ => None,
    }
}

/// Picks the user to authenticate as among the identities offered, for an
/// agent that runs as user `own_uid`. `None` exactly when no identity names
/// a local user.
pub fn select_uid(identities: &[Identity], own_uid: u32) -> (chosen: Option<u32>)
    ensures
        chosen == choose_uid(candidate_uids(identities@), own_uid),
{
    let mut first: Option<u32> = None;
    let mut has_own = false;
    let mut has_root = false;
    let mut i: usize = 0;
    while i < identities.len()
        invariant
            i <= identities.len(),
            has_own == candidate_uids(identities@.subrange(0, i as int)).contains(own_uid),
            has_root == candidate_uids(identities@.subrange(0, i as int)).contains(0u32),
            first.is_some() == (candidate_uids(identities@.subrange(0, i as int)).len() > 0),
            first matches Some(uid) ==> candidate_uids(identities@.subrange(0, i as int))[0] == uid,
        decreases identities.len() - i,
    {
        let ghost seen = candidate_uids(identities@.subrange(0, i as int));
        proof {
            let upto = identities@.subrange(0, i + 1);
            assert(upto.drop_last() =~= identities@.subrange(0, i as int));
            assert(upto.last() == identities@[i as int]);
        }
        match identity_uid(&identities[i]) {
            Some(uid) => {
                assert(forall|u: u32| seen.push(uid).contains(u) <==> seen.contains(u) || u == uid) by {
                    assert forall|u: u32| seen.push(uid).contains(u) implies seen.contains(u) || u
                        == uid by {
                        let k = choose|k: int| 0 <= k < seen.push(uid).len() && seen.push(uid)[k] == u;
                        if k < seen.len() {
                            assert(seen[k] == u);
                        }
                    }
                    assert forall|u: u32| seen.contains(u) || u == uid implies seen.push(
                        uid,
                    ).contains(u) by {
                        if seen.contains(u) {
                            let k = choose|k: int| 0 <= k < seen.len() && seen[k] == u;
                            assert(seen.push(uid)[k] == u);
                        } else {
                            assert(seen.push(uid)[seen.len() as int] == u);
                        }
                    }
                }
                if first.is_none() {
                    first = Some(uid);
                }
                if uid == own_uid {
                    has_own = true;
                }
                if uid == 0 {
                    has_root = true;
                }
            },
            None => {},
        }
        i += 1;
    }
    assert(identities@.subrange(0, i as int) =~= identities@);
    if has_own {
        Some(own_uid)
    } else if has_root {
        Some(0)
    } else {
        first
    }
}

proof fn lemma_candidates(identities: Seq<Identity>, uid: u32)
    ensures
        candidate_uids(identities).contains(uid) <==> exists|i: int|
            0 <= i < identities.len() && unix_uid(#[trigger] identities[i]) == Some(uid),
    decreases identities.len(),
{
    if identities.len() > 0 {
        let init = identities.drop_last();
        let before = candidate_uids(init);
        lemma_candidates(init, uid);
        if candidate_uids(identities).contains(uid) {
            if before.contains(uid) {
                let i = choose|i: int| 0 <= i < init.len() && unix_uid(#[trigger] init[i]) == Some(uid);
                assert(identities[i] == init[i]);
            } else {
                let k = choose|k: int|
                    0 <= k < candidate_uids(identities).len() && candidate_uids(identities)[k] == uid;
                assert(unix_uid(identities.last()) == Some(uid));
                assert(identities[identities.len() - 1] == identities.last());
            }
        }
        if exists|i: int| 0 <= i < identities.len() && unix_uid(#[trigger] identities[i]) == Some(uid) {
            let i = choose|i: int|
                0 <= i < identities.len() && unix_uid(#[trigger] identities[i]) == Some(uid);
            if i < init.len() {
                assert(init[i] == identities[i]);
                assert(before.contains(uid));
                let k = choose|k: int| 0 <= k < before.len() && before[k] == uid;
                match unix_uid(identities.last()) {
                    Some(last) => {
                        assert(before.push(last)[k] == uid);
                    },
                    None => {},
                }
            } else {
                assert(before.push(uid)[before.len() as int] == uid);
            }
        }
    }
}

/// The user chosen is always one that an offered `unix-user` identity names;
/// the agent's own user, when offered, is chosen over every other; and no
/// user is chosen only when no identity names one.
pub proof fn law_choice_is_offered(identities: Seq<Identity>, own: u32)
    ensures
        choose_uid(candidate_uids(identities), own) matches Some(uid) ==> exists|i: int|
            0 <= i < identities.len() && unix_uid(#[trigger] identities[i]) == Some(uid),
        (exists|i: int| 0 <= i < identities.len() && unix_uid(#[trigger] identities[i]) == Some(own))
            ==> choose_uid(candidate_uids(identities), own) == Some(own),
        choose_uid(candidate_uids(identities), own) is None <==> forall|i: int|
            0 <= i < identities.len() ==> unix_uid(#[trigger] identities[i]) is None,
{
    let uids = candidate_uids(identities);
    lemma_candidates(identities, own);
    match choose_uid(uids, own) {
        Some(uid) => {
            if !uids.contains(own) && !uids.contains(0u32) {
                assert(uids[0] == uid);
                assert(uids.contains(uid));
            }
            lemma_candidates(identities, uid);
        },
        None => {
            assert forall|i: int| 0 <= i < identities.len() implies unix_uid(
                #[trigger] identities[i],
            ) is None by {
                if let Some(uid) = unix_uid(identities[i]) {
                    lemma_candidates(identities, uid);
                    assert(uids.contains(uid));
                }
            }
        },
    }
}

/// Root is chosen when offered and the agent's own user is not; with
/// neither offered, the first user offered is chosen.
pub proof fn law_choice_order(uids: Seq<u32>, own: u32)
    requires
        !uids.contains(own),
    ensures
        uids.contains(0u32) ==> choose_uid(uids, own) == Some(0u32),
        !uids.contains(0u32) && uids.len() > 0 ==> choose_uid(uids, own) == Some(uids[0]),
        uids.len() == 0 ==> choose_uid(uids, own) is None,
{
}

/// `uzers::get_effective_uid`: the effective user id of the process.
/// Nothing is claimed of the number.
#[verifier::external_body]
fn effective_uid() -> (uid: u32) {
    uzers::get_effective_uid()
}

/// `uzers::get_user_by_uid`, then `User::name`: the login name the user
/// database holds for `uid`, if it holds one that is valid text. Nothing is
/// claimed of the answer.
#[verifier::external_body]
fn user_name(uid: u32) -> (name: Option<String>) {
    let user = uzers::get_user_by_uid(uid)?;
    Some(user.name().to_str()?.to_string())
}

/// The selected identity, once the user database has been asked for the
/// name: there is none without a user id, and none without a name.
pub fn selected_identity(uid: Option<u32>, name: Option<String>) -> (user: Option<(u32, String)>)
    ensures
        user == (match (uid, name) {
            (Some(uid), Some(name)) => Some((uid, name)),
            _ => None,
        }),
{
    match (uid, name) {
        (Some(uid), Some(name)) => Some((uid, name)),
        _ => None,
    }
}

/// Selects the user to authenticate as, for the effective user of this
/// process, and looks up the login name. Without an identity that names a local user
/// there is no answer; an answer is always the selection for some user the
/// process could run as.
pub fn select_user_from_identities(identities: &[Identity]) -> (user: Option<(u32, String)>)
    ensures
        candidate_uids(identities@).len() == 0 ==> user.is_none(),
        user matches Some((uid, _)) ==> exists|own: u32|
            #[trigger] choose_uid(candidate_uids(identities@), own) == Some(uid),
{
    let own = effective_uid();
    let chosen = select_uid(identities, own);
    let name = match chosen {
        Some(uid) => user_name(uid),
        None => None,
    };
    selected_identity(chosen, name)
}

/// What the agent asks of the daemon.
#[derive(Clone, Debug)]
pub enum Event {
    /// Enter a request and start its helper. The user interface is told
    /// nothing yet: the dialog is opened when the helper runs.
    BeginSession(Params),
    CancelDialog { cookie: String },
}

/// The dialog parameters of a request that is answered as `pw_name`. An
/// empty icon name stands for no icon.
pub open spec fn params_for(
    pw_name: Seq<char>,
    action_id: Seq<char>,
    message: Seq<char>,
    icon_name: Seq<char>,
    details: Seq<(Seq<char>, Seq<char>)>,
    cookie: Seq<char>,
) -> crate::components::polkit_dialog::ParamsView {
    crate::components::polkit_dialog::ParamsView {
        pw_name,
        action_id,
        message,
        icon_name: if icon_name.len() > 0 {
            Some(icon_name)
        } else {
            None
        },
        details,
        cookie,
    }
}

/// Turns a request and the identity selected for it into the session to
/// begin. A request with no eligible identity is denied at once: no
/// session, no helper, no dialog.
pub fn begin_session(
    user: Option<(u32, String)>,
    action_id: String,
    message: String,
    icon_name: String,
    details: Vec<(String, String)>,
    cookie: String,
) -> (created: Result<Event, Verdict>)
    ensures
        user.is_none() ==> created == Err::<Event, Verdict>(
            Verdict::Denied(Denial::NoEligibleIdentity),
        ),
        user matches Some((_, pw_name)) ==> (created matches Ok(Event::BeginSession(params))
            && params@ == params_for(
            pw_name@,
            action_id@,
            message@,
            icon_name@,
            details.deep_view(),
            cookie@,
        )),
{
    match user {
        Some((_uid, pw_name)) => {
            let icon_name = if !icon_name.as_str().is_empty() {
                Some(icon_name)
            } else {
                None
            };
            Ok(Event::BeginSession(Params { pw_name, action_id, message, icon_name, details, cookie }))
        },
        None => Err(Verdict::Denied(Denial::NoEligibleIdentity)),
    }
}

/// The object the authority calls.
#[derive(Clone, Copy, Debug)]
pub struct PolkitAgent;

impl PolkitAgent {
    /// Answers "begin authentication": selects the identity and asks for a
    /// session, or denies at once when no identity is eligible. The call's
    /// final answer is the verdict, the session's or this one, as
    /// `verdict_result` maps it.
    pub fn begin_authentication(
        &self,
        action_id: String,
        message: String,
        icon_name: String,
        details: Vec<(String, String)>,
        cookie: String,
        identities: Vec<Identity>,
    ) -> (created: Result<Event, Verdict>)
        ensures
            candidate_uids(identities@).len() == 0 ==> created == Err::<Event, Verdict>(
                Verdict::Denied(Denial::NoEligibleIdentity),
            ),
            created matches Err(verdict) ==> verdict == Verdict::Denied(Denial::NoEligibleIdentity),
            created matches Ok(event) ==> (event matches Event::BeginSession(params) && exists|
                pw_name: Seq<char>,
            |
                params@ == #[trigger] params_for(
                    pw_name,
                    action_id@,
                    message@,
                    icon_name@,
                    details.deep_view(),
                    cookie@,
                )),
    {
        let user = select_user_from_identities(identities.as_slice());
        begin_session(user, action_id, message, icon_name, details, cookie)
    }

    /// Answers "cancel authentication": asks for the dialog of that cookie
    /// to be cancelled. Whether there is one is for the dialogs' keeper.
    pub fn cancel_authentication(&self, cookie: String) -> (event: Event)
        ensures
            event == (Event::CancelDialog { cookie }),
    {
        Event::CancelDialog { cookie }
    }
}

/// What the bus caller is told for a verdict, which is nothing on a grant and an error
/// otherwise.
pub open spec fn result_of(verdict: Verdict) -> Result<(), PolkitError> {
    match verdict {
        Verdict::Granted => Ok(()),
        Verdict::Denied(_) => Err(PolkitError::Failed),
        Verdict::Cancelled => Err(PolkitError::Cancelled),
    }
}

/// The verdict of a request, given what came over its answer channel: the
/// verdict sent, or denial as failed where the channel closed unanswered.
pub fn received_verdict(answer: Option<Verdict>) -> (verdict: Verdict)
    ensures
        verdict == (match answer {
            Some(sent) => sent,
            None => Verdict::Denied(Denial::Failed),
        }),
{
    match answer {
        Some(sent) => sent,
        None => Verdict::Denied(Denial::Failed),
    }
}

/// Maps a verdict to the answer of the bus call.
pub fn verdict_result(verdict: Verdict) -> (res: Result<(), PolkitError>)
    ensures
        res == result_of(verdict),
{
    match verdict {
        Verdict::Granted => Ok(()),
        Verdict::Denied(_) => Err(PolkitError::Failed),
        Verdict::Cancelled => Err(PolkitError::Cancelled),
    }
}

/// The text that goes with a denial.
pub fn denial_reason(denial: Denial) -> (reason: &'static str)
    ensures
        reason@ == (match denial {
            Denial::Failed => "failed"@,
            Denial::NoEligibleIdentity => "no eligible identity"@,
            Denial::DuplicateCookie => "duplicate cookie"@,
        }),
{
    match denial {
        Denial::Failed => "failed",
        Denial::NoEligibleIdentity => "no eligible identity",
        Denial::DuplicateCookie => "duplicate cookie",
    }
}

/// The object path under which the agent is exported and registered.
pub open spec fn object_path() -> Seq<char> {
    "/com/system76/CosmicOsd"@
}

/// The locale the agent registers with.
pub open spec fn locale() -> Seq<char> {
    "en_US"@
}

/// What is sent to the authority to register the agent.
#[derive(Clone, Debug)]
pub struct Registration {
    pub subject: Subject,
    pub locale: String,
    pub object_path: String,
}

/// `r` registers the agent for the login session `session_id`: the subject
/// is that session, named by its one detail.
pub open spec fn registers_session(r: Registration, session_id: Seq<char>) -> bool {
    &&& r.subject.subject_kind@ == "unix-session"@
    &&& r.subject.subject_details@.len() == 1
    &&& r.subject.subject_details@[0].0@ == "session-id"@
    &&& r.subject.subject_details@[0].1@ == ValueView::Str(session_id)
    &&& r.locale@ == locale()
    &&& r.object_path@ == object_path()
}

/// Builds the registration for a login session.
pub fn registration(session_id: String) -> (r: Registration)
    ensures
        registers_session(r, session_id@),
{
    let mut subject_details: Vec<(String, Value)> = Vec::new();
    subject_details.push(("session-id".to_owned(), Value::Str(session_id)));
    Registration {
        subject: Subject { subject_kind: "unix-session".to_owned(), subject_details },
        locale: "en_US".to_owned(),
        object_path: "/com/system76/CosmicOsd".to_owned(),
    }
}

/// Why the agent could not register. Each is fatal: an agent that is not
/// registered is sent no request.
#[derive(Clone, Copy, Debug, PartialEq, Eq, Structural)]
pub enum RegistrationError {
    /// The agent object could not be exported on the bus.
    Export,
    /// The login session's identifier could not be had.
    SessionId,
    /// The authority refused the registration.
    Rejected,
}

/// How far the registration has come.
#[derive(Clone, Copy, Debug, PartialEq, Eq, Structural)]
pub enum Registrar {
    Start,
    Exporting,
    AskingSession,
    Registering,
    Registered,
    Failed(RegistrationError),
}

/// What the bus answered to the last request.
#[derive(Clone, Debug)]
pub enum Reply {
    /// The last request went through and returned nothing.
    Done,
    /// The session service named the login session.
    SessionId(String),
    /// The last request failed.
    Error,
}

/// What to ask of the bus next.
#[derive(Clone, Debug)]
pub enum Request {
    /// Export the agent object under the agent's object path.
    Export,
    /// Ask the session service for the login session's identifier.
    GetSessionId,
    /// Register with the authority.
    Register(Registration),
    /// The agent is registered; nothing more to ask.
    Finished,
    /// Give up: the process cannot serve.
    Abort(RegistrationError),
}

/// The error that a failure in state `state` amounts to.
pub open spec fn failure_in(state: Registrar) -> RegistrationError {
    match state {
        Registrar::Start | Registrar::Exporting => RegistrationError::Export,
        Registrar::AskingSession => RegistrationError::SessionId,
        Registrar::Registering | Registrar::Registered => RegistrationError::Rejected,
        Registrar::Failed(e) => e,
    }
}

/// The state that follows `state` on `reply`. The registration advances one
/// stage on the answer that stage waits for and fails on any other; its two
/// ends, registered and failed, stay what they are.
pub open spec fn registrar_next(state: Registrar, reply: Reply) -> Registrar {
    match (state, reply) {
        (Registrar::Start, _) => Registrar::Exporting,
        (Registrar::Exporting, Reply::Done) => Registrar::AskingSession,
        (Registrar::AskingSession, Reply::SessionId(_)) => Registrar::Registering,
        (Registrar::Registering, Reply::Done) => Registrar::Registered,
        (Registrar::Registered, _) => Registrar::Registered,
        _ => Registrar::Failed(failure_in(state)),
    }
}

/// Whether `request` is what state `next`, reached on `reply`, asks for.
pub open spec fn request_fits(next: Registrar, reply: Reply, request: Request) -> bool {
    match next {
        Registrar::Start => false,
        Registrar::Exporting => request is Export,
        Registrar::AskingSession => request is GetSessionId,
        Registrar::Registering => reply matches Reply::SessionId(id) && request matches Request::Register(
            r,
        ) && registers_session(r, id@),
        Registrar::Registered => request is Finished,
        Registrar::Failed(e) => request matches Request::Abort(err) && err == e,
    }
}

/// One step of registering the agent: from the state and the bus's answer
/// to the last request, to the next state and the next request. The first
/// step, from `Start`, takes any reply and asks for the export.
pub fn register_agent(state: Registrar, reply: Reply) -> (next: (Registrar, Request))
    ensures
        next.0 == registrar_next(state, reply),
        request_fits(next.0, reply, next.1),
{
    match (state, reply) {
        (Registrar::Start, _) => (Registrar::Exporting, Request::Export),
        (Registrar::Exporting, Reply::Done) => (Registrar::AskingSession, Request::GetSessionId),
        (Registrar::AskingSession, Reply::SessionId(id)) => (
            Registrar::Registering,
            Request::Register(registration(id)),
        ),
        (Registrar::Registering, Reply::Done) => (Registrar::Registered, Request::Finished),
        (Registrar::Registered, _) => (Registrar::Registered, Request::Finished),
        (Registrar::Exporting, _) => (
            Registrar::Failed(RegistrationError::Export),
            Request::Abort(RegistrationError::Export),
        ),
        (Registrar::AskingSession, _) => (
            Registrar::Failed(RegistrationError::SessionId),
            Request::Abort(RegistrationError::SessionId),
        ),
        (Registrar::Registering, _) => (
            Registrar::Failed(RegistrationError::Rejected),
            Request::Abort(RegistrationError::Rejected),
        ),
        (Registrar::Failed(e), _) => (Registrar::Failed(e), Request::Abort(e)),
    }
}

/// The agent ends up registered only along the one path: export, session
/// identifier, registration, each answered as expected.
pub proof fn law_registered_only_in_order(state: Registrar, reply: Reply)
    ensures
        registrar_next(state, reply) == Registrar::Registered <==> state == Registrar::Registered || (
        state == Registrar::Registering && reply is Done),
        state is Failed ==> registrar_next(state, reply) == state,
        reply is Error && state != Registrar::Start && state != Registrar::Registered
            ==> registrar_next(state, reply) is Failed,
{
}

} // verus!
