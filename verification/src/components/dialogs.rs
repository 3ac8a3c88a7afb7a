//! The dialogs in flight, each under its own surface number and cookie.

use crate::components::polkit_dialog::{
    initial, law_step_keeps_request, law_step_keeps_well_formed, step, well_formed, Denial,
    Effect, EffectView, Msg, MsgView, Params, State, StateView, Verdict,
};
use std::collections::HashMap;
use vstd::prelude::*;
use vstd::std_specs::iter::IteratorSpec;

verus! {

/// Some dialog among `dialogs` belongs to `cookie`.
pub open spec fn has_cookie(dialogs: Map<u64, StateView>, cookie: Seq<char>) -> bool {
    exists|id: u64| dialogs.dom().contains(id) && (#[trigger] dialogs[id]).params.cookie == cookie
}

/// Some dialog among `dialogs` is filed under surface `id`.
pub open spec fn has_id(dialogs: Map<u64, StateView>, id: u64) -> bool {
    dialogs.dom().contains(id)
}

/// The surface under which the dialog of `cookie` is filed.
pub open spec fn id_of_cookie(dialogs: Map<u64, StateView>, cookie: Seq<char>) -> u64 {
    choose|id: u64| dialogs.dom().contains(id) && (#[trigger] dialogs[id]).params.cookie == cookie
}

/// What holds of the dialogs in flight: each is filed under its own
/// surface, is live and well formed, and no two share a cookie.
pub open spec fn consistent(dialogs: Map<u64, StateView>) -> bool {
    &&& dialogs.dom().finite()
    &&& forall|id: u64| #[trigger]
        dialogs.dom().contains(id) ==> dialogs[id].id == id && !(dialogs[id].phase is Terminal)
            && well_formed(dialogs[id])
    &&& forall|a: u64, b: u64|
        dialogs.dom().contains(a) && dialogs.dom().contains(b) && a != b ==> (
        #[trigger] dialogs[a]).params.cookie != (#[trigger] dialogs[b]).params.cookie
}

/// The dialogs after `msg` reached the one under `id`: it moves as `step`
/// says and leaves once its verdict is out. No other dialog is touched.
pub open spec fn after_message(dialogs: Map<u64, StateView>, id: u64, msg: MsgView) -> Map<
    u64,
    StateView,
> {
    let next = step(dialogs[id], msg).0;
    if next.phase is Terminal {
        dialogs.remove(id)
    } else {
        dialogs.insert(id, next)
    }
}

/// The dialogs in flight.
#[derive(Debug)]
pub struct Dialogs {
    entries: HashMap<u64, State>,
}

impl View for Dialogs {
    type V = Map<u64, StateView>;

    closed spec fn view(&self) -> Map<u64, StateView> {
        self.entries@.map_values(|s: State| s@)
    }
}

impl Dialogs {
    #[verifier::type_invariant]
    spec fn inv(self) -> bool {
        consistent(self@)
    }

    /// Takes the dialogs out, leaving none behind, to be put back changed.
    fn take(&mut self) -> (entries: HashMap<u64, State>)
        ensures
            entries@.map_values(|s: State| s@) == old(self)@,
            consistent(old(self)@),
    {
        broadcast use vstd::std_specs::hash::group_hash_axioms;

        proof {
            use_type_invariant(&*self);
        }
        let empty: HashMap<u64, State> = HashMap::new();
        assert(empty@.map_values(|s: State| s@) =~= Map::<u64, StateView>::empty());
        let mut taken = Dialogs { entries: empty };
        core::mem::swap(self, &mut taken);
        let Dialogs { entries } = taken;
        entries
    }

    /// What holds of the dialogs at all times.
    pub fn check(&self)
        ensures
            consistent(self@),
    {
        proof {
            use_type_invariant(self);
        }
    }

    /// No dialog in flight.
    pub fn new() -> (dialogs: Dialogs)
        ensures
            dialogs@ == Map::<u64, StateView>::empty(),
            consistent(dialogs@),
    {
        broadcast use vstd::std_specs::hash::group_hash_axioms;

        let entries: HashMap<u64, State> = HashMap::new();
        assert(entries@.map_values(|s: State| s@) =~= Map::<u64, StateView>::empty());
        Dialogs { entries }
    }

    fn find_cookie(&self, cookie: &String) -> (found: Option<u64>)
        ensures
            found.is_some() == has_cookie(self@, cookie@),
            found matches Some(id) ==> id == id_of_cookie(self@, cookie@) && self@.dom().contains(id)
                && self@[id].params.cookie == cookie@,
    {
        broadcast use vstd::std_specs::hash::group_hash_axioms;

        proof {
            use_type_invariant(self);
        }
        let ghost pairs = self.entries.iter().remaining();
        for pair in it: self.entries.iter()
            invariant
                it.seq() == pairs,
                consistent(self@),
                forall|i: int| 0 <= i < it.index() ==> (*(#[trigger] pairs[i]).1)@.params.cookie != cookie@,
        {
            let (id, state) = pair;
            if *state.cookie() == *cookie {
                proof {
                    let i = it.index() as int;
                    assert(self.entries@.contains_key(*pairs[i].0));
                    assert(self@[*id].params.cookie == cookie@);
                    assert(self@.dom().contains(*id));
                    let other = id_of_cookie(self@, cookie@);
                    assert(self@.dom().contains(other) && self@[other].params.cookie == cookie@);
                    if other != *id {
                        assert(self@[other].params.cookie != self@[*id].params.cookie);
                    }
                }
                return Some(*id);
            }
        }
        proof {
            if has_cookie(self@, cookie@) {
                let id = id_of_cookie(self@, cookie@);
                assert(self.entries@.contains_key(id));
                assert(pairs.contains((&id, &self.entries@[id])));
                let i = choose|i: int| 0 <= i < pairs.len() && pairs[i] == (&id, &self.entries@[id]);
                assert((*pairs[i].1)@.params.cookie != cookie@);
            }
        }
        None
    }

    /// Whether a dialog of `cookie` is in flight.
    pub fn contains_cookie(&self, cookie: &String) -> (yes: bool)
        ensures
            yes == has_cookie(self@, cookie@),
    {
        self.find_cookie(cookie).is_some()
    }

    /// How many dialogs are in flight.
    pub fn len(&self) -> (n: usize)
        ensures
            n == self@.dom().len(),
    {
        broadcast use vstd::std_specs::hash::group_hash_axioms;

        assert(self@.dom() =~= self.entries@.dom());
        self.entries.len()
    }

    /// The dialog under surface `id`, if there is one.
    pub fn get(&self, id: u64) -> (dialog: Option<&State>)
        ensures
            dialog.is_some() == has_id(self@, id),
            dialog matches Some(state) ==> state@ == self@[id],
    {
        broadcast use vstd::std_specs::hash::group_hash_axioms;

        self.entries.get(&id)
    }

    /// Enters the dialog of a new request under surface `id`. A request
    /// whose cookie is already in flight is refused, and so is a surface
    /// already in use: nothing changes then, and no helper is to be started.
    pub fn create(&mut self, id: u64, params: Params) -> (opened: Result<(), Denial>)
        ensures
            has_cookie(old(self)@, params@.cookie) ==> opened == Err::<(), Denial>(
                Denial::DuplicateCookie,
            ),
            !has_cookie(old(self)@, params@.cookie) && has_id(old(self)@, id) ==> opened == Err::<
                (),
                Denial,
            >(Denial::Failed),
            opened is Err ==> final(self)@ == old(self)@,
            opened is Ok ==> final(self)@ == old(self)@.insert(id, initial(id, params@)),
            opened is Ok <==> !has_cookie(old(self)@, params@.cookie) && !has_id(old(self)@, id),
            consistent(final(self)@),
    {
        broadcast use vstd::std_specs::hash::group_hash_axioms;

        proof {
            use_type_invariant(&*self);
        }
        if self.find_cookie(&params.cookie).is_some() {
            return Err(Denial::DuplicateCookie);
        }
        if self.get(id).is_some() {
            return Err(Denial::Failed);
        }
        let ghost before = self@;
        let state = State::new(id, params);
        let mut entries = self.take();
        entries.insert(id, state);
        proof {
            let now = entries@.map_values(|s: State| s@);
            assert(now =~= before.insert(id, initial(id, params@)));
            assert forall|a: u64, b: u64|
                now.dom().contains(a) && now.dom().contains(b) && a != b implies (
            #[trigger] now[a]).params.cookie != (#[trigger] now[b]).params.cookie by {
                if a == id {
                    assert(before.dom().contains(b));
                    assert(before[b].params.cookie != params@.cookie);
                } else if b == id {
                    assert(before.dom().contains(a));
                    assert(before[a].params.cookie != params@.cookie);
                } else {
                    assert(before[a].params.cookie != before[b].params.cookie);
                }
            }
        }
        *self = Dialogs { entries };
        Ok(())
    }

    /// Hands `msg` to the dialog under surface `id`. Without such a dialog
    /// nothing happens. The dialog moves one step; once its verdict is out
    /// it is dropped, and the effect carries the verdict.
    pub fn message(&mut self, id: u64, msg: Msg) -> (effect: Effect)
        ensures
            !has_id(old(self)@, id) ==> final(self)@ == old(self)@ && effect@ == EffectView::Idle,
            has_id(old(self)@, id) ==> final(self)@ == after_message(old(self)@, id, msg@)
                && effect@ == step(old(self)@[id], msg@).1,
            consistent(final(self)@),
    {
        broadcast use vstd::std_specs::hash::group_hash_axioms;

        proof {
            use_type_invariant(&*self);
        }
        let ghost before = self@;
        let mut entries = self.take();
        let effect = match entries.remove(&id) {
            None => {
                assert(entries@.map_values(|s: State| s@) =~= before);
                Effect::Idle
            },
            Some(state) => {
                assert(state@ == before[id]);
                let (next, effect) = state.update(msg);
                proof {
                    law_step_keeps_well_formed(before[id], msg@);
                    law_step_keeps_request(before[id], msg@);
                }
                match next {
                    Some(state) => {
                        entries.insert(id, state);
                        proof {
                            let now = step(before[id], msg@).0;
                            assert(entries@.map_values(|s: State| s@) =~= before.insert(id, now));
                            lemma_insert_keeps_consistent(before, id, now);
                        }
                    },
                    None => {
                        proof {
                            assert(entries@.map_values(|s: State| s@) =~= before.remove(id));
                            lemma_remove_keeps_consistent(before, id);
                        }
                    },
                }
                effect
            },
        };
        *self = Dialogs { entries };
        effect
    }

    /// Cancels the dialog of `cookie`, if one is in flight: it is dropped
    /// and its surface and the verdict `Cancelled` are returned. For a cookie
    /// that is unknown, or whose dialog has ended, nothing happens.
    pub fn cancel(&mut self, cookie: &String) -> (cancelled: Option<(u64, Effect)>)
        ensures
            !has_cookie(old(self)@, cookie@) ==> cancelled.is_none() && final(self)@ == old(self)@,
            has_cookie(old(self)@, cookie@) ==> final(self)@ == old(self)@.remove(
                id_of_cookie(old(self)@, cookie@),
            ) && (cancelled matches Some((id, effect)) && id == id_of_cookie(old(self)@, cookie@)
                && effect@ == EffectView::Finish(Verdict::Cancelled)),
            !has_cookie(final(self)@, cookie@),
            consistent(final(self)@),
    {
        broadcast use vstd::std_specs::hash::group_hash_axioms;

        proof {
            use_type_invariant(&*self);
        }
        let ghost before = self@;
        match self.find_cookie(cookie) {
            None => None,
            Some(id) => {
                let mut entries = self.take();
                match entries.remove(&id) {
                    Some(state) => {
                        assert(state@ == before[id]);
                        let effect = state.cancel();
                        proof {
                            let now = entries@.map_values(|s: State| s@);
                            assert(now =~= before.remove(id));
                            lemma_remove_keeps_consistent(before, id);
                            if has_cookie(now, cookie@) {
                                let k = id_of_cookie(now, cookie@);
                                assert(before.dom().contains(k) && k != id);
                                assert(before[k].params.cookie != before[id].params.cookie);
                            }
                        }
                        *self = Dialogs { entries };
                        Some((id, effect))
                    },
                    None => {
                        assert(false);
                        *self = Dialogs { entries };
                        None
                    },
                }
            },
        }
    }
}

proof fn lemma_remove_keeps_consistent(dialogs: Map<u64, StateView>, id: u64)
    requires
        consistent(dialogs),
    ensures
        consistent(dialogs.remove(id)),
{
    let rest = dialogs.remove(id);
    assert forall|a: u64, b: u64|
        rest.dom().contains(a) && rest.dom().contains(b) && a != b implies (#[trigger] rest[a]).params.cookie
        != (#[trigger] rest[b]).params.cookie by {
        assert(dialogs[a].params.cookie != dialogs[b].params.cookie);
    }
}

proof fn lemma_insert_keeps_consistent(dialogs: Map<u64, StateView>, id: u64, now: StateView)
    requires
        consistent(dialogs),
        dialogs.dom().contains(id),
        now.params == dialogs[id].params,
        now.id == dialogs[id].id,
        !(now.phase is Terminal),
        well_formed(now),
    ensures
        consistent(dialogs.insert(id, now)),
{
    let next = dialogs.insert(id, now);
    assert forall|a: u64, b: u64|
        next.dom().contains(a) && next.dom().contains(b) && a != b implies (#[trigger] next[a]).params.cookie
        != (#[trigger] next[b]).params.cookie by {
        assert(next[a].params == dialogs[a].params && next[b].params == dialogs[b].params);
        assert(dialogs[a].params.cookie != dialogs[b].params.cookie);
    }
}

/// The dialog of `cookie` among `dialogs`, if one is in flight.
pub open spec fn dialog_of(dialogs: Map<u64, StateView>, cookie: Seq<char>) -> Option<StateView> {
    if has_cookie(dialogs, cookie) {
        Some(dialogs[id_of_cookie(dialogs, cookie)])
    } else {
        None
    }
}

proof fn lemma_dialog_at(dialogs: Map<u64, StateView>, k: u64)
    requires
        consistent(dialogs),
        dialogs.dom().contains(k),
    ensures
        has_cookie(dialogs, dialogs[k].params.cookie),
        id_of_cookie(dialogs, dialogs[k].params.cookie) == k,
        dialog_of(dialogs, dialogs[k].params.cookie) == Some(dialogs[k]),
{
    let cookie = dialogs[k].params.cookie;
    let found = id_of_cookie(dialogs, cookie);
    assert(dialogs.dom().contains(found) && dialogs[found].params.cookie == cookie);
    if found != k {
        assert(dialogs[found].params.cookie != dialogs[k].params.cookie);
    }
}

/// Dialogs are independent: a message to one of them leaves the dialog of
/// every other cookie exactly as it was, present or absent. Whatever one
/// helper says is never delivered to another request.
pub proof fn law_message_leaves_others(
    dialogs: Map<u64, StateView>,
    id: u64,
    msg: MsgView,
    other: Seq<char>,
)
    requires
        consistent(dialogs),
        dialogs.dom().contains(id),
        other != dialogs[id].params.cookie,
    ensures
        dialog_of(after_message(dialogs, id, msg), other) == dialog_of(dialogs, other),
{
    let after = after_message(dialogs, id, msg);
    let next = step(dialogs[id], msg).0;
    law_step_keeps_well_formed(dialogs[id], msg);
    law_step_keeps_request(dialogs[id], msg);
    if next.phase is Terminal {
        lemma_remove_keeps_consistent(dialogs, id);
    } else {
        lemma_insert_keeps_consistent(dialogs, id, next);
    }
    if has_cookie(dialogs, other) {
        let k = id_of_cookie(dialogs, other);
        lemma_dialog_at(dialogs, k);
        assert(k != id);
        assert(after.dom().contains(k) && after[k] == dialogs[k]);
        lemma_dialog_at(after, k);
    } else if has_cookie(after, other) {
        let k = id_of_cookie(after, other);
        assert(after.dom().contains(k) && after[k].params.cookie == other);
        assert(k != id);
        assert(dialogs.dom().contains(k) && dialogs[k].params.cookie == other);
    }
}

/// The dialog a message is for moves as its own transition function says,
/// and is gone from the dialogs in flight once its verdict is out.
pub proof fn law_message_moves_its_dialog(dialogs: Map<u64, StateView>, id: u64, msg: MsgView)
    requires
        consistent(dialogs),
        dialogs.dom().contains(id),
    ensures
        dialog_of(after_message(dialogs, id, msg), dialogs[id].params.cookie) == (if step(
            dialogs[id],
            msg,
        ).0.phase is Terminal {
            None
        } else {
            Some(step(dialogs[id], msg).0)
        }),
        consistent(after_message(dialogs, id, msg)),
{
    let after = after_message(dialogs, id, msg);
    let next = step(dialogs[id], msg).0;
    let cookie = dialogs[id].params.cookie;
    law_step_keeps_well_formed(dialogs[id], msg);
    law_step_keeps_request(dialogs[id], msg);
    lemma_dialog_at(dialogs, id);
    if next.phase is Terminal {
        lemma_remove_keeps_consistent(dialogs, id);
        if has_cookie(after, cookie) {
            let k = id_of_cookie(after, cookie);
            assert(after.dom().contains(k) && after[k].params.cookie == cookie);
            assert(dialogs.dom().contains(k) && k != id);
            assert(dialogs[k].params.cookie != dialogs[id].params.cookie);
        }
    } else {
        lemma_insert_keeps_consistent(dialogs, id, next);
        lemma_dialog_at(after, id);
    }
}

/// Cancelling one request leaves the dialog of every other cookie exactly
/// as it was, and leaves none for the cancelled cookie: a second
/// cancellation of the same cookie finds nothing to do.
pub proof fn law_cancel_leaves_others(
    dialogs: Map<u64, StateView>,
    cookie: Seq<char>,
    other: Seq<char>,
)
    requires
        consistent(dialogs),
        has_cookie(dialogs, cookie),
        other != cookie,
    ensures
        dialog_of(dialogs.remove(id_of_cookie(dialogs, cookie)), other) == dialog_of(dialogs, other),
        dialog_of(dialogs.remove(id_of_cookie(dialogs, cookie)), cookie) is None,
        consistent(dialogs.remove(id_of_cookie(dialogs, cookie))),
{
    let id = id_of_cookie(dialogs, cookie);
    assert(dialogs.dom().contains(id) && dialogs[id].params.cookie == cookie);
    law_message_leaves_others(dialogs, id, MsgView::Cancel, other);
    law_message_moves_its_dialog(dialogs, id, MsgView::Cancel);
    assert(after_message(dialogs, id, MsgView::Cancel) == dialogs.remove(id));
}

} // verus!
