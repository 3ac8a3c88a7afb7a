//! The numbers that identify the displays: one indicator per display, kept
//! in step with the displays that are to be numbered.

use crate::components::app::Command;
use crate::components::osd_indicator;
use crate::components::osd_indicator::Params;
use vstd::prelude::*;

verus! {

/// The number shown on one display.
#[derive(Debug)]
pub struct Identifier {
    /// The name of the display.
    pub display: String,
    pub state: osd_indicator::State,
}

/// `i` is the place of the first number shown for display `name`.
pub open spec fn named_first_at(shown: Seq<Identifier>, name: Seq<char>, i: int) -> bool {
    &&& 0 <= i < shown.len()
    &&& shown[i].display@ == name
    &&& forall|j: int| 0 <= j < i ==> (#[trigger] shown[j]).display@ != name
}

/// Where the number for display `name` stands among `shown`, if it has one.
pub open spec fn find_shown(shown: Seq<Identifier>, name: Seq<char>) -> Option<int> {
    if exists|i: int| named_first_at(shown, name, i) {
        Some(choose|i: int| named_first_at(shown, name, i))
    } else {
        None
    }
}

/// `i` is the place of the first output named `name`.
pub open spec fn output_first_at(outputs: Seq<(String, u64)>, name: Seq<char>, i: int) -> bool {
    &&& 0 <= i < outputs.len()
    &&& outputs[i].0@ == name
    &&& forall|j: int| 0 <= j < i ==> (#[trigger] outputs[j]).0@ != name
}

/// The handle of the output named `name`, if such an output is known.
pub open spec fn output_of(outputs: Seq<(String, u64)>, name: Seq<char>) -> Option<u64> {
    if exists|i: int| output_first_at(outputs, name, i) {
        Some(outputs[choose|i: int| output_first_at(outputs, name, i)].1)
    } else {
        None
    }
}

/// The indicator that shows `number` on surface `id`.
pub open spec fn number_state(id: u64, number: u32, sink: bool, source: bool) -> osd_indicator::State {
    osd_indicator::State {
        id,
        params: Params::DisplayNumber(number),
        margin: osd_indicator::margin_of(Params::DisplayNumber(number)),
        amplification_sink: sink,
        amplification_source: source,
    }
}

/// The numbering under way: the numbers shown before that no display has
/// claimed yet, the numbers settled, the next free surface, and what the
/// caller is to do so far.
pub struct Plan {
    pub left: Seq<Identifier>,
    pub built: Seq<Identifier>,
    pub next_id: u64,
    pub commands: Seq<Command>,
}

/// The numbering after one more display asked for its number. A display
/// already settled is passed over. A display that shows the right number
/// keeps its indicator, whose timer starts anew. Any other display gets a
/// fresh indicator, on its own output where that is known.
pub open spec fn place_one(
    plan: Plan,
    outputs: Seq<(String, u64)>,
    sink: bool,
    source: bool,
    request: (String, u32),
) -> Plan {
    if find_shown(plan.built, request.0@) is Some {
        plan
    } else {
        let hit = find_shown(plan.left, request.0@);
        if hit is Some && plan.left[hit.unwrap()].state.params == Params::DisplayNumber(request.1) {
            let i = hit.unwrap();
            Plan {
                left: plan.left.remove(i),
                built: plan.built.push(plan.left[i]),
                commands: plan.commands.push(Command::RestartTimer(plan.left[i].state.id, 1)),
                ..plan
            }
        } else if plan.next_id < u64::MAX {
            Plan {
                built: plan.built.push(
                    Identifier {
                        display: request.0,
                        state: number_state(plan.next_id, request.1, sink, source),
                    },
                ),
                next_id: (plan.next_id + 1) as u64,
                commands: plan.commands.push(
                    Command::GetIdentifierSurface(
                        osd_indicator::settings_of(plan.next_id, Params::DisplayNumber(request.1)),
                        output_of(outputs, request.0@),
                    ),
                ),
                ..plan
            }
        } else {
            plan
        }
    }
}

/// The numbering after each of `requests` asked in turn.
pub open spec fn place_all(
    plan: Plan,
    outputs: Seq<(String, u64)>,
    sink: bool,
    source: bool,
    requests: Seq<(String, u32)>,
) -> Plan
    decreases requests.len(),
{
    if requests.len() == 0 {
        plan
    } else {
        place_one(
            place_all(plan, outputs, sink, source, requests.drop_last()),
            outputs,
            sink,
            source,
            requests.last(),
        )
    }
}

/// The surfaces of the numbers that no display claimed are destroyed.
pub open spec fn sweep(left: Seq<Identifier>) -> Seq<Command> {
    Seq::new(left.len(), |i: int| Command::DestroyLayerSurface(left[i].state.id))
}

/// The display numbers on screen and the outputs they can be put on.
#[derive(Debug)]
pub struct Identifiers {
    pub shown: Vec<Identifier>,
    /// The outputs known, each with its name and its handle.
    pub wayland_outputs: Vec<(String, u64)>,
    /// Set when the numbers were dismissed: a numbering that comes in late
    /// is then dropped.
    pub identifiers_dismissed: bool,
}

fn find_identifier(shown: &Vec<Identifier>, name: &String) -> (found: Option<usize>)
    ensures
        match found {
            Some(i) => find_shown(shown@, name@) == Some(i as int) && i < shown@.len(),
            None => find_shown(shown@, name@) is None,
        },
{
    let mut i: usize = 0;
    while i < shown.len()
        invariant
            i <= shown.len(),
            forall|j: int| 0 <= j < i ==> (#[trigger] shown@[j]).display@ != name@,
        decreases shown.len() - i,
    {
        if shown[i].display == *name {
            assert(named_first_at(shown@, name@, i as int));
            assert(forall|k: int| named_first_at(shown@, name@, k) ==> k == i);
            return Some(i);
        }
        i += 1;
    }
    None
}

fn find_output(outputs: &Vec<(String, u64)>, name: &String) -> (found: Option<u64>)
    ensures
        found == output_of(outputs@, name@),
{
    let mut i: usize = 0;
    while i < outputs.len()
        invariant
            i <= outputs.len(),
            forall|j: int| 0 <= j < i ==> (#[trigger] outputs@[j]).0@ != name@,
        decreases outputs.len() - i,
    {
        if outputs[i].0 == *name {
            assert(output_first_at(outputs@, name@, i as int));
            assert(forall|k: int| output_first_at(outputs@, name@, k) ==> k == i);
            return Some(outputs[i].1);
        }
        i += 1;
    }
    None
}

/// The outputs after `output` was announced under `name`: it takes the
/// place of the output known by that name, or is added.
pub open spec fn outputs_with(outputs: Seq<(String, u64)>, output: u64, name: String) -> Seq<
    (String, u64),
> {
    if exists|i: int| output_first_at(outputs, name@, i) {
        outputs.update(choose|i: int| output_first_at(outputs, name@, i), (name, output))
    } else {
        outputs.push((name, output))
    }
}

/// The outputs but those with the handle `output`.
pub open spec fn outputs_without(outputs: Seq<(String, u64)>, output: u64) -> Seq<(String, u64)>
    decreases outputs.len(),
{
    if outputs.len() == 0 {
        outputs
    } else if outputs.last().1 == output {
        outputs_without(outputs.drop_last(), output)
    } else {
        outputs_without(outputs.drop_last(), output).push(outputs.last())
    }
}

/// The numbering of `requests` against the numbers in `shown`.
pub open spec fn numbering(
    shown: Seq<Identifier>,
    outputs: Seq<(String, u64)>,
    next_id: u64,
    sink: bool,
    source: bool,
    requests: Seq<(String, u32)>,
) -> Plan {
    place_all(
        Plan { left: shown, built: Seq::empty(), next_id, commands: Seq::empty() },
        outputs,
        sink,
        source,
        requests,
    )
}

/// `after` and `commands` are what bringing `before` in step with
/// `displays` gives, with surfaces numbered from `next_id` on.
pub open spec fn created(
    before: Identifiers,
    next_id: u64,
    sink: bool,
    source: bool,
    displays: Seq<(String, u32)>,
    after: Identifiers,
    next_after: u64,
    commands: Seq<Command>,
) -> bool {
    &&& after.wayland_outputs == before.wayland_outputs
    &&& after.identifiers_dismissed == before.identifiers_dismissed
    &&& if displays.len() == 0 || before.identifiers_dismissed {
        after.shown == before.shown && next_after == next_id && commands.len() == 0
    } else {
        let plan = numbering(before.shown@, before.wayland_outputs@, next_id, sink, source, displays);
        &&& after.shown@ == plan.built
        &&& next_after == plan.next_id
        &&& commands == plan.commands + sweep(plan.left)
    }
}

/// `after` and `commands` are what dismissing the numbers of `before` gives.
pub open spec fn dismissed(before: Identifiers, after: Identifiers, commands: Seq<Command>) -> bool {
    &&& after.shown@.len() == 0
    &&& after.identifiers_dismissed
    &&& after.wayland_outputs == before.wayland_outputs
    &&& commands == sweep(before.shown@)
}

/// What is asked of the caller to keep the number on surface `id` up.
pub open spec fn reset_commands(shown: Seq<Identifier>, id: u64) -> Seq<Command> {
    match find_surface(shown, id) {
        Some(i) => match shown[i].state.params {
            Params::DisplayNumber(_) => seq![Command::RestartTimer(id, 1)],
            _ => Seq::empty(),
        },
        None => Seq::empty(),
    }
}

/// `after` and `commands` are what the timer's message to the number on
/// surface `id` gives.
pub open spec fn messaged(
    before: Identifiers,
    id: u64,
    msg: osd_indicator::Msg,
    after: Identifiers,
    commands: Seq<Command>,
) -> bool {
    &&& after.wayland_outputs == before.wayland_outputs
    &&& after.identifiers_dismissed == before.identifiers_dismissed
    &&& match (find_surface(before.shown@, id), msg) {
        (Some(i), osd_indicator::Msg::Close) => after.shown@ == before.shown@.remove(i) && commands
            == seq![Command::DestroyLayerSurface(id)],
        _ => after.shown == before.shown && commands.len() == 0,
    }
}

/// `after` is `before` with `output` announced under `name`.
pub open spec fn announced(before: Identifiers, output: u64, name: String, after: Identifiers) -> bool {
    &&& after.wayland_outputs@ == outputs_with(before.wayland_outputs@, output, name)
    &&& after.shown == before.shown
    &&& after.identifiers_dismissed == before.identifiers_dismissed
}

/// `after` is `before` without `output`; `known` says whether it was there.
pub open spec fn removed(before: Identifiers, output: u64, after: Identifiers, known: bool) -> bool {
    &&& after.wayland_outputs@ == outputs_without(before.wayland_outputs@, output)
    &&& known == (after.wayland_outputs@.len() != before.wayland_outputs@.len())
    &&& after.shown == before.shown
    &&& after.identifiers_dismissed == (before.identifiers_dismissed && !known)
}

impl Identifiers {
    /// No number shown, no output known, nothing dismissed.
    pub fn new() -> (ids: Identifiers)
        ensures
            ids.shown@.len() == 0,
            ids.wayland_outputs@.len() == 0,
            !ids.identifiers_dismissed,
    {
        Identifiers { shown: Vec::new(), wayland_outputs: Vec::new(), identifiers_dismissed: false }
    }

    /// An output was announced, or announced again, under `name`.
    pub fn output_info(&mut self, output: u64, name: String)
        ensures
            announced(*old(self), output, name, *final(self)),
    {
        let mut i: usize = 0;
        while i < self.wayland_outputs.len()
            invariant
                i <= self.wayland_outputs.len(),
                *self == *old(self),
                forall|j: int| 0 <= j < i ==> (#[trigger] self.wayland_outputs@[j]).0@ != name@,
            decreases self.wayland_outputs.len() - i,
        {
            if self.wayland_outputs[i].0 == name {
                assert(output_first_at(self.wayland_outputs@, name@, i as int));
                assert(forall|k: int| output_first_at(self.wayland_outputs@, name@, k) ==> k == i);
                self.wayland_outputs.set(i, (name, output));
                return ;
            }
            i += 1;
        }
        self.wayland_outputs.push((name, output));
    }

    /// An output went away. Says whether it was known; if so the displays
    /// are to be numbered anew, dismissed or not.
    pub fn output_removed(&mut self, output: u64) -> (known: bool)
        ensures
            removed(*old(self), output, *final(self), known),
    {
        let mut kept: Vec<(String, u64)> = Vec::new();
        let mut i: usize = 0;
        assert(self.wayland_outputs@.subrange(0, 0) =~= Seq::<(String, u64)>::empty());
        while i < self.wayland_outputs.len()
            invariant
                i <= self.wayland_outputs.len(),
                *self == *old(self),
                kept@ == outputs_without(self.wayland_outputs@.subrange(0, i as int), output),
                kept@.len() <= i,
            decreases self.wayland_outputs.len() - i,
        {
            proof {
                let upto = self.wayland_outputs@.subrange(0, i + 1);
                assert(upto.drop_last() =~= self.wayland_outputs@.subrange(0, i as int));
                assert(upto.last() == self.wayland_outputs@[i as int]);
            }
            if self.wayland_outputs[i].1 != output {
                kept.push((self.wayland_outputs[i].0.clone(), self.wayland_outputs[i].1));
            }
            i += 1;
        }
        assert(self.wayland_outputs@.subrange(0, i as int) =~= self.wayland_outputs@);
        proof {
            lemma_without_all(self.wayland_outputs@, output);
        }
        let known = kept.len() != self.wayland_outputs.len();
        self.wayland_outputs = kept;
        if known {
            self.identifiers_dismissed = false;
        }
        known
    }

    /// Brings the numbers on screen in step with `displays`, each a display
    /// name and the number to show on it. An empty list changes nothing, and
    /// neither does any list once the numbers were dismissed. Else the
    /// numbers on screen become those settled by `numbering`, and every
    /// number that no display claimed loses its surface.
    pub fn create(
        &mut self,
        displays: &Vec<(String, u32)>,
        next_id: &mut u64,
        sink: bool,
        source: bool,
    ) -> (commands: Vec<Command>)
        ensures
            created(
                *old(self),
                *old(next_id),
                sink,
                source,
                displays@,
                *final(self),
                *final(next_id),
                commands@,
            ),
    {
        let mut commands: Vec<Command> = Vec::new();
        if displays.len() == 0 || self.identifiers_dismissed {
            return commands;
        }
        let mut left: Vec<Identifier> = Vec::new();
        std::mem::swap(&mut left, &mut self.shown);
        let mut built: Vec<Identifier> = Vec::new();
        let ghost start = Plan {
            left: left@,
            built: Seq::empty(),
            next_id: *next_id,
            commands: Seq::empty(),
        };
        let ghost outputs = self.wayland_outputs@;
        let mut k: usize = 0;
        assert(displays@.subrange(0, 0) =~= Seq::<(String, u32)>::empty());
        while k < displays.len()
            invariant
                k <= displays.len(),
                self.wayland_outputs@ == outputs,
                self.wayland_outputs == old(self).wayland_outputs,
                self.identifiers_dismissed == old(self).identifiers_dismissed,
                (Plan { left: left@, built: built@, next_id: *next_id, commands: commands@ })
                    == place_all(start, outputs, sink, source, displays@.subrange(0, k as int)),
            decreases displays.len() - k,
        {
            proof {
                let upto = displays@.subrange(0, k + 1);
                assert(upto.drop_last() =~= displays@.subrange(0, k as int));
                assert(upto.last() == displays@[k as int]);
            }
            let name = &displays[k].0;
            let number = displays[k].1;
            if find_identifier(&built, name).is_none() {
                let hit = find_identifier(&left, name);
                let same = match hit {
                    Some(i) => match left[i].state.params {
                        Params::DisplayNumber(n) => n == number,
                        _ => false,
                    },
                    None => false,
                };
                if same {
                    let entry = left.remove(hit.unwrap());
                    commands.push(Command::RestartTimer(entry.state.id, 1));
                    built.push(entry);
                } else if *next_id < u64::MAX {
                    let id = *next_id;
                    *next_id = id + 1;
                    let (state, settings) = osd_indicator::State::new(
                        id,
                        Params::DisplayNumber(number),
                        sink,
                        source,
                    );
                    let output = find_output(&self.wayland_outputs, name);
                    built.push(Identifier { display: name.clone(), state });
                    commands.push(Command::GetIdentifierSurface(settings, output));
                }
            }
            k += 1;
        }
        assert(displays@.subrange(0, k as int) =~= displays@);
        let ghost placed = commands@;
        let mut i: usize = 0;
        while i < left.len()
            invariant
                i <= left.len(),
                commands@ == placed + sweep(left@).subrange(0, i as int),
            decreases left.len() - i,
        {
            commands.push(Command::DestroyLayerSurface(left[i].state.id));
            assert(commands@ =~= placed + sweep(left@).subrange(0, i + 1));
            i += 1;
        }
        assert(sweep(left@).subrange(0, i as int) =~= sweep(left@));
        self.shown = built;
        commands
    }

    /// Takes every number off the screen and marks them dismissed.
    pub fn dismiss(&mut self) -> (commands: Vec<Command>)
        ensures
            dismissed(*old(self), *final(self), commands@),
    {
        let mut commands: Vec<Command> = Vec::new();
        let mut left: Vec<Identifier> = Vec::new();
        std::mem::swap(&mut left, &mut self.shown);
        let mut i: usize = 0;
        while i < left.len()
            invariant
                i <= left.len(),
                commands@ == sweep(left@).subrange(0, i as int),
            decreases left.len() - i,
        {
            commands.push(Command::DestroyLayerSurface(left[i].state.id));
            assert(commands@ =~= sweep(left@).subrange(0, i + 1));
            i += 1;
        }
        assert(sweep(left@).subrange(0, i as int) =~= sweep(left@));
        self.identifiers_dismissed = true;
        commands
    }
}

proof fn lemma_without_all(outputs: Seq<(String, u64)>, output: u64)
    ensures
        outputs_without(outputs, output).len() <= outputs.len(),
    decreases outputs.len(),
{
    if outputs.len() > 0 {
        lemma_without_all(outputs.drop_last(), output);
    }
}

/// `i` is the place of the first number shown on surface `id`.
pub open spec fn surface_first_at(shown: Seq<Identifier>, id: u64, i: int) -> bool {
    &&& 0 <= i < shown.len()
    &&& shown[i].state.id == id
    &&& forall|j: int| 0 <= j < i ==> (#[trigger] shown[j]).state.id != id
}

/// Where the number on surface `id` stands among `shown`, if there is one.
pub open spec fn find_surface(shown: Seq<Identifier>, id: u64) -> Option<int> {
    if exists|i: int| surface_first_at(shown, id, i) {
        Some(choose|i: int| surface_first_at(shown, id, i))
    } else {
        None
    }
}

fn find_by_surface(shown: &Vec<Identifier>, id: u64) -> (found: Option<usize>)
    ensures
        match found {
            Some(i) => find_surface(shown@, id) == Some(i as int) && i < shown@.len(),
            None => find_surface(shown@, id) is None,
        },
{
    let mut i: usize = 0;
    while i < shown.len()
        invariant
            i <= shown.len(),
            forall|j: int| 0 <= j < i ==> (#[trigger] shown@[j]).state.id != id,
        decreases shown.len() - i,
    {
        if shown[i].state.id == id {
            assert(surface_first_at(shown@, id, i as int));
            assert(forall|k: int| surface_first_at(shown@, id, k) ==> k == i);
            return Some(i);
        }
        i += 1;
    }
    None
}

impl Identifiers {
    /// Whether a display number is shown on surface `id`.
    pub fn has_surface(&self, id: u64) -> (yes: bool)
        ensures
            yes == find_surface(self.shown@, id).is_some(),
    {
        find_by_surface(&self.shown, id).is_some()
    }

    /// Keeps the number on surface `id` up for another second. Without
    /// such a number nothing is to be done.
    pub fn reset_timer(&self, id: u64) -> (commands: Vec<Command>)
        ensures
            commands@ == reset_commands(self.shown@, id),
    {
        let mut commands: Vec<Command> = Vec::new();
        match find_by_surface(&self.shown, id) {
            Some(i) => {
                match self.shown[i].state.reset_display_identifier_timer() {
                    Some(secs) => {
                        commands.push(Command::RestartTimer(id, secs));
                        assert(commands@ =~= seq![Command::RestartTimer(id, 1)]);
                    },
                    None => {},
                }
            },
            None => {},
        }
        commands
    }

    /// The number on surface `id` takes its timer's message: it stays on
    /// `Ignore`; on `Close` it goes, and its surface with it.
    pub fn surface_msg(&mut self, id: u64, msg: osd_indicator::Msg) -> (commands: Vec<Command>)
        ensures
            messaged(*old(self), id, msg, *final(self), commands@),
    {
        let mut commands: Vec<Command> = Vec::new();
        match find_by_surface(&self.shown, id) {
            Some(i) => {
                let (_, closed) = self.shown[i].state.update(msg);
                match closed {
                    Some(surface) => {
                        self.shown.remove(i);
                        commands.push(Command::DestroyLayerSurface(surface));
                        assert(commands@ =~= seq![Command::DestroyLayerSurface(id)]);
                    },
                    None => {},
                }
            },
            None => {},
        }
        commands
    }
}

proof fn lemma_found(shown: Seq<Identifier>, name: Seq<char>, k: int)
    requires
        0 <= k < shown.len(),
        shown[k].display@ == name,
    ensures
        find_shown(shown, name) is Some,
        0 <= find_shown(shown, name).unwrap() <= k,
        shown[find_shown(shown, name).unwrap()].display@ == name,
    decreases k,
{
    if exists|j: int| 0 <= j < k && (#[trigger] shown[j]).display@ == name {
        let j = choose|j: int| 0 <= j < k && (#[trigger] shown[j]).display@ == name;
        lemma_found(shown, name, j);
    } else {
        assert(named_first_at(shown, name, k));
        let i = choose|i: int| named_first_at(shown, name, i);
        assert(i == k);
    }
}

proof fn lemma_find_is_sound(shown: Seq<Identifier>, name: Seq<char>)
    ensures
        find_shown(shown, name) matches Some(i) ==> 0 <= i < shown.len() && shown[i].display@
            == name,
{
}

/// One more display settled never unsettles another: the numbers settled
/// before stay where they are, and a display that asked with surfaces to
/// spare is settled afterwards, with the number it asked for unless it was
/// settled already.
pub proof fn law_asking_settles(
    plan: Plan,
    outputs: Seq<(String, u64)>,
    sink: bool,
    source: bool,
    request: (String, u32),
)
    requires
        plan.next_id < u64::MAX,
    ensures
        ({
            let after = place_one(plan, outputs, sink, source, request);
            &&& after.built.len() >= plan.built.len()
            &&& after.built.subrange(0, plan.built.len() as int) == plan.built
            &&& find_shown(after.built, request.0@) is Some
            &&& find_shown(plan.built, request.0@) is None ==> after.built.len() == plan.built.len()
                + 1 && after.built.last().display@ == request.0@ && after.built.last().state.params
                == Params::DisplayNumber(request.1)
            &&& after.next_id <= plan.next_id + 1
        }),
{
    let after = place_one(plan, outputs, sink, source, request);
    if find_shown(plan.built, request.0@) is Some {
        assert(after.built.subrange(0, plan.built.len() as int) =~= plan.built);
    } else {
        let hit = find_shown(plan.left, request.0@);
        lemma_find_is_sound(plan.left, request.0@);
        assert(after.built.len() == plan.built.len() + 1);
        assert(after.built.subrange(0, plan.built.len() as int) =~= plan.built);
        lemma_found(after.built, request.0@, plan.built.len() as int);
    }
}

/// Every display that asks is numbered, as long as surfaces are to
/// spare: after the numbering, each requested display has its indicator
/// among those settled.
pub proof fn law_every_display_is_numbered(
    plan: Plan,
    outputs: Seq<(String, u64)>,
    sink: bool,
    source: bool,
    requests: Seq<(String, u32)>,
    k: int,
)
    requires
        plan.next_id + requests.len() < u64::MAX,
        0 <= k < requests.len(),
    ensures
        find_shown(place_all(plan, outputs, sink, source, requests).built, requests[k].0@) is Some,
        place_all(plan, outputs, sink, source, requests).next_id <= plan.next_id + requests.len(),
        place_all(plan, outputs, sink, source, requests).built.len() >= plan.built.len(),
        place_all(plan, outputs, sink, source, requests).built.subrange(
            0,
            plan.built.len() as int,
        ) == plan.built,
    decreases requests.len(),
{
    let init = requests.drop_last();
    let before = place_all(plan, outputs, sink, source, init);
    lemma_counts(plan, outputs, sink, source, init);
    law_asking_settles(before, outputs, sink, source, requests.last());
    let after = place_all(plan, outputs, sink, source, requests);
    assert(after.built.subrange(0, plan.built.len() as int) =~= plan.built) by {
        assert(before.built.subrange(0, plan.built.len() as int) == plan.built);
        assert(after.built.subrange(0, before.built.len() as int) == before.built);
        assert forall|i: int| 0 <= i < plan.built.len() implies after.built[i] == plan.built[i] by {
            assert(after.built.subrange(0, before.built.len() as int)[i] == before.built[i]);
            assert(before.built.subrange(0, plan.built.len() as int)[i] == plan.built[i]);
        }
    }
    if k < init.len() {
        law_every_display_is_numbered(plan, outputs, sink, source, init, k);
        assert(init[k] == requests[k]);
        let i = find_shown(before.built, requests[k].0@).unwrap();
        lemma_find_is_sound(before.built, requests[k].0@);
        assert(after.built.subrange(0, before.built.len() as int)[i] == before.built[i]);
        lemma_found(after.built, requests[k].0@, i);
    }
}

proof fn lemma_counts(
    plan: Plan,
    outputs: Seq<(String, u64)>,
    sink: bool,
    source: bool,
    requests: Seq<(String, u32)>,
)
    requires
        plan.next_id + requests.len() < u64::MAX,
    ensures
        place_all(plan, outputs, sink, source, requests).next_id <= plan.next_id + requests.len(),
        place_all(plan, outputs, sink, source, requests).built.len() >= plan.built.len(),
        place_all(plan, outputs, sink, source, requests).built.subrange(
            0,
            plan.built.len() as int,
        ) == plan.built,
    decreases requests.len(),
{
    if requests.len() == 0 {
        assert(plan.built.subrange(0, plan.built.len() as int) =~= plan.built);
    } else {
        let init = requests.drop_last();
        lemma_counts(plan, outputs, sink, source, init);
        let before = place_all(plan, outputs, sink, source, init);
        law_asking_settles(before, outputs, sink, source, requests.last());
        let after = place_all(plan, outputs, sink, source, requests);
        assert forall|i: int| 0 <= i < plan.built.len() implies after.built[i] == plan.built[i] by {
            assert(after.built.subrange(0, before.built.len() as int)[i] == before.built[i]);
            assert(before.built.subrange(0, plan.built.len() as int)[i] == plan.built[i]);
        }
        assert(after.built.subrange(0, plan.built.len() as int) =~= plan.built);
    }
}

/// The numbering only ever takes surfaces further up: the counter of
/// surfaces never goes back.
pub proof fn law_numbering_counts_up(
    plan: Plan,
    outputs: Seq<(String, u64)>,
    sink: bool,
    source: bool,
    requests: Seq<(String, u32)>,
)
    ensures
        place_all(plan, outputs, sink, source, requests).next_id >= plan.next_id,
    decreases requests.len(),
{
    if requests.len() > 0 {
        law_numbering_counts_up(plan, outputs, sink, source, requests.drop_last());
    }
}

} // verus!
