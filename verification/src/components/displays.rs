//! The displays as the display service lists them: numbering them for
//! identification, and switching the built-in ones on and off.

use crate::components::app::DisplayMode;
use vstd::prelude::*;
use vstd::string::*;

verus! {

/// One mode a display can run in.
#[derive(Clone, Copy, Debug)]
pub struct Mode {
    /// Width and height.
    pub size: (u32, u32),
    pub preferred: bool,
}

/// One display output.
#[derive(Debug)]
pub struct Output {
    pub name: String,
    pub enabled: bool,
    /// Where the output's left upper corner lies.
    pub position: (i32, i32),
    /// The modes the output offers, each by its place in the list's modes.
    pub modes: Vec<usize>,
    /// The mode the output runs in, by its place in the list's modes.
    pub current: Option<usize>,
}

/// The outputs and the modes they refer to.
#[derive(Debug)]
pub struct List {
    pub outputs: Vec<Output>,
    pub modes: Vec<Mode>,
}

/// The bytes a name is ordered by.
pub open spec fn key(name: Seq<char>) -> Seq<u8> {
    vstd::utf8::encode_utf8(name)
}

/// Byte strings in dictionary order: `a` comes strictly before `b`.
pub open spec fn before(a: Seq<u8>, b: Seq<u8>) -> bool
    decreases a.len(),
{
    if b.len() == 0 {
        false
    } else if a.len() == 0 {
        true
    } else if a[0] != b[0] {
        a[0] < b[0]
    } else {
        before(a.drop_first(), b.drop_first())
    }
}

/// Some enabled output bears the name with these bytes.
pub open spec fn is_enabled_name(outputs: Seq<Output>, bytes: Seq<u8>) -> bool {
    exists|i: int|
        0 <= i < outputs.len() && (#[trigger] outputs[i]).enabled && key(outputs[i].name@) == bytes
}

/// `displays` numbers the enabled outputs: it holds each enabled output's
/// name once, in dictionary order, with the numbers from one upward.
pub open spec fn numbers_enabled(outputs: Seq<Output>, displays: Seq<(String, u32)>) -> bool {
    &&& forall|i: int, j: int|
        0 <= i < j < displays.len() ==> before(
            key((#[trigger] displays[i]).0@),
            key((#[trigger] displays[j]).0@),
        )
    &&& forall|i: int|
        0 <= i < displays.len() ==> is_enabled_name(outputs, key((#[trigger] displays[i]).0@))
    &&& forall|i: int|
        0 <= i < outputs.len() && (#[trigger] outputs[i]).enabled ==> exists|k: int|
            0 <= k < displays.len() && key((#[trigger] displays[k]).0@) == key(outputs[i].name@)
    &&& forall|i: int| 0 <= i < displays.len() ==> (#[trigger] displays[i]).1 == i + 1
}

proof fn lemma_before_irreflexive(a: Seq<u8>)
    ensures
        !before(a, a),
    decreases a.len(),
{
    if a.len() > 0 {
        lemma_before_irreflexive(a.drop_first());
    }
}

proof fn lemma_before_transitive(a: Seq<u8>, b: Seq<u8>, c: Seq<u8>)
    requires
        before(a, b),
        before(b, c),
    ensures
        before(a, c),
    decreases a.len(),
{
    if a.len() > 0 && b.len() > 0 && c.len() > 0 {
        if a[0] == b[0] && b[0] == c[0] {
            lemma_before_transitive(a.drop_first(), b.drop_first(), c.drop_first());
        }
    }
}

proof fn lemma_before_total(a: Seq<u8>, b: Seq<u8>)
    ensures
        before(a, b) || before(b, a) || a == b,
    decreases a.len(),
{
    if a.len() > 0 && b.len() > 0 {
        if a[0] == b[0] {
            lemma_before_total(a.drop_first(), b.drop_first());
            if a.drop_first() == b.drop_first() {
                assert(a =~= seq![a[0]] + a.drop_first());
                assert(b =~= seq![b[0]] + b.drop_first());
            }
        }
    } else if a.len() == 0 && b.len() == 0 {
        assert(a =~= b);
    }
}

/// How two byte strings compare.
#[derive(Clone, Copy, Debug, PartialEq, Eq, Structural)]
pub enum Order {
    Before,
    Same,
    After,
}

/// Compares two names by their bytes, in dictionary order.
pub fn compare_names(a: &str, b: &str) -> (order: Order)
    ensures
        order == Order::Before <==> before(key(a@), key(b@)),
        order == Order::After <==> before(key(b@), key(a@)),
        order == Order::Same <==> key(a@) == key(b@),
{
    let x = a.as_bytes();
    let y = b.as_bytes();
    let mut i: usize = 0;
    proof {
        assert(x@.subrange(0, x@.len() as int) =~= x@);
        assert(y@.subrange(0, y@.len() as int) =~= y@);
        lemma_before_irreflexive(x@);
        lemma_before_total(x@, y@);
    }
    while i < x.len() && i < y.len()
        invariant
            i <= x.len(),
            i <= y.len(),
            x@ == key(a@),
            y@ == key(b@),
            before(x@, y@) == before(
                x@.subrange(i as int, x@.len() as int),
                y@.subrange(i as int, y@.len() as int),
            ),
            before(y@, x@) == before(
                y@.subrange(i as int, y@.len() as int),
                x@.subrange(i as int, x@.len() as int),
            ),
        decreases x.len() - i,
    {
        let ghost xs = x@.subrange(i as int, x@.len() as int);
        let ghost ys = y@.subrange(i as int, y@.len() as int);
        proof {
            assert(xs[0] == x@[i as int]);
            assert(ys[0] == y@[i as int]);
            assert(xs.drop_first() =~= x@.subrange(i + 1, x@.len() as int));
            assert(ys.drop_first() =~= y@.subrange(i + 1, y@.len() as int));
        }
        if x[i] < y[i] {
            proof {
                lemma_before_irreflexive(x@);
                if x@ == y@ {
                    assert(false);
                }
            }
            return Order::Before;
        }
        if x[i] > y[i] {
            proof {
                lemma_before_irreflexive(x@);
                if x@ == y@ {
                    assert(false);
                }
            }
            return Order::After;
        }
        i += 1;
    }
    proof {
        let xs = x@.subrange(i as int, x@.len() as int);
        let ys = y@.subrange(i as int, y@.len() as int);
        lemma_before_irreflexive(x@);
        lemma_before_total(x@, y@);
        if x@ == y@ {
            lemma_before_irreflexive(y@);
        }
    }
    if x.len() < y.len() {
        Order::Before
    } else if x.len() > y.len() {
        Order::After
    } else {
        Order::Same
    }
}

/// `names` holds the names of the enabled outputs among the first `upto`,
/// each once, in dictionary order.
spec fn sorted_names(outputs: Seq<Output>, upto: int, names: Seq<String>) -> bool {
    &&& forall|i: int, j: int|
        0 <= i < j < names.len() ==> before(key((#[trigger] names[i])@), key((#[trigger] names[j])@))
    &&& forall|i: int| 0 <= i < names.len() ==> is_enabled_name(outputs, key((#[trigger] names[i])@))
    &&& forall|i: int|
        0 <= i < upto && (#[trigger] outputs[i]).enabled ==> exists|k: int|
            0 <= k < names.len() && key((#[trigger] names[k])@) == key(outputs[i].name@)
}

fn insert_name(names: &mut Vec<String>, name: &String, Ghost(outputs): Ghost<Seq<Output>>, Ghost(
    upto,
): Ghost<int>)
    requires
        sorted_names(outputs, upto, old(names)@),
        0 <= upto < outputs.len(),
        outputs[upto].enabled,
        outputs[upto].name@ == name@,
        old(names)@.len() <= upto,
    ensures
        sorted_names(outputs, upto + 1, final(names)@),
        final(names)@.len() <= upto + 1,
{
    let mut p: usize = 0;
    let mut stop = false;
    let ghost was = names@;
    while p < names.len() && !stop
        invariant
            p <= names.len(),
            names@ == was,
            sorted_names(outputs, upto, was),
            0 <= upto < outputs.len(),
            outputs[upto].enabled,
            outputs[upto].name@ == name@,
            was.len() <= upto,
            forall|i: int| 0 <= i < p ==> before(key((#[trigger] names@[i])@), key(name@)),
            stop ==> p < names.len() && before(key(name@), key(names@[p as int]@)),
        decreases names.len() - p + (if stop { 0int } else { 1int }),
    {
        match compare_names(names[p].as_str(), name.as_str()) {
            Order::Before => {
                p += 1;
            },
            Order::Same => {
                assert(key(was[p as int]@) == key(outputs[upto].name@));
                return ;
            },
            Order::After => {
                stop = true;
            },
        }
    }
    names.insert(p, name.clone());
    proof {
        let now = names@;
        assert(now[p as int]@ == name@);
        assert forall|i: int, j: int| 0 <= i < j < now.len() implies before(
            key((#[trigger] now[i])@),
            key((#[trigger] now[j])@),
        ) by {
            if j < p {
                assert(now[i] == was[i] && now[j] == was[j]);
            } else if j == p {
                assert(now[i] == was[i]);
            } else if i == p {
                assert(now[j] == was[j - 1]);
                assert(stop);
                if j - 1 > p {
                    assert(before(key(was[p as int]@), key(was[j - 1]@)));
                    lemma_before_transitive(key(name@), key(was[p as int]@), key(was[j - 1]@));
                }
            } else if i < p {
                assert(now[i] == was[i] && now[j] == was[j - 1]);
                assert(stop);
                if j - 1 > p {
                    assert(before(key(was[p as int]@), key(was[j - 1]@)));
                    lemma_before_transitive(key(name@), key(was[p as int]@), key(was[j - 1]@));
                }
                lemma_before_transitive(key(was[i]@), key(name@), key(was[j - 1]@));
            } else {
                assert(now[i] == was[i - 1] && now[j] == was[j - 1]);
            }
        }
        assert forall|i: int| 0 <= i < now.len() implies is_enabled_name(
            outputs,
            key((#[trigger] now[i])@),
        ) by {
            if i < p {
                assert(now[i] == was[i]);
            } else if i > p {
                assert(now[i] == was[i - 1]);
            }
        }
        assert forall|i: int| 0 <= i < upto + 1 && (#[trigger] outputs[i]).enabled implies exists|
            k: int,
        |
            0 <= k < now.len() && key((#[trigger] now[k])@) == key(outputs[i].name@) by {
            if i == upto {
                assert(key(now[p as int]@) == key(outputs[i].name@));
            } else {
                let k = choose|k: int|
                    0 <= k < was.len() && key((#[trigger] was[k])@) == key(outputs[i].name@);
                let k2 = if k < p { k } else { k + 1 };
                assert(now[k2] == was[k]);
            }
        }
    }
}

/// The enabled outputs, numbered for identification: by name in dictionary
/// order, from one upward, each name once.
pub fn enabled_displays(outputs: &Vec<Output>) -> (displays: Vec<(String, u32)>)
    requires
        outputs@.len() <= u32::MAX,
    ensures
        numbers_enabled(outputs@, displays@),
{
    let mut names: Vec<String> = Vec::new();
    let mut i: usize = 0;
    while i < outputs.len()
        invariant
            i <= outputs.len(),
            names@.len() <= i,
            sorted_names(outputs@, i as int, names@),
        decreases outputs.len() - i,
    {
        if outputs[i].enabled {
            insert_name(&mut names, &outputs[i].name, Ghost(outputs@), Ghost(i as int));
        }
        i += 1;
    }
    let mut displays: Vec<(String, u32)> = Vec::new();
    let mut k: usize = 0;
    while k < names.len()
        invariant
            k <= names.len(),
            names@.len() <= outputs@.len() <= u32::MAX,
            displays@.len() == k,
            forall|j: int| 0 <= j < k ==> (#[trigger] displays@[j]).0 == names@[j] && displays@[j].1 == j + 1,
        decreases names.len() - k,
    {
        displays.push((names[k].clone(), (k + 1) as u32));
        k += 1;
    }
    proof {
        assert forall|i: int|
            0 <= i < outputs@.len() && (#[trigger] outputs@[i]).enabled implies exists|k: int|
            0 <= k < displays@.len() && key((#[trigger] displays@[k]).0@) == key(outputs@[i].name@) by {
            let k = choose|k: int|
                0 <= k < names@.len() && key((#[trigger] names@[k])@) == key(outputs@[i].name@);
            assert(displays@[k].0 == names@[k]);
        }
    }
    displays
}

/// All enabled outputs, if there are any, bear one and the same name.
pub open spec fn at_most_one_name(outputs: Seq<Output>) -> bool {
    forall|i: int, j: int|
        0 <= i < outputs.len() && 0 <= j < outputs.len() && (#[trigger] outputs[i]).enabled && (
        #[trigger] outputs[j]).enabled ==> key(outputs[i].name@) == key(outputs[j].name@)
}

/// The displays to put numbers on, given what listing the displays gave.
/// Where the listing failed, and where fewer than two displays are on,
/// there is nothing to tell apart and no number is shown. Else every
/// enabled display gets its number.
pub fn trigger_identify_displays(listed: Option<&List>) -> (displays: Vec<(String, u32)>)
    requires
        listed matches Some(list) ==> list.outputs@.len() <= u32::MAX,
    ensures
        listed is None ==> displays@.len() == 0,
        listed matches Some(list) ==> (if at_most_one_name(list.outputs@) {
            displays@.len() == 0
        } else {
            displays@.len() >= 2 && numbers_enabled(list.outputs@, displays@)
        }),
{
    match listed {
        None => Vec::new(),
        Some(list) => {
            let displays = enabled_displays(&list.outputs);
            proof {
                let outputs = list.outputs@;
                if displays@.len() >= 2 {
                    lemma_before_irreflexive(key(displays@[0].0@));
                    assert(before(key(displays@[0].0@), key(displays@[1].0@)));
                    assert(is_enabled_name(outputs, key(displays@[0].0@)));
                    assert(is_enabled_name(outputs, key(displays@[1].0@)));
                } else {
                    assert forall|i: int, j: int|
                        0 <= i < outputs.len() && 0 <= j < outputs.len() && (
                        #[trigger] outputs[i]).enabled && (#[trigger] outputs[j]).enabled implies key(
                        outputs[i].name@,
                    ) == key(outputs[j].name@) by {
                        let a = choose|k: int|
                            0 <= k < displays@.len() && key((#[trigger] displays@[k]).0@) == key(
                                outputs[i].name@,
                            );
                        let b = choose|k: int|
                            0 <= k < displays@.len() && key((#[trigger] displays@[k]).0@) == key(
                                outputs[j].name@,
                            );
                        assert(a == 0 && b == 0);
                    }
                }
            }
            if displays.len() < 2 {
                Vec::new()
            } else {
                displays
            }
        },
    }
}

/// `s` starts with `prefix`.
pub open spec fn has_prefix(s: Seq<char>, prefix: Seq<char>) -> bool {
    s.len() >= prefix.len() && s.subrange(0, prefix.len() as int) == prefix
}

/// Whether an output of this name is built into the machine.
pub open spec fn is_internal(name: Seq<char>) -> bool {
    has_prefix(name, "eDP-"@) || has_prefix(name, "LVDS-"@) || has_prefix(name, "DSI-"@)
}

fn starts_with(s: &str, n: usize, prefix: &str, k: usize) -> (yes: bool)
    requires
        n == s@.len(),
        k == prefix@.len(),
    ensures
        yes == has_prefix(s@, prefix@),
{
    if n < k {
        return false;
    }
    s.substring_char(0, k).to_owned() == prefix.to_owned()
}

/// Says whether an output of this name is built into the machine.
pub fn internal_name(name: &str) -> (yes: bool)
    ensures
        yes == is_internal(name@),
{
    proof {
        reveal_strlit("eDP-");
        reveal_strlit("LVDS-");
        reveal_strlit("DSI-");
    }
    let n = name.unicode_len();
    starts_with(name, n, "eDP-", 4) || starts_with(name, n, "LVDS-", 5) || starts_with(
        name,
        n,
        "DSI-",
        4,
    )
}

/// The part of the desktop that an enabled display covers.
#[derive(Clone, Copy, Debug)]
pub struct Rect {
    pub position: (i32, i32),
    pub size: (u32, u32),
}

/// A display of `size` put at `at` would cover some of what `r` covers.
pub open spec fn overlaps(at: (int, int), size: (u32, u32), r: Rect) -> bool {
    !(at.0 >= r.position.0 + r.size.0 || at.0 + size.0 <= r.position.0 || at.1 >= r.position.1
        + r.size.1 || at.1 + size.1 <= r.position.1)
}

/// The place right of `r`, level with its top.
pub open spec fn right_of(r: Rect) -> (int, int) {
    (r.position.0 + r.size.0, r.position.1 as int)
}

/// A display of `size` can go right of the `i`-th of `rects`: the place
/// can be written down and covers nothing that is covered.
pub open spec fn free_at(rects: Seq<Rect>, size: (u32, u32), i: int) -> bool {
    &&& 0 <= i < rects.len()
    &&& right_of(rects[i]).0 <= i32::MAX
    &&& forall|j: int| 0 <= j < rects.len() ==> !overlaps(right_of(rects[i]), size, #[trigger] rects[j])
}

/// `i` is the first of `rects` that a display of `size` can go right of.
pub open spec fn first_free_at(rects: Seq<Rect>, size: (u32, u32), i: int) -> bool {
    free_at(rects, size, i) && forall|j: int| 0 <= j < i ==> !free_at(rects, size, j)
}

/// Where a display of `size` goes: right of the first of `rects` that has
/// room there; nowhere if none has.
pub open spec fn place(rects: Seq<Rect>, size: (u32, u32)) -> Option<(i32, i32)> {
    if exists|i: int| first_free_at(rects, size, i) {
        let i = choose|i: int| first_free_at(rects, size, i);
        Some((right_of(rects[i]).0 as i32, rects[i].position.1))
    } else {
        None
    }
}

/// Where `r` goes among `rects`, kept in order of their left edges: behind
/// the last that does not lie further right.
pub open spec fn slot(rects: Seq<Rect>, r: Rect) -> int
    decreases rects.len(),
{
    if rects.len() == 0 {
        0
    } else if rects.last().position.0 <= r.position.0 {
        rects.len() as int
    } else {
        slot(rects.drop_last(), r)
    }
}

/// `rects` with `r` put in its place.
pub open spec fn insert_sorted(rects: Seq<Rect>, r: Rect) -> Seq<Rect> {
    rects.insert(slot(rects, r), r)
}

/// What the first `upto` outputs cover: one rectangle for every enabled
/// output that runs in a known mode, in order of their left edges, and in
/// the outputs' order where left edges are level.
pub open spec fn covered(outputs: Seq<Output>, modes: Seq<Mode>, upto: int) -> Seq<Rect>
    decreases upto,
{
    if upto <= 0 {
        Seq::empty()
    } else {
        let so_far = covered(outputs, modes, upto - 1);
        let o = outputs[upto - 1];
        if o.enabled && (o.current matches Some(m) && m < modes.len()) {
            insert_sorted(so_far, Rect { position: o.position, size: modes[o.current.unwrap() as int].size })
        } else {
            so_far
        }
    }
}

/// The first of the modes `offered` that is known and preferred.
pub open spec fn first_preferred(offered: Seq<usize>, modes: Seq<Mode>) -> Option<usize>
    decreases offered.len(),
{
    if offered.len() == 0 {
        None
    } else if offered[0] < modes.len() && modes[offered[0] as int].preferred {
        Some(offered[0])
    } else {
        first_preferred(offered.drop_first(), modes)
    }
}

/// The mode an output is switched on in: its preferred mode, or the first
/// it offers if none is preferred; none if it offers none.
pub open spec fn chosen_mode(offered: Seq<usize>, modes: Seq<Mode>) -> Option<usize> {
    if offered.len() == 0 {
        None
    } else {
        match first_preferred(offered, modes) {
            Some(m) => Some(m),
            None => Some(offered[0]),
        }
    }
}

/// One built-in output switched on, and what is covered then. The output
/// runs in its chosen mode; if that mode is known and there is room for it,
/// the output moves there and covers it.
pub open spec fn enable_one(o: Output, modes: Seq<Mode>, rects: Seq<Rect>) -> (Output, Seq<Rect>) {
    let on = Output { enabled: true, ..o };
    match chosen_mode(o.modes@, modes) {
        None => (on, rects),
        Some(m) => {
            let running = Output { current: Some(m), ..on };
            if m < modes.len() {
                match place(rects, modes[m as int].size) {
                    Some(position) => (
                        Output { position, ..running },
                        insert_sorted(rects, Rect { position, size: modes[m as int].size }),
                    ),
                    None => (running, rects),
                }
            } else {
                (running, rects)
            }
        },
    }
}

/// The outputs after the built-in ones among the first `upto` were
/// switched on, one after the other, and what is covered then.
pub open spec fn enable_internal(
    outputs: Seq<Output>,
    modes: Seq<Mode>,
    rects: Seq<Rect>,
    upto: int,
) -> (Seq<Output>, Seq<Rect>)
    decreases upto,
{
    if upto <= 0 {
        (outputs, rects)
    } else {
        let (outs, rs) = enable_internal(outputs, modes, rects, upto - 1);
        if is_internal(outs[upto - 1].name@) {
            let (o, rs2) = enable_one(outs[upto - 1], modes, rs);
            (outs.update(upto - 1, o), rs2)
        } else {
            (outs, rs)
        }
    }
}

/// The outputs with the built-in ones among the first `upto` switched off.
pub open spec fn disable_internal(outputs: Seq<Output>, upto: int) -> Seq<Output>
    decreases upto,
{
    if upto <= 0 {
        outputs
    } else {
        let outs = disable_internal(outputs, upto - 1);
        if is_internal(outs[upto - 1].name@) {
            outs.update(upto - 1, Output { enabled: false, ..outs[upto - 1] })
        } else {
            outs
        }
    }
}

/// Some output is built in.
pub open spec fn any_internal(outputs: Seq<Output>) -> bool {
    exists|i: int| 0 <= i < outputs.len() && is_internal((#[trigger] outputs[i]).name@)
}

/// Every built-in output is on.
pub open spec fn all_internal_enabled(outputs: Seq<Output>) -> bool {
    forall|i: int|
        0 <= i < outputs.len() && is_internal((#[trigger] outputs[i]).name@) ==> outputs[i].enabled
}

/// Some output that is not built in is on.
pub open spec fn other_enabled(outputs: Seq<Output>) -> bool {
    exists|i: int|
        0 <= i < outputs.len() && !is_internal((#[trigger] outputs[i]).name@) && outputs[i].enabled
}

/// What the toggle does. Without a built-in display, and where switching
/// the built-in displays off would leave none on, nothing is done. Where
/// all built-in displays are on and another display is too, the built-in
/// ones go off. Else every built-in display goes on and is given room.
pub open spec fn toggled(outputs: Seq<Output>, modes: Seq<Mode>) -> Option<(DisplayMode, Seq<Output>)> {
    if !any_internal(outputs) {
        None
    } else if all_internal_enabled(outputs) {
        if other_enabled(outputs) {
            Some((DisplayMode::External, disable_internal(outputs, outputs.len() as int)))
        } else {
            None
        }
    } else {
        Some(
            (
                DisplayMode::All,
                enable_internal(
                    outputs,
                    modes,
                    covered(outputs, modes, outputs.len() as int),
                    outputs.len() as int,
                ).0,
            ),
        )
    }
}

fn insert_rect(rects: &mut Vec<Rect>, r: Rect)
    ensures
        final(rects)@ == insert_sorted(old(rects)@, r),
{
    let mut p: usize = rects.len();
    assert(rects@.subrange(0, p as int) =~= rects@);
    while p > 0 && rects[p - 1].position.0 > r.position.0
        invariant
            p <= rects.len(),
            rects@ == old(rects)@,
            slot(rects@, r) == slot(rects@.subrange(0, p as int), r),
        decreases p,
    {
        assert(rects@.subrange(0, p as int).drop_last() =~= rects@.subrange(0, p - 1));
        p -= 1;
    }
    assert(slot(rects@.subrange(0, p as int), r) == p);
    rects.insert(p, r);
}

fn covered_rects(list: &List) -> (rects: Vec<Rect>)
    ensures
        rects@ == covered(list.outputs@, list.modes@, list.outputs@.len() as int),
{
    let mut rects: Vec<Rect> = Vec::new();
    let mut i: usize = 0;
    while i < list.outputs.len()
        invariant
            i <= list.outputs.len(),
            rects@ == covered(list.outputs@, list.modes@, i as int),
        decreases list.outputs.len() - i,
    {
        let o = &list.outputs[i];
        if o.enabled {
            match o.current {
                Some(m) => {
                    if m < list.modes.len() {
                        insert_rect(&mut rects, Rect { position: o.position, size: list.modes[m].size });
                    }
                },
                None => {},
            }
        }
        i += 1;
    }
    rects
}

fn has_room(rects: &Vec<Rect>, size: (u32, u32), i: usize) -> (free: bool)
    requires
        i < rects.len(),
    ensures
        free == free_at(rects@, size, i as int),
{
    let x: i64 = rects[i].position.0 as i64 + rects[i].size.0 as i64;
    let y: i64 = rects[i].position.1 as i64;
    if x > i32::MAX as i64 {
        return false;
    }
    let mut j: usize = 0;
    while j < rects.len()
        invariant
            j <= rects.len(),
            i < rects.len(),
            x == right_of(rects@[i as int]).0,
            y == right_of(rects@[i as int]).1,
            i32::MIN <= x <= i32::MAX,
            forall|k: int| 0 <= k < j ==> !overlaps(right_of(rects@[i as int]), size, #[trigger] rects@[k]),
        decreases rects.len() - j,
    {
        let r = &rects[j];
        let clear = x >= r.position.0 as i64 + r.size.0 as i64 || x + size.0 as i64
            <= r.position.0 as i64 || y >= r.position.1 as i64 + r.size.1 as i64 || y
            + size.1 as i64 <= r.position.1 as i64;
        if !clear {
            assert(overlaps(right_of(rects@[i as int]), size, rects@[j as int]));
            return false;
        }
        j += 1;
    }
    true
}

fn find_place(rects: &Vec<Rect>, size: (u32, u32)) -> (found: Option<(i32, i32)>)
    ensures
        found == place(rects@, size),
{
    let mut i: usize = 0;
    while i < rects.len()
        invariant
            i <= rects.len(),
            forall|j: int| 0 <= j < i ==> !free_at(rects@, size, j),
        decreases rects.len() - i,
    {
        if has_room(rects, size, i) {
            assert(first_free_at(rects@, size, i as int));
            assert(forall|k: int| first_free_at(rects@, size, k) ==> k == i);
            let x: i64 = rects[i].position.0 as i64 + rects[i].size.0 as i64;
            return Some((x as i32, rects[i].position.1));
        }
        i += 1;
    }
    None
}

fn choose_mode(offered: &Vec<usize>, modes: &Vec<Mode>) -> (mode: Option<usize>)
    ensures
        mode == chosen_mode(offered@, modes@),
{
    if offered.len() == 0 {
        return None;
    }
    let mut i: usize = 0;
    assert(offered@.subrange(0, offered@.len() as int) =~= offered@);
    while i < offered.len()
        invariant
            i <= offered.len(),
            first_preferred(offered@, modes@) == first_preferred(
                offered@.subrange(i as int, offered@.len() as int),
                modes@,
            ),
        decreases offered.len() - i,
    {
        let ghost tail = offered@.subrange(i as int, offered@.len() as int);
        assert(tail[0] == offered@[i as int]);
        assert(tail.drop_first() =~= offered@.subrange(i + 1, offered@.len() as int));
        let m = offered[i];
        if m < modes.len() && modes[m].preferred {
            return Some(m);
        }
        i += 1;
    }
    Some(offered[0])
}

fn enable_output(o: Output, modes: &Vec<Mode>, rects: &mut Vec<Rect>) -> (on: Output)
    ensures
        (on, final(rects)@) == enable_one(o, modes@, old(rects)@),
{
    let mut o = o;
    o.enabled = true;
    match choose_mode(&o.modes, modes) {
        None => {},
        Some(m) => {
            o.current = Some(m);
            if m < modes.len() {
                let size = modes[m].size;
                match find_place(rects, size) {
                    Some(position) => {
                        o.position = position;
                        insert_rect(rects, Rect { position, size });
                    },
                    None => {},
                }
            }
        },
    }
    o
}

/// Toggles the built-in displays in the list. Returns which displays are
/// on afterwards, or `None` where nothing was done.
pub fn toggle_displays(list: &mut List) -> (mode: Option<DisplayMode>)
    ensures
        final(list).modes == old(list).modes,
        match toggled(old(list).outputs@, old(list).modes@) {
            None => mode.is_none() && final(list).outputs == old(list).outputs,
            Some((shown, outputs)) => mode == Some(shown) && final(list).outputs@ == outputs,
        },
{
    let n = list.outputs.len();
    let mut any = false;
    let mut all_on = true;
    let mut other = false;
    let mut i: usize = 0;
    while i < n
        invariant
            i <= n,
            n == list.outputs@.len(),
            *list == *old(list),
            any == exists|k: int| 0 <= k < i && is_internal((#[trigger] list.outputs@[k]).name@),
            all_on == forall|k: int|
                0 <= k < i && is_internal((#[trigger] list.outputs@[k]).name@)
                    ==> list.outputs@[k].enabled,
            other == exists|k: int|
                0 <= k < i && !is_internal((#[trigger] list.outputs@[k]).name@)
                    && list.outputs@[k].enabled,
        decreases n - i,
    {
        let o = &list.outputs[i];
        if internal_name(o.name.as_str()) {
            any = true;
            if !o.enabled {
                all_on = false;
            }
        } else if o.enabled {
            other = true;
        }
        i += 1;
    }
    if !any {
        return None;
    }
    if all_on {
        if !other {
            return None;
        }
        let mut k: usize = 0;
        while k < n
            invariant
                k <= n,
                n == list.outputs@.len(),
                list.modes == old(list).modes,
                list.outputs@ == disable_internal(old(list).outputs@, k as int),
            decreases n - k,
        {
            if internal_name(list.outputs[k].name.as_str()) {
                let ghost outs = list.outputs@;
                let mut o = list.outputs.remove(k);
                o.enabled = false;
                list.outputs.insert(k, o);
                assert(list.outputs@ =~= outs.update(k as int, Output { enabled: false, ..outs[k as int] }));
            }
            k += 1;
        }
        Some(DisplayMode::External)
    } else {
        let mut rects = covered_rects(list);
        let ghost start = rects@;
        let mut k: usize = 0;
        while k < n
            invariant
                k <= n,
                n == list.outputs@.len(),
                list.modes == old(list).modes,
                (list.outputs@, rects@) == enable_internal(
                    old(list).outputs@,
                    old(list).modes@,
                    start,
                    k as int,
                ),
            decreases n - k,
        {
            if internal_name(list.outputs[k].name.as_str()) {
                let ghost outs = list.outputs@;
                let o = list.outputs.remove(k);
                let on = enable_output(o, &list.modes, &mut rects);
                list.outputs.insert(k, on);
                assert(list.outputs@ =~= outs.update(k as int, on));
            }
            k += 1;
        }
        Some(DisplayMode::All)
    }
}

/// The rectangles stand in order of their left edges.
pub open spec fn ordered(rects: Seq<Rect>) -> bool {
    forall|i: int, j: int|
        0 <= i < j < rects.len() ==> (#[trigger] rects[i]).position.0 <= (#[trigger] rects[j]).position.0
}

proof fn lemma_slot(rects: Seq<Rect>, r: Rect)
    requires
        ordered(rects),
    ensures
        0 <= slot(rects, r) <= rects.len(),
        forall|i: int| 0 <= i < slot(rects, r) ==> (#[trigger] rects[i]).position.0 <= r.position.0,
        forall|i: int|
            slot(rects, r) <= i < rects.len() ==> (#[trigger] rects[i]).position.0 > r.position.0,
    decreases rects.len(),
{
    if rects.len() > 0 {
        if rects.last().position.0 <= r.position.0 {
            assert forall|i: int| 0 <= i < rects.len() implies (#[trigger] rects[i]).position.0
                <= r.position.0 by {
                if i < rects.len() - 1 {
                    assert(rects[i].position.0 <= rects[rects.len() - 1].position.0);
                }
            }
        } else {
            let init = rects.drop_last();
            assert forall|i: int, j: int| 0 <= i < j < init.len() implies (#[trigger] init[i]).position.0
                <= (#[trigger] init[j]).position.0 by {
                assert(init[i] == rects[i] && init[j] == rects[j]);
            }
            lemma_slot(init, r);
            assert forall|i: int| 0 <= i < slot(rects, r) implies (#[trigger] rects[i]).position.0
                <= r.position.0 by {
                assert(rects[i] == init[i]);
            }
            assert forall|i: int| slot(rects, r) <= i < rects.len() implies (
            #[trigger] rects[i]).position.0 > r.position.0 by {
                if i < init.len() {
                    assert(rects[i] == init[i]);
                }
            }
        }
    }
}

/// Putting a rectangle in its place keeps the rectangles in order of their
/// left edges, adds that rectangle and no other, and puts it behind every
/// rectangle whose left edge is level with its own.
pub proof fn law_insert_keeps_order(rects: Seq<Rect>, r: Rect)
    requires
        ordered(rects),
    ensures
        ordered(insert_sorted(rects, r)),
        insert_sorted(rects, r).len() == rects.len() + 1,
        0 <= slot(rects, r) <= rects.len(),
        insert_sorted(rects, r)[slot(rects, r)] == r,
        forall|i: int|
            0 <= i < rects.len() && (#[trigger] rects[i]).position.0 == r.position.0 ==> i < slot(
                rects,
                r,
            ),
{
    lemma_slot(rects, r);
    let p = slot(rects, r);
    let now = insert_sorted(rects, r);
    assert forall|i: int, j: int| 0 <= i < j < now.len() implies (#[trigger] now[i]).position.0 <= (
    #[trigger] now[j]).position.0 by {
        let a = if i < p { rects[i] } else if i == p { r } else { rects[i - 1] };
        let b = if j < p { rects[j] } else if j == p { r } else { rects[j - 1] };
        assert(now[i] == a && now[j] == b);
        if i < p && j > p {
            assert(rects[i].position.0 <= rects[j - 1].position.0 || i == j - 1);
        } else if i > p {
            assert(rects[i - 1].position.0 <= rects[j - 1].position.0);
        } else if j < p {
            assert(rects[i].position.0 <= rects[j].position.0);
        }
    }
}

/// What the outputs cover always stands in order of the left edges.
pub proof fn law_covered_is_ordered(outputs: Seq<Output>, modes: Seq<Mode>, upto: int)
    ensures
        ordered(covered(outputs, modes, upto)),
    decreases upto,
{
    if upto > 0 {
        law_covered_is_ordered(outputs, modes, upto - 1);
        let so_far = covered(outputs, modes, upto - 1);
        let o = outputs[upto - 1];
        if o.enabled && (o.current matches Some(m) && m < modes.len()) {
            law_insert_keeps_order(
                so_far,
                Rect { position: o.position, size: modes[o.current.unwrap() as int].size },
            );
        }
    }
}

/// The place found for a display touches the right edge of a display that
/// is on, is level with its top, and covers nothing that is covered.
pub proof fn law_place_is_free(rects: Seq<Rect>, size: (u32, u32))
    ensures
        place(rects, size) matches Some(at) ==> (exists|i: int|
            0 <= i < rects.len() && at.0 == (#[trigger] rects[i]).position.0 + rects[i].size.0
                && at.1 == rects[i].position.1) && forall|j: int|
            0 <= j < rects.len() ==> !overlaps((at.0 as int, at.1 as int), size, #[trigger] rects[j]),
        place(rects, size) is None <==> forall|i: int| 0 <= i < rects.len() ==> !free_at(rects, size, i),
{
    if exists|i: int| first_free_at(rects, size, i) {
        let i = choose|i: int| first_free_at(rects, size, i);
        assert(free_at(rects, size, i));
        assert(rects[i].position.0 + rects[i].size.0 == right_of(rects[i]).0);
    } else {
        assert forall|i: int| 0 <= i < rects.len() implies !free_at(rects, size, i) by {
            lemma_no_first(rects, size, i);
        }
    }
}

proof fn lemma_no_first(rects: Seq<Rect>, size: (u32, u32), i: int)
    requires
        forall|k: int| !first_free_at(rects, size, k),
        0 <= i < rects.len(),
    ensures
        !free_at(rects, size, i),
    decreases i,
{
    if free_at(rects, size, i) {
        if exists|j: int| 0 <= j < i && free_at(rects, size, j) {
            let j = choose|j: int| 0 <= j < i && free_at(rects, size, j);
            lemma_no_first(rects, size, j);
        } else {
            assert(first_free_at(rects, size, i));
        }
    }
}

} // verus!
