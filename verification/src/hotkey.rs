use vstd::prelude::*;

verus! {

/// Position of the Backspace key in the toolkit's list of keys.
pub const KEY_BACKSPACE: u32 = 6;
/// Position of the Space key in the toolkit's list of keys.
pub const KEY_SPACE: u32 = 17;
/// Position of the S key in the toolkit's list of keys.
pub const KEY_S: u32 = 61;

/// State of the modifier keys, as the toolkit reports it.
#[derive(Clone, Copy, PartialEq, Eq, Debug, Hash, Structural)]
pub struct Modifiers {
    pub alt: bool,
    pub ctrl: bool,
    pub shift: bool,
    pub mac_cmd: bool,
    pub command: bool,
}

impl Modifiers {
    /// No modifier held.
    pub fn none() -> (m: Modifiers)
        ensures
            m == (Modifiers { alt: false, ctrl: false, shift: false, mac_cmd: false, command: false }),
    {
        Modifiers { alt: false, ctrl: false, shift: false, mac_cmd: false, command: false }
    }

    /// Only the Mac command key held.
    pub fn mac_cmd() -> (m: Modifiers)
        ensures
            m == (Modifiers { alt: false, ctrl: false, shift: false, mac_cmd: true, command: false }),
    {
        Modifiers { alt: false, ctrl: false, shift: false, mac_cmd: true, command: false }
    }
}

/// A key together with the modifiers held with it.
#[derive(Clone, Copy, PartialEq, Eq, Debug, Hash, Structural)]
pub struct KeyCombo {
    pub modifiers: Modifiers,
    pub key: u32,
}

/// A key event of the toolkit: which key, whether it went down, whether it
/// is an auto-repeat, and the modifiers held.
#[derive(Clone, Copy, PartialEq, Eq, Debug, Structural)]
pub struct KeyEvent {
    pub key: u32,
    pub pressed: bool,
    pub repeat: bool,
    pub modifiers: Modifiers,
}

/// What a hotkey can trigger.
#[derive(Clone, Copy, PartialEq, Eq, Hash, Debug, Structural)]
pub enum HotkeyAction {
    // Caster actions
    OpenSettings,
    SelectArea,
    // Player actions
    StopPlayback,
    PlayPlayback,
    // Common
    BackToRoot,
    RouteBack,
}

/// Every action, in declaration order.
pub open spec fn all_actions() -> Seq<HotkeyAction> {
    seq![
        HotkeyAction::OpenSettings,
        HotkeyAction::SelectArea,
        HotkeyAction::StopPlayback,
        HotkeyAction::PlayPlayback,
        HotkeyAction::BackToRoot,
        HotkeyAction::RouteBack,
    ]
}

/// The name of an action, as it is displayed.
pub open spec fn action_name(a: HotkeyAction) -> Seq<char> {
    match a {
        HotkeyAction::OpenSettings => "OpenSettings"@,
        HotkeyAction::SelectArea => "SelectArea"@,
        HotkeyAction::StopPlayback => "StopPlayback"@,
        HotkeyAction::PlayPlayback => "PlayPlayback"@,
        HotkeyAction::BackToRoot => "BackToRoot"@,
        HotkeyAction::RouteBack => "RouteBack"@,
    }
}

impl HotkeyAction {
    /// The variant's name.
    pub fn name(&self) -> (s: String)
        ensures
            s@ == action_name(*self),
    {
        match self {
            HotkeyAction::OpenSettings => String::from_str("OpenSettings"),
            HotkeyAction::SelectArea => String::from_str("SelectArea"),
            HotkeyAction::StopPlayback => String::from_str("StopPlayback"),
            HotkeyAction::PlayPlayback => String::from_str("PlayPlayback"),
            HotkeyAction::BackToRoot => String::from_str("BackToRoot"),
            HotkeyAction::RouteBack => String::from_str("RouteBack"),
        }
    }

    /// Every action, in declaration order.
    pub fn iter_all() -> (v: Vec<HotkeyAction>)
        ensures
            v@ == all_actions(),
    {
        let v = vec![
            HotkeyAction::OpenSettings,
            HotkeyAction::SelectArea,
            HotkeyAction::StopPlayback,
            HotkeyAction::PlayPlayback,
            HotkeyAction::BackToRoot,
            HotkeyAction::RouteBack,
        ];
        assert(v@ =~= all_actions());
        v
    }
}

/// Why a binding request was refused.
#[derive(Clone, Copy, PartialEq, Eq, Debug, Structural)]
pub enum BindError {
    KeyComboAlreadyAssigned(HotkeyAction),
    ActionAlreadyAssigned(KeyCombo),
    ActionAlreadyUnbinded,
}

/// Whether the manager triggers actions or waits for a combination to bind.
#[derive(Clone, Copy, PartialEq, Eq, Debug, Structural)]
pub enum ManagerState {
    Default,
    Binding(HotkeyAction),
}

/// The combination of a key event.
pub open spec fn event_combo(e: KeyEvent) -> KeyCombo {
    KeyCombo { modifiers: e.modifiers, key: e.key }
}

/// Some combination is bound to `a`.
pub open spec fn action_bound(m: Map<KeyCombo, HotkeyAction>, a: HotkeyAction) -> bool {
    exists|c: KeyCombo| #[trigger] m.dom().contains(c) && m[c] == a
}

/// No action is bound to two combinations.
pub open spec fn injective(m: Map<KeyCombo, HotkeyAction>) -> bool {
    forall|c1: KeyCombo, c2: KeyCombo|
        #![trigger m[c1], m[c2]]
        m.dom().contains(c1) && m.dom().contains(c2) && c1 != c2 ==> m[c1] != m[c2]
}

/// The combination bound to `a`, where there is one.
pub open spec fn combo_of(m: Map<KeyCombo, HotkeyAction>, a: HotkeyAction) -> KeyCombo {
    choose|c: KeyCombo| #[trigger] m.dom().contains(c) && m[c] == a
}

/// The actions that pressed keys trigger, in the order of the events.
/// Auto-repeated presses count too.
pub open spec fn triggered_actions(m: Map<KeyCombo, HotkeyAction>, events: Seq<KeyEvent>) -> Seq<HotkeyAction>
    decreases events.len(),
{
    if events.len() == 0 {
        seq![]
    } else {
        let prev = triggered_actions(m, events.drop_last());
        let e = events.last();
        if e.pressed && m.dom().contains(event_combo(e)) {
            prev.push(m[event_combo(e)])
        } else {
            prev
        }
    }
}

/// The first fresh (pressed, not repeated) key combination among the events.
pub open spec fn first_fresh_press(events: Seq<KeyEvent>) -> Option<KeyCombo>
    decreases events.len(),
{
    if events.len() == 0 {
        None
    } else if events[0].pressed && !events[0].repeat {
        Some(event_combo(events[0]))
    } else {
        first_fresh_press(events.drop_first())
    }
}

/// The bindings after trying to bind `combo` to `a`: the binding is added
/// only where neither the combination nor the action is bound yet.
pub open spec fn bind_result(m: Map<KeyCombo, HotkeyAction>, combo: KeyCombo, a: HotkeyAction) -> Map<KeyCombo, HotkeyAction> {
    if !m.dom().contains(combo) && !action_bound(m, a) {
        m.insert(combo, a)
    } else {
        m
    }
}

/// The bindings after a binding-mode check of the keyboard.
pub open spec fn binding_step(m: Map<KeyCombo, HotkeyAction>, events: Seq<KeyEvent>, a: HotkeyAction) -> Map<KeyCombo, HotkeyAction> {
    match first_fresh_press(events) {
        Some(c) => bind_result(m, c, a),
        None => m,
    }
}

/// The bindings of the defaults: Mac-command S stops the playback, Space
/// plays it, Backspace goes one route back.
pub open spec fn default_bindings() -> Map<KeyCombo, HotkeyAction> {
    map![
        KeyCombo { modifiers: Modifiers { alt: false, ctrl: false, shift: false, mac_cmd: true, command: false }, key: KEY_S }
            => HotkeyAction::StopPlayback,
        KeyCombo { modifiers: Modifiers { alt: false, ctrl: false, shift: false, mac_cmd: false, command: false }, key: KEY_SPACE }
            => HotkeyAction::PlayPlayback,
        KeyCombo { modifiers: Modifiers { alt: false, ctrl: false, shift: false, mac_cmd: false, command: false }, key: KEY_BACKSPACE }
            => HotkeyAction::RouteBack,
    ]
}

pub open spec fn combos_distinct(s: Seq<(KeyCombo, HotkeyAction)>) -> bool {
    forall|i: int, j: int|
        #![trigger s[i], s[j]]
        0 <= i < s.len() && 0 <= j < s.len() && i != j ==> s[i].0 != s[j].0
}

pub open spec fn actions_distinct(s: Seq<(KeyCombo, HotkeyAction)>) -> bool {
    forall|i: int, j: int|
        #![trigger s[i], s[j]]
        0 <= i < s.len() && 0 <= j < s.len() && i != j ==> s[i].1 != s[j].1
}

pub open spec fn has_combo(s: Seq<(KeyCombo, HotkeyAction)>, c: KeyCombo) -> bool {
    exists|i: int| 0 <= i < s.len() && #[trigger] s[i].0 == c
}

pub open spec fn has_action(s: Seq<(KeyCombo, HotkeyAction)>, a: HotkeyAction) -> bool {
    exists|i: int| 0 <= i < s.len() && #[trigger] s[i].1 == a
}

/// The map that a list of bindings with distinct combinations stands for.
pub open spec fn entries_map(s: Seq<(KeyCombo, HotkeyAction)>) -> Map<KeyCombo, HotkeyAction> {
    Map::new(
        |c: KeyCombo| has_combo(s, c),
        |c: KeyCombo| s[choose|i: int| 0 <= i < s.len() && #[trigger] s[i].0 == c].1,
    )
}

pub open spec fn reversed_entries(s: Seq<(KeyCombo, HotkeyAction)>) -> Seq<(HotkeyAction, KeyCombo)> {
    s.map_values(|e: (KeyCombo, HotkeyAction)| (e.1, e.0))
}

proof fn lemma_entries_map_at(s: Seq<(KeyCombo, HotkeyAction)>, i: int)
    requires
        combos_distinct(s),
        0 <= i < s.len(),
    ensures
        entries_map(s).dom().contains(s[i].0),
        entries_map(s)[s[i].0] == s[i].1,
{
    let c = s[i].0;
    assert(has_combo(s, c));
    let j = choose|j: int| 0 <= j < s.len() && #[trigger] s[j].0 == c;
    assert(s[j].0 == c);
    if j != i {
        assert(s[i].0 != s[j].0);
    }
}

proof fn lemma_entries_map_full(s: Seq<(KeyCombo, HotkeyAction)>)
    requires
        combos_distinct(s),
    ensures
        forall|i: int| 0 <= i < s.len() ==> #[trigger] entries_map(s).dom().contains(s[i].0)
            && entries_map(s)[s[i].0] == s[i].1,
        forall|c: KeyCombo| #[trigger] entries_map(s).dom().contains(c) <==> has_combo(s, c),
{
    assert forall|i: int| 0 <= i < s.len() implies #[trigger] entries_map(s).dom().contains(s[i].0)
        && entries_map(s)[s[i].0] == s[i].1 by {
        lemma_entries_map_at(s, i);
    }
}

proof fn lemma_action_bound_iff(s: Seq<(KeyCombo, HotkeyAction)>, a: HotkeyAction)
    requires
        combos_distinct(s),
    ensures
        action_bound(entries_map(s), a) <==> has_action(s, a),
{
    lemma_entries_map_full(s);
    if has_action(s, a) {
        let i = choose|i: int| 0 <= i < s.len() && #[trigger] s[i].1 == a;
        assert(entries_map(s).dom().contains(s[i].0));
    }
    if action_bound(entries_map(s), a) {
        let c = choose|c: KeyCombo| #[trigger] entries_map(s).dom().contains(c) && entries_map(s)[c] == a;
        assert(has_combo(s, c));
        let i = choose|i: int| 0 <= i < s.len() && #[trigger] s[i].0 == c;
        assert(entries_map(s)[s[i].0] == s[i].1);
    }
}

proof fn lemma_injective(s: Seq<(KeyCombo, HotkeyAction)>)
    requires
        combos_distinct(s),
        actions_distinct(s),
    ensures
        injective(entries_map(s)),
{
    lemma_entries_map_full(s);
    let m = entries_map(s);
    assert forall|c1: KeyCombo, c2: KeyCombo|
        m.dom().contains(c1) && m.dom().contains(c2) && c1 != c2 implies #[trigger] m[c1] != #[trigger] m[c2] by {
        let i = choose|i: int| 0 <= i < s.len() && #[trigger] s[i].0 == c1;
        let j = choose|j: int| 0 <= j < s.len() && #[trigger] s[j].0 == c2;
        assert(m[s[i].0] == s[i].1);
        assert(m[s[j].0] == s[j].1);
        assert(i != j);
    }
}

proof fn lemma_push(s: Seq<(KeyCombo, HotkeyAction)>, c: KeyCombo, a: HotkeyAction)
    requires
        combos_distinct(s),
        !has_combo(s, c),
    ensures
        combos_distinct(s.push((c, a))),
        entries_map(s.push((c, a))) == entries_map(s).insert(c, a),
{
    let t = s.push((c, a));
    assert(combos_distinct(t)) by {
        assert forall|i: int, j: int| 0 <= i < t.len() && 0 <= j < t.len() && i != j implies #[trigger] t[i].0 != #[trigger] t[j].0 by {
            if i == s.len() {
                assert(t[j] == s[j]);
            } else if j == s.len() {
                assert(t[i] == s[i]);
            } else {
                assert(t[i] == s[i] && t[j] == s[j]);
            }
        }
    }
    lemma_entries_map_full(s);
    lemma_entries_map_full(t);
    let m1 = entries_map(t);
    let m2 = entries_map(s).insert(c, a);
    assert forall|k: KeyCombo| m1.dom().contains(k) <==> m2.dom().contains(k) by {
        if has_combo(t, k) {
            let i = choose|i: int| 0 <= i < t.len() && #[trigger] t[i].0 == k;
            if i < s.len() {
                assert(t[i] == s[i]);
                assert(has_combo(s, k));
            }
        }
        if has_combo(s, k) {
            let i = choose|i: int| 0 <= i < s.len() && #[trigger] s[i].0 == k;
            assert(t[i] == s[i]);
            assert(has_combo(t, k));
        }
        if k == c {
            assert(t[s.len() as int].0 == c);
            assert(has_combo(t, k));
        }
    }
    assert forall|k: KeyCombo| m1.dom().contains(k) implies m1[k] == m2[k] by {
        let i = choose|i: int| 0 <= i < t.len() && #[trigger] t[i].0 == k;
        assert(m1[t[i].0] == t[i].1);
        if i < s.len() {
            assert(t[i] == s[i]);
            assert(entries_map(s)[s[i].0] == s[i].1);
        }
    }
    assert(m1 =~= m2);
}

proof fn lemma_entries_map_len(s: Seq<(KeyCombo, HotkeyAction)>)
    requires
        combos_distinct(s),
    ensures
        entries_map(s).dom().finite(),
        entries_map(s).len() == s.len(),
    decreases s.len(),
{
    if s.len() == 0 {
        assert(entries_map(s).dom() =~= Set::<KeyCombo>::empty());
    } else {
        let p = s.drop_last();
        let e = s.last();
        assert(combos_distinct(p)) by {
            assert forall|i: int, j: int| 0 <= i < p.len() && 0 <= j < p.len() && i != j implies #[trigger] p[i].0 != #[trigger] p[j].0 by {
                assert(p[i] == s[i] && p[j] == s[j]);
            }
        }
        assert(!has_combo(p, e.0)) by {
            if has_combo(p, e.0) {
                let i = choose|i: int| 0 <= i < p.len() && #[trigger] p[i].0 == e.0;
                assert(p[i] == s[i]);
                assert(s[i].0 != s[s.len() - 1].0);
            }
        }
        lemma_entries_map_len(p);
        lemma_push(p, e.0, e.1);
        assert(p.push((e.0, e.1)) =~= s);
        lemma_entries_map_full(p);
    }
}

proof fn lemma_remove(s: Seq<(KeyCombo, HotkeyAction)>, i: int)
    requires
        combos_distinct(s),
        0 <= i < s.len(),
    ensures
        combos_distinct(s.remove(i)),
        entries_map(s.remove(i)) == entries_map(s).remove(s[i].0),
        forall|a: HotkeyAction| has_action(s.remove(i), a) ==> has_action(s, a),
{
    let t = s.remove(i);
    assert forall|k: int| 0 <= k < t.len() implies #[trigger] t[k] == (if k < i { s[k] } else { s[k + 1] }) by {}
    assert(combos_distinct(t)) by {
        assert forall|p: int, q: int| 0 <= p < t.len() && 0 <= q < t.len() && p != q implies #[trigger] t[p].0 != #[trigger] t[q].0 by {
            let pp = if p < i { p } else { p + 1 };
            let qq = if q < i { q } else { q + 1 };
            assert(t[p] == s[pp] && t[q] == s[qq]);
        }
    }
    assert forall|a: HotkeyAction| has_action(t, a) implies has_action(s, a) by {
        let p = choose|p: int| 0 <= p < t.len() && #[trigger] t[p].1 == a;
        let pp = if p < i { p } else { p + 1 };
        assert(s[pp].1 == a);
    }
    lemma_entries_map_full(s);
    lemma_entries_map_full(t);
    let m1 = entries_map(t);
    let m2 = entries_map(s).remove(s[i].0);
    assert forall|k: KeyCombo| m1.dom().contains(k) <==> m2.dom().contains(k) by {
        if has_combo(t, k) {
            let p = choose|p: int| 0 <= p < t.len() && #[trigger] t[p].0 == k;
            let pp = if p < i { p } else { p + 1 };
            assert(s[pp].0 == k);
            assert(has_combo(s, k));
            assert(pp != i);
        }
        if has_combo(s, k) && k != s[i].0 {
            let p = choose|p: int| 0 <= p < s.len() && #[trigger] s[p].0 == k;
            assert(p != i);
            let pt = if p < i { p } else { p - 1 };
            assert(t[pt] == s[p]);
            assert(has_combo(t, k));
        }
    }
    assert forall|k: KeyCombo| m1.dom().contains(k) implies m1[k] == m2[k] by {
        let p = choose|p: int| 0 <= p < t.len() && #[trigger] t[p].0 == k;
        let pp = if p < i { p } else { p + 1 };
        assert(t[p] == s[pp]);
        assert(m1[t[p].0] == t[p].1);
        assert(entries_map(s)[s[pp].0] == s[pp].1);
    }
    assert(m1 =~= m2);
}

/// Binding a free combination to an unbound action and then unbinding that
/// action gives back the bindings one started from.
pub proof fn law_unbind_undoes_bind(m: Map<KeyCombo, HotkeyAction>, combo: KeyCombo, action: HotkeyAction)
    requires
        injective(m),
        !m.dom().contains(combo),
        !action_bound(m, action),
    ensures
        bind_result(m, combo, action) == m.insert(combo, action),
        action_bound(m.insert(combo, action), action),
        m.insert(combo, action).remove(combo_of(m.insert(combo, action), action)) == m,
{
    let m1 = m.insert(combo, action);
    assert(m1.dom().contains(combo) && m1[combo] == action);
    let c = combo_of(m1, action);
    assert(m1.dom().contains(c) && m1[c] == action);
    if c != combo {
        assert(m.dom().contains(c) && m[c] == action);
    }
    assert(c == combo);
    assert(m1.remove(c) =~= m);
}

/// Binding never makes two combinations trigger the same action.
pub proof fn law_bind_keeps_one_to_one(m: Map<KeyCombo, HotkeyAction>, combo: KeyCombo, action: HotkeyAction)
    requires
        injective(m),
    ensures
        injective(bind_result(m, combo, action)),
{
    let m1 = bind_result(m, combo, action);
    if !m.dom().contains(combo) && !action_bound(m, action) {
        assert forall|c1: KeyCombo, c2: KeyCombo|
            m1.dom().contains(c1) && m1.dom().contains(c2) && c1 != c2 implies #[trigger] m1[c1] != #[trigger] m1[c2] by {
            if c1 == combo {
                assert(m.dom().contains(c2));
            } else if c2 == combo {
                assert(m.dom().contains(c1));
            } else {
                assert(m[c1] != m[c2]);
            }
        }
    }
}

/// A step of the binding mode never takes a binding away or changes one:
/// every binding before it is still there after it, and the only change it
/// can make is one new binding of the awaited action, to a combination that
/// was free, where the action had no combination yet. Where the action is
/// already bound, nothing changes.
pub proof fn law_binding_step_only_adds(m: Map<KeyCombo, HotkeyAction>, events: Seq<KeyEvent>, action: HotkeyAction)
    ensures
        forall|c: KeyCombo| #[trigger] m.dom().contains(c) ==>
            binding_step(m, events, action).dom().contains(c) && binding_step(m, events, action)[c] == m[c],
        action_bound(m, action) ==> binding_step(m, events, action) == m,
        binding_step(m, events, action) == m || exists|c: KeyCombo| !m.dom().contains(c)
            && binding_step(m, events, action) == m.insert(c, action),
{
    match first_fresh_press(events) {
        Some(c) => {
            if !m.dom().contains(c) && !action_bound(m, action) {
                assert(binding_step(m, events, action) == m.insert(c, action));
            }
        },
        None => {},
    }
}

/// Unbinding never makes two combinations trigger the same action.
pub proof fn law_unbind_keeps_one_to_one(m: Map<KeyCombo, HotkeyAction>, action: HotkeyAction)
    requires
        injective(m),
    ensures
        injective(m.remove(combo_of(m, action))),
        !action_bound(m.remove(combo_of(m, action)), action),
{
    let c = combo_of(m, action);
    let m1 = m.remove(c);
    assert forall|c1: KeyCombo, c2: KeyCombo|
        m1.dom().contains(c1) && m1.dom().contains(c2) && c1 != c2 implies #[trigger] m1[c1] != #[trigger] m1[c2] by {
        assert(m[c1] != m[c2]);
    }
    if action_bound(m1, action) {
        let c2 = choose|c2: KeyCombo| #[trigger] m1.dom().contains(c2) && m1[c2] == action;
        assert(m.dom().contains(c2) && m[c2] == action);
        assert(m.dom().contains(c) && m[c] == action);
        assert(m[c] != m[c2]);
    }
}

/// Each action is listed exactly once between the bindings and the unbound
/// actions: among the bindings where some combination triggers it, among the
/// unbound actions otherwise.
pub proof fn law_actions_partition(
    m: Map<KeyCombo, HotkeyAction>,
    pairs: Seq<(HotkeyAction, KeyCombo)>,
    unbound: Seq<HotkeyAction>,
    a: HotkeyAction,
)
    requires
        forall|x: HotkeyAction, c: KeyCombo| pairs.contains((x, c)) <==> m.dom().contains(c) && m[c] == x,
        forall|x: HotkeyAction| unbound.contains(x) <==> !action_bound(m, x),
    ensures
        (exists|c: KeyCombo| pairs.contains((a, c))) <==> !unbound.contains(a),
{
    if exists|c: KeyCombo| pairs.contains((a, c)) {
        let c = choose|c: KeyCombo| pairs.contains((a, c));
        assert(m.dom().contains(c) && m[c] == a);
    }
    if !unbound.contains(a) {
        let c = choose|c: KeyCombo| #[trigger] m.dom().contains(c) && m[c] == a;
        assert(pairs.contains((a, c)));
    }
}

/// In the triggering mode, only bound actions come out, at most one per event.
pub proof fn law_triggered_are_bound(m: Map<KeyCombo, HotkeyAction>, events: Seq<KeyEvent>)
    ensures
        triggered_actions(m, events).len() <= events.len(),
        forall|i: int| 0 <= i < triggered_actions(m, events).len()
            ==> action_bound(m, #[trigger] triggered_actions(m, events)[i]),
    decreases events.len(),
{
    if events.len() > 0 {
        law_triggered_are_bound(m, events.drop_last());
        let prev = triggered_actions(m, events.drop_last());
        let e = events.last();
        if e.pressed && m.dom().contains(event_combo(e)) {
            assert forall|i: int| 0 <= i < triggered_actions(m, events).len()
                implies action_bound(m, #[trigger] triggered_actions(m, events)[i]) by {
                if i < prev.len() {
                    assert(triggered_actions(m, events)[i] == prev[i]);
                } else {
                    assert(m.dom().contains(event_combo(e)));
                }
            }
        }
    }
}

/// A press of a bound combination triggers its action.
pub proof fn law_press_triggers(m: Map<KeyCombo, HotkeyAction>, e: KeyEvent)
    requires
        e.pressed,
        m.dom().contains(event_combo(e)),
    ensures
        triggered_actions(m, seq![e]) == seq![m[event_combo(e)]],
{
    assert(seq![e].drop_last() =~= Seq::<KeyEvent>::empty());
    assert(triggered_actions(m, Seq::<KeyEvent>::empty()) == Seq::<HotkeyAction>::empty());
    assert(seq![e].last() == e);
    assert(Seq::<HotkeyAction>::empty().push(m[event_combo(e)]) =~= seq![m[event_combo(e)]]);
}

/// Keyboard shortcuts: a one-to-one table from key combinations to actions,
/// and a mode in which the next fresh key press is bound to an action.
pub struct HotkeyManager {
    pub state: ManagerState,
    bindings: Vec<(KeyCombo, HotkeyAction)>,
    reverse_bindings_cache: Option<Vec<(HotkeyAction, KeyCombo)>>,
    unbound_actions_cache: Option<Vec<HotkeyAction>>,
}

impl View for HotkeyManager {
    type V = Map<KeyCombo, HotkeyAction>;

    closed spec fn view(&self) -> Map<KeyCombo, HotkeyAction> {
        entries_map(self.bindings@)
    }
}

impl HotkeyManager {
    /// The current mode.
    pub closed spec fn mode(&self) -> ManagerState {
        self.state
    }

    /// The table is one-to-one and the cached answers agree with it.
    pub closed spec fn wf(&self) -> bool {
        &&& combos_distinct(self.bindings@)
        &&& actions_distinct(self.bindings@)
        &&& (self.reverse_bindings_cache matches Some(v) ==> v@ == reversed_entries(self.bindings@))
        &&& (self.unbound_actions_cache matches Some(v) ==> {
            &&& v@.no_duplicates()
            &&& forall|a: HotkeyAction| v@.contains(a) <==> !has_action(self.bindings@, a)
        })
    }

    /// A well-formed manager binds no action to two combinations.
    pub proof fn lemma_wf_injective(&self)
        requires
            self.wf(),
        ensures
            injective(self@),
    {
        lemma_injective(self.bindings@);
    }

    /// No bindings, in the triggering mode.
    pub fn empty() -> (m: Self)
        ensures
            m.wf(),
            m@ == Map::<KeyCombo, HotkeyAction>::empty(),
            m.mode() == ManagerState::Default,
    {
        let m = HotkeyManager {
            state: ManagerState::Default,
            bindings: Vec::new(),
            reverse_bindings_cache: None,
            unbound_actions_cache: None,
        };
        assert(entries_map(m.bindings@) =~= Map::<KeyCombo, HotkeyAction>::empty());
        m
    }

    /// The default bindings, in the triggering mode.
    pub fn default_bindings() -> (m: Self)
        ensures
            m.wf(),
            m@ == default_bindings(),
            m.mode() == ManagerState::Default,
    {
        let mut bindings: Vec<(KeyCombo, HotkeyAction)> = Vec::new();
        bindings.push((KeyCombo { modifiers: Modifiers::mac_cmd(), key: KEY_S }, HotkeyAction::StopPlayback));
        bindings.push((KeyCombo { modifiers: Modifiers::none(), key: KEY_SPACE }, HotkeyAction::PlayPlayback));
        bindings.push((KeyCombo { modifiers: Modifiers::none(), key: KEY_BACKSPACE }, HotkeyAction::RouteBack));
        let m = HotkeyManager {
            state: ManagerState::Default,
            bindings,
            reverse_bindings_cache: None,
            unbound_actions_cache: None,
        };
        proof {
            let s = m.bindings@;
            let c0 = s[0].0;
            let c1 = s[1].0;
            let c2 = s[2].0;
            assert(combos_distinct(s));
            assert(actions_distinct(s));
            lemma_entries_map_full(s);
            let d = default_bindings();
            assert forall|c: KeyCombo| #[trigger] entries_map(s).dom().contains(c) <==> d.dom().contains(c) by {
                if has_combo(s, c) {
                    let i = choose|i: int| 0 <= i < s.len() && #[trigger] s[i].0 == c;
                    assert(i == 0 || i == 1 || i == 2);
                }
                if c == c0 {
                    assert(s[0].0 == c);
                }
                if c == c1 {
                    assert(s[1].0 == c);
                }
                if c == c2 {
                    assert(s[2].0 == c);
                }
            }
            assert(entries_map(s)[c0] == d[c0]);
            assert(entries_map(s)[c1] == d[c1]);
            assert(entries_map(s)[c2] == d[c2]);
            assert(entries_map(s) =~= d);
        }
        m
    }

    /// Switches to the mode that binds the next fresh key press to `action`.
    pub fn new_binding_mode(&mut self, action: HotkeyAction)
        requires
            old(self).wf(),
        ensures
            final(self).wf(),
            final(self)@ == old(self)@,
            final(self).mode() == ManagerState::Binding(action),
    {
        self.state = ManagerState::Binding(action);
    }

    fn find_combo(&self, combo: KeyCombo) -> (r: Option<usize>)
        ensures
            match r {
                Some(i) => i < self.bindings@.len() && self.bindings@[i as int].0 == combo,
                None => !has_combo(self.bindings@, combo),
            },
    {
        let n = self.bindings.len();
        for i in 0..n
            invariant
                n == self.bindings@.len(),
                forall|j: int| 0 <= j < i ==> #[trigger] self.bindings@[j].0 != combo,
        {
            if self.bindings[i].0 == combo {
                return Some(i);
            }
        }
        None
    }

    fn reverse_search(&self, action: HotkeyAction) -> (r: Option<usize>)
        ensures
            match r {
                Some(i) => i < self.bindings@.len() && self.bindings@[i as int].1 == action,
                None => !has_action(self.bindings@, action),
            },
    {
        let n = self.bindings.len();
        for i in 0..n
            invariant
                n == self.bindings@.len(),
                forall|j: int| 0 <= j < i ==> #[trigger] self.bindings@[j].1 != action,
        {
            if self.bindings[i].1 == action {
                return Some(i);
            }
        }
        None
    }

    /// Binds `combo` to `action` where neither is bound yet; otherwise says
    /// which binding stands in the way and changes nothing.
    pub fn try_bind(&mut self, combo: KeyCombo, action: HotkeyAction) -> (r: Result<(), BindError>)
        requires
            old(self).wf(),
        ensures
            final(self).wf(),
            final(self).mode() == old(self).mode(),
            match r {
                Ok(()) => !old(self)@.dom().contains(combo) && !action_bound(old(self)@, action)
                    && final(self)@ == old(self)@.insert(combo, action),
                Err(BindError::KeyComboAlreadyAssigned(a)) => old(self)@.dom().contains(combo)
                    && old(self)@[combo] == a && final(self)@ == old(self)@,
                Err(BindError::ActionAlreadyAssigned(c)) => !old(self)@.dom().contains(combo)
                    && old(self)@.dom().contains(c) && old(self)@[c] == action
                    && final(self)@ == old(self)@,
                Err(BindError::ActionAlreadyUnbinded) => false,
            },
    {
        proof {
            lemma_entries_map_full(self.bindings@);
        }
        match self.find_combo(combo) {
            Some(i) => {
                proof {
                    lemma_entries_map_at(self.bindings@, i as int);
                }
                return Err(BindError::KeyComboAlreadyAssigned(self.bindings[i].1));
            },
            None => {},
        }
        match self.reverse_search(action) {
            Some(i) => {
                proof {
                    lemma_entries_map_at(self.bindings@, i as int);
                }
                return Err(BindError::ActionAlreadyAssigned(self.bindings[i].0));
            },
            None => {},
        }
        proof {
            lemma_action_bound_iff(self.bindings@, action);
            lemma_push(self.bindings@, combo, action);
        }
        let ghost old_s = self.bindings@;
        self.reverse_bindings_cache = None;
        self.unbound_actions_cache = None;
        self.bindings.push((combo, action));
        proof {
            let t = self.bindings@;
            assert(t == old_s.push((combo, action)));
            assert forall|i: int, j: int| 0 <= i < t.len() && 0 <= j < t.len() && i != j implies #[trigger] t[i].1 != #[trigger] t[j].1 by {
                if i == old_s.len() {
                    assert(t[j] == old_s[j]);
                } else if j == old_s.len() {
                    assert(t[i] == old_s[i]);
                } else {
                    assert(t[i] == old_s[i] && t[j] == old_s[j]);
                }
            }
        }
        Ok(())
    }

    /// Removes the binding of `action`; refuses where `action` is unbound.
    pub fn try_unbind(&mut self, action: HotkeyAction) -> (r: Result<(), BindError>)
        requires
            old(self).wf(),
        ensures
            final(self).wf(),
            final(self).mode() == old(self).mode(),
            match r {
                Ok(()) => action_bound(old(self)@, action)
                    && final(self)@ == old(self)@.remove(combo_of(old(self)@, action)),
                Err(e) => e == BindError::ActionAlreadyUnbinded && !action_bound(old(self)@, action)
                    && final(self)@ == old(self)@,
            },
    {
        proof {
            lemma_entries_map_full(self.bindings@);
            lemma_action_bound_iff(self.bindings@, action);
            lemma_injective(self.bindings@);
        }
        match self.reverse_search(action) {
            Some(i) => {
                let ghost old_s = self.bindings@;
                proof {
                    lemma_entries_map_at(old_s, i as int);
                    lemma_remove(old_s, i as int);
                    let m = entries_map(old_s);
                    let c = combo_of(m, action);
                    assert(m.dom().contains(old_s[i as int].0) && m[old_s[i as int].0] == action);
                    assert(m.dom().contains(c) && m[c] == action);
                    assert(c == old_s[i as int].0);
                }
                self.reverse_bindings_cache = None;
                self.unbound_actions_cache = None;
                self.bindings.remove(i);
                proof {
                    let t = self.bindings@;
                    assert(t == old_s.remove(i as int));
                    assert forall|p: int, q: int| 0 <= p < t.len() && 0 <= q < t.len() && p != q implies #[trigger] t[p].1 != #[trigger] t[q].1 by {
                        let pp = if p < i { p } else { p + 1 };
                        let qq = if q < i { q } else { q + 1 };
                        assert(t[p] == old_s[pp] && t[q] == old_s[qq]);
                    }
                }
                Ok(())
            },
            None => Err(BindError::ActionAlreadyUnbinded),
        }
    }

    /// The bindings as (action, combination) pairs, each once.
    pub fn bindings(&mut self) -> (r: Vec<(HotkeyAction, KeyCombo)>)
        requires
            old(self).wf(),
        ensures
            final(self).wf(),
            final(self)@ == old(self)@,
            final(self).mode() == old(self).mode(),
            r@.no_duplicates(),
            r@.len() == old(self)@.len(),
            forall|a: HotkeyAction, c: KeyCombo|
                r@.contains((a, c)) <==> old(self)@.dom().contains(c) && old(self)@[c] == a,
    {
        let r = match &self.reverse_bindings_cache {
            Some(cache) => copy_pairs(cache),
            None => {
                let n = self.bindings.len();
                let mut reverse: Vec<(HotkeyAction, KeyCombo)> = Vec::new();
                for i in 0..n
                    invariant
                        n == self.bindings@.len(),
                        reverse@ == reversed_entries(self.bindings@.take(i as int)),
                {
                    let e = self.bindings[i];
                    reverse.push((e.1, e.0));
                    proof {
                        assert(self.bindings@.take(i + 1) == self.bindings@.take(i as int).push(e));
                        assert(reverse@ =~= reversed_entries(self.bindings@.take(i + 1)));
                    }
                }
                proof {
                    assert(self.bindings@.take(n as int) == self.bindings@);
                }
                self.reverse_bindings_cache = Some(copy_pairs(&reverse));
                reverse
            },
        };
        proof {
            let s = self.bindings@;
            lemma_entries_map_full(s);
            lemma_entries_map_len(s);
            let m = entries_map(s);
            assert(r@.len() == s.len());
            assert forall|i: int| 0 <= i < r@.len() implies #[trigger] r@[i] == (s[i].1, s[i].0) by {}
            assert forall|i: int, j: int| 0 <= i < r@.len() && 0 <= j < r@.len() && i != j implies r@[i] != r@[j] by {
                assert(r@[i] == (s[i].1, s[i].0));
                assert(r@[j] == (s[j].1, s[j].0));
            }
            assert forall|a: HotkeyAction, c: KeyCombo| r@.contains((a, c)) <==> m.dom().contains(c) && m[c] == a by {
                if r@.contains((a, c)) {
                    let i = choose|i: int| 0 <= i < r@.len() && r@[i] == (a, c);
                    assert(r@[i] == (s[i].1, s[i].0));
                }
                if m.dom().contains(c) && m[c] == a {
                    let i = choose|i: int| 0 <= i < s.len() && #[trigger] s[i].0 == c;
                    assert(r@[i] == (s[i].1, s[i].0));
                }
            }
        }
        r
    }

    /// The actions that no combination triggers, each once.
    pub fn unbound_actions(&mut self) -> (r: Vec<HotkeyAction>)
        requires
            old(self).wf(),
        ensures
            final(self).wf(),
            final(self)@ == old(self)@,
            final(self).mode() == old(self).mode(),
            r@.no_duplicates(),
            forall|a: HotkeyAction| r@.contains(a) <==> !action_bound(old(self)@, a),
    {
        if self.unbound_actions_cache.is_none() {
            let all = HotkeyAction::iter_all();
            let mut unbound: Vec<HotkeyAction> = Vec::new();
            for i in 0..6
                invariant
                    all@ == all_actions(),
                    unbound@.no_duplicates(),
                    forall|j: int| 0 <= j < unbound@.len() ==> !has_action(self.bindings@, #[trigger] unbound@[j]),
                    forall|j: int| #![trigger unbound@[j]] 0 <= j < unbound@.len() ==> exists|k: int| 0 <= k < i && #[trigger] all_actions()[k] == unbound@[j],
                    forall|k: int| 0 <= k < i && !has_action(self.bindings@, #[trigger] all_actions()[k])
                        ==> unbound@.contains(all_actions()[k]),
            {
                let a = all[i];
                let ghost prev = unbound@;
                if self.reverse_search(a).is_none() {
                    proof {
                        assert(!prev.contains(a)) by {
                            if prev.contains(a) {
                                let j = choose|j: int| 0 <= j < prev.len() && prev[j] == a;
                                let k = choose|k: int| 0 <= k < i && #[trigger] all_actions()[k] == prev[j];
                                assert(all_actions()[k] != all_actions()[i as int]);
                            }
                        }
                    }
                    unbound.push(a);
                    proof {
                        assert forall|j: int| #![trigger unbound@[j]] 0 <= j < unbound@.len() implies exists|k: int| 0 <= k < i + 1 && #[trigger] all_actions()[k] == unbound@[j] by {
                            if j < prev.len() {
                                assert(unbound@[j] == prev[j]);
                                let k = choose|k: int| 0 <= k < i && #[trigger] all_actions()[k] == prev[j];
                                assert(all_actions()[k] == unbound@[j]);
                            } else {
                                assert(all_actions()[i as int] == unbound@[j]);
                            }
                        }
                        assert forall|k: int| 0 <= k < i + 1 && !has_action(self.bindings@, #[trigger] all_actions()[k])
                            implies unbound@.contains(all_actions()[k]) by {
                            if k < i {
                                assert(prev.contains(all_actions()[k]));
                                let j = choose|j: int| 0 <= j < prev.len() && prev[j] == all_actions()[k];
                                assert(unbound@[j] == prev[j]);
                            } else {
                                assert(unbound@[prev.len() as int] == a);
                            }
                        }
                    }
                } else {
                    proof {
                        assert forall|j: int| #![trigger unbound@[j]] 0 <= j < unbound@.len() implies exists|k: int| 0 <= k < i + 1 && #[trigger] all_actions()[k] == unbound@[j] by {
                            let k = choose|k: int| 0 <= k < i && #[trigger] all_actions()[k] == unbound@[j];
                        }
                    }
                }
            }
            proof {
                assert forall|a: HotkeyAction| unbound@.contains(a) <==> !has_action(self.bindings@, a) by {
                    if !has_action(self.bindings@, a) {
                        let k: int = match a {
                            HotkeyAction::OpenSettings => 0,
                            HotkeyAction::SelectArea => 1,
                            HotkeyAction::StopPlayback => 2,
                            HotkeyAction::PlayPlayback => 3,
                            HotkeyAction::BackToRoot => 4,
                            HotkeyAction::RouteBack => 5,
                        };
                        assert(all_actions()[k] == a);
                    }
                    if unbound@.contains(a) {
                        let j = choose|j: int| 0 <= j < unbound@.len() && unbound@[j] == a;
                        assert(!has_action(self.bindings@, unbound@[j]));
                    }
                }
            }
            self.unbound_actions_cache = Some(unbound);
        }
        let r = match &self.unbound_actions_cache {
            Some(cache) => copy_actions(cache),
            None => Vec::new(),
        };
        proof {
            lemma_entries_map_full(self.bindings@);
            assert forall|a: HotkeyAction| r@.contains(a) <==> !action_bound(old(self)@, a) by {
                lemma_action_bound_iff(self.bindings@, a);
            }
        }
        r
    }

    /// Reads the key events of one frame. In the triggering mode, returns the
    /// actions bound to the pressed combinations; in the binding mode, binds
    /// the first fresh press to the awaited action (where nothing is in the
    /// way) and returns nothing. The mode itself does not change.
    pub fn check_keyboard(&mut self, events: &Vec<KeyEvent>) -> (actions: Vec<HotkeyAction>)
        requires
            old(self).wf(),
        ensures
            final(self).wf(),
            final(self).mode() == old(self).mode(),
            old(self).mode() == ManagerState::Default ==> final(self)@ == old(self)@
                && actions@ == triggered_actions(old(self)@, events@),
            forall|a: HotkeyAction| old(self).mode() == ManagerState::Binding(a) ==> actions@ == Seq::<HotkeyAction>::empty()
                && final(self)@ == binding_step(old(self)@, events@, a),
    {
        match self.state {
            ManagerState::Default => self.default_behavior(events),
            ManagerState::Binding(action) => {
                self.new_binding(events, action);
                Vec::new()
            },
        }
    }

    fn new_binding(&mut self, events: &Vec<KeyEvent>, action: HotkeyAction)
        requires
            old(self).wf(),
        ensures
            final(self).wf(),
            final(self).mode() == old(self).mode(),
            final(self)@ == binding_step(old(self)@, events@, action),
    {
        let n = events.len();
        let mut i: usize = 0;
        proof {
            assert(events@.skip(0) =~= events@);
        }
        while i < n
            invariant
                n == events@.len(),
                0 <= i <= n,
                self.wf(),
                self@ == old(self)@,
                self.mode() == old(self).mode(),
                first_fresh_press(events@) == first_fresh_press(events@.skip(i as int)),
            decreases n - i,
        {
            let e = events[i];
            if e.pressed && !e.repeat {
                proof {
                    assert(events@.skip(i as int)[0] == e);
                }
                let combo = KeyCombo { modifiers: e.modifiers, key: e.key };
                let ghost before = self@;
                let _ = self.try_bind(combo, action);
                proof {
                    if !before.dom().contains(combo) && !action_bound(before, action) {
                    } else {
                        assert(self@ == before);
                    }
                }
                return;
            }
            proof {
                assert(events@.skip(i as int).drop_first() =~= events@.skip(i + 1));
            }
            i = i + 1;
        }
        proof {
            assert(events@.skip(n as int).len() == 0);
        }
    }

    fn default_behavior(&self, events: &Vec<KeyEvent>) -> (actions: Vec<HotkeyAction>)
        requires
            self.wf(),
        ensures
            actions@ == triggered_actions(self@, events@),
    {
        proof {
            lemma_entries_map_full(self.bindings@);
        }
        let n = events.len();
        let mut actions: Vec<HotkeyAction> = Vec::new();
        for i in 0..n
            invariant
                n == events@.len(),
                self.wf(),
                forall|c: KeyCombo| #[trigger] self@.dom().contains(c) <==> has_combo(self.bindings@, c),
                forall|k: int| 0 <= k < self.bindings@.len() ==> #[trigger] self@.dom().contains(self.bindings@[k].0)
                    && self@[self.bindings@[k].0] == self.bindings@[k].1,
                actions@ == triggered_actions(self@, events@.take(i as int)),
        {
            let e = events[i];
            proof {
                assert(events@.take(i + 1).drop_last() =~= events@.take(i as int));
                assert(events@.take(i + 1).last() == e);
            }
            if e.pressed {
                let combo = KeyCombo { modifiers: e.modifiers, key: e.key };
                match self.find_combo(combo) {
                    Some(k) => {
                        actions.push(self.bindings[k].1);
                    },
                    None => {},
                }
            }
        }
        proof {
            assert(events@.take(n as int) =~= events@);
        }
        actions
    }
}

fn copy_pairs(v: &Vec<(HotkeyAction, KeyCombo)>) -> (r: Vec<(HotkeyAction, KeyCombo)>)
    ensures
        r@ == v@,
{
    let mut r: Vec<(HotkeyAction, KeyCombo)> = Vec::new();
    for i in 0..v.len()
        invariant
            r@ == v@.take(i as int),
    {
        r.push(v[i]);
        proof {
            assert(v@.take(i + 1) =~= v@.take(i as int).push(v@[i as int]));
        }
    }
    proof {
        assert(v@.take(v@.len() as int) =~= v@);
    }
    r
}

fn copy_actions(v: &Vec<HotkeyAction>) -> (r: Vec<HotkeyAction>)
    ensures
        r@ == v@,
{
    let mut r: Vec<HotkeyAction> = Vec::new();
    for i in 0..v.len()
        invariant
            r@ == v@.take(i as int),
    {
        r.push(v[i]);
        proof {
            assert(v@.take(i + 1) =~= v@.take(i as int).push(v@[i as int]));
        }
    }
    proof {
        assert(v@.take(v@.len() as int) =~= v@);
    }
    r
}

impl Default for HotkeyManager {
    fn default() -> (m: Self)
        ensures
            m.wf(),
            m@ == default_bindings(),
            m.mode() == ManagerState::Default,
    {
        HotkeyManager::default_bindings()
    }
}

} // verus!
