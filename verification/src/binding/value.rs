//! Single-action, short/long, and per-direction gesture bindings.

use vstd::prelude::*;

use super::action::Action;
use super::gesture::GestureDirection;

verus! {

/// How long, in milliseconds, a physical button must remain down before its
/// independent long action fires.
pub const LONG_PRESS_THRESHOLD_MS: u64 = 500;

/// The mutually exclusive actions of a threshold-based button binding.
///
/// `short` fires only on an ordinary release before the threshold. `long`
/// fires once when the threshold elapses and suppresses `short` for that press.
#[derive(Clone, Copy, Debug, PartialEq, Eq, Structural)]
pub struct LongPressBinding {
    short: Action,
    long: Action,
}

impl LongPressBinding {
    /// The release-before-threshold action.
    pub closed spec fn spec_short(self) -> Action {
        self.short
    }

    /// The threshold action.
    pub closed spec fn spec_long(self) -> Action {
        self.long
    }

    /// Pair the release-before-threshold action with the threshold action.
    pub fn new(short: Action, long: Action) -> (b: Self)
        ensures
            b.spec_short() == short,
            b.spec_long() == long,
    {
        LongPressBinding { short, long }
    }

    /// Action fired by a normal release before the threshold.
    pub fn short(&self) -> (a: &Action)
        ensures
            *a == self.spec_short(),
    {
        &self.short
    }

    /// Action fired once when the threshold is reached.
    pub fn long(&self) -> (a: &Action)
        ensures
            *a == self.spec_long(),
    {
        &self.long
    }
}

/// The per-direction actions of a button in gesture mode: at most one action
/// for each of the five directions.
#[derive(Clone, Copy, Debug, PartialEq, Eq, Structural)]
pub struct GestureMap {
    /// Hold + swipe up.
    pub up: Option<Action>,
    /// Hold + swipe down.
    pub down: Option<Action>,
    /// Hold + swipe left.
    pub left: Option<Action>,
    /// Hold + swipe right.
    pub right: Option<Action>,
    /// Plain click.
    pub click: Option<Action>,
}

/// The action a gesture map binds to one direction, if any.
pub open spec fn gesture_entry(m: GestureMap, d: GestureDirection) -> Option<Action> {
    match d {
        GestureDirection::Up => m.up,
        GestureDirection::Down => m.down,
        GestureDirection::Left => m.left,
        GestureDirection::Right => m.right,
        GestureDirection::Click => m.click,
    }
}

impl View for GestureMap {
    type V = Map<GestureDirection, Action>;

    /// The bound directions and their actions.
    open spec fn view(&self) -> Map<GestureDirection, Action> {
        Map::new(
            |d: GestureDirection| gesture_entry(*self, d) is Some,
            |d: GestureDirection| gesture_entry(*self, d)->0,
        )
    }
}

impl GestureMap {
    /// A map with nothing bound.
    pub fn empty() -> (m: Self)
        ensures
            m@ == Map::<GestureDirection, Action>::empty(),
    {
        let m = GestureMap { up: None, down: None, left: None, right: None, click: None };
        assert(m@ =~= Map::<GestureDirection, Action>::empty());
        m
    }

    /// The action bound to `direction`, if any.
    pub fn get(&self, direction: GestureDirection) -> (a: Option<&Action>)
        ensures
            a matches Some(x) ==> self@.contains_key(direction) && *x == self@[direction],
            a is None ==> !self@.contains_key(direction),
    {
        let slot = match direction {
            GestureDirection::Up => &self.up,
            GestureDirection::Down => &self.down,
            GestureDirection::Left => &self.left,
            GestureDirection::Right => &self.right,
            GestureDirection::Click => &self.click,
        };
        match slot {
            Some(a) => Some(a),
            None => None,
        }
    }

    /// Bind `action` to `direction`, replacing what was bound there.
    pub fn insert(&mut self, direction: GestureDirection, action: Action)
        ensures
            final(self)@ == old(self)@.insert(direction, action),
    {
        match direction {
            GestureDirection::Up => self.up = Some(action),
            GestureDirection::Down => self.down = Some(action),
            GestureDirection::Left => self.left = Some(action),
            GestureDirection::Right => self.right = Some(action),
            GestureDirection::Click => self.click = Some(action),
        }
        assert(self@ =~= old(self)@.insert(direction, action));
    }
}

/// What a single rebindable button does: one immediate action, an
/// independent short/long action pair, or, for a raw-XY-capable button in
/// gesture mode, a per-direction map (hold + swipe up/down/left/right, or a
/// plain click).
#[derive(Clone, Copy, Debug, PartialEq, Eq, Structural)]
pub enum Binding {
    /// One action, fired on press.
    Single(Action),
    /// Per-direction sub-bindings for a button in gesture mode, with
    /// `Click` holding the plain-click (no-swipe) action.
    Gesture(GestureMap),
    /// Independent release-before-threshold and threshold actions.
    LongPress(LongPressBinding),
}

/// The plain-click action of a binding.
pub open spec fn spec_click_action(b: Binding) -> Action {
    match b {
        Binding::Single(a) => a,
        Binding::Gesture(m) => if m@.contains_key(GestureDirection::Click) { m@[GestureDirection::Click] } else { Action::Nothing },
        Binding::LongPress(l) => l.spec_short(),
    }
}

/// The binding a button promoted to gesture mode has.
pub open spec fn spec_upgraded(b: Binding) -> Binding {
    match b {
        Binding::Single(a) => Binding::Gesture(GestureMap { up: None, down: None, left: None, right: None, click: Some(a) }),
        Binding::LongPress(l) => Binding::Gesture(GestureMap { up: None, down: None, left: None, right: None, click: Some(l.spec_short()) }),
        Binding::Gesture(_) => b,
    }
}

/// The binding a button taken out of gesture mode has.
pub open spec fn spec_demoted(b: Binding, fallback: Action) -> Binding {
    match b {
        Binding::Gesture(m) => Binding::Single(if m@.contains_key(GestureDirection::Click) { m@[GestureDirection::Click] } else { fallback }),
        _ => b,
    }
}

impl Binding {
    /// The plain-click action: the single action, the gesture map's `Click`
    /// entry, or a long-press binding's short action; `Action::Nothing` when a
    /// gesture binding has no explicit `Click`.
    pub fn click_action(&self) -> (a: Action)
        ensures
            a == spec_click_action(*self),
    {
        match self {
            Binding::Single(action) => *action,
            Binding::Gesture(map) => match map.get(GestureDirection::Click) {
                Some(a) => *a,
                None => Action::Nothing,
            },
            Binding::LongPress(binding) => *binding.short(),
        }
    }

    /// The action bound to `direction`, if this is a gesture binding; single
    /// and long-press bindings have no directions.
    pub fn direction_action(&self, direction: GestureDirection) -> (a: Option<&Action>)
        ensures
            a matches Some(x) ==> (self matches Binding::Gesture(m) && m@.contains_key(direction) && *x == m@[direction]),
            a is None ==> !(self matches Binding::Gesture(m) && m@.contains_key(direction)),
    {
        match self {
            Binding::Single(_) => None,
            Binding::LongPress(_) => None,
            Binding::Gesture(map) => map.get(direction),
        }
    }

    /// Whether this binding drives raw-XY swipe capture.
    pub fn is_gesture(&self) -> (b: bool)
        ensures
            b == (*self is Gesture),
    {
        match self {
            Binding::Gesture(_) => true,
            _ => false,
        }
    }

    /// Promote to a gesture binding in place, keeping the single action (or a
    /// long-press binding's short action) as the `Click` entry and leaving
    /// the swipe arms unbound; the long action is discarded, as gesture and
    /// threshold modes exclude each other. A gesture binding stays as it is.
    pub fn upgrade_to_gesture(&mut self)
        ensures
            *final(self) == spec_upgraded(*old(self)),
    {
        let click = match self {
            Binding::Single(action) => *action,
            Binding::LongPress(binding) => *binding.short(),
            Binding::Gesture(_) => return,
        };
        *self = Binding::Gesture(GestureMap { up: None, down: None, left: None, right: None, click: Some(click) });
    }

    /// Demote a gesture binding in place to a single binding of its `Click`
    /// entry, or of `fallback` when it has none; single and long-press
    /// bindings stay as they are.
    pub fn demote_to_single(&mut self, fallback: Action)
        ensures
            *final(self) == spec_demoted(*old(self), fallback),
    {
        let click = match self {
            Binding::Gesture(map) => match map.get(GestureDirection::Click) {
                Some(a) => *a,
                None => fallback,
            },
            _ => return,
        };
        *self = Binding::Single(click);
    }
}

/// A gesture binding with every direction it leaves unbound taken from
/// `defaults`; any other binding unchanged.
pub open spec fn spec_filled(b: Binding, defaults: GestureMap) -> Binding {
    match b {
        Binding::Gesture(m) => Binding::Gesture(GestureMap {
            up: if m.up is Some { m.up } else { defaults.up },
            down: if m.down is Some { m.down } else { defaults.down },
            left: if m.left is Some { m.left } else { defaults.left },
            right: if m.right is Some { m.right } else { defaults.right },
            click: if m.click is Some { m.click } else { defaults.click },
        }),
        _ => b,
    }
}

impl Binding {
    /// Fill every unbound direction of a gesture binding from `defaults`
    /// (the canonical per-direction defaults), so a button promoted to the
    /// gesture role exposes the full five-direction set. A no-op on single
    /// and long-press bindings; directions already bound keep the user's
    /// choice.
    pub fn fill_gesture_defaults(&mut self, defaults: &GestureMap)
        ensures
            *final(self) == spec_filled(*old(self), *defaults),
            *old(self) matches Binding::Gesture(m) ==> (*final(self) matches Binding::Gesture(n)
                && n@ == defaults@.union_prefer_right(m@)),
    {
        if let Binding::Gesture(map) = self {
            if map.up.is_none() { map.up = defaults.up; }
            if map.down.is_none() { map.down = defaults.down; }
            if map.left.is_none() { map.left = defaults.left; }
            if map.right.is_none() { map.right = defaults.right; }
            if map.click.is_none() { map.click = defaults.click; }
        }
        proof {
            if let Binding::Gesture(m) = *old(self) {
                if let Binding::Gesture(n) = *self {
                    assert(n@ =~= defaults@.union_prefer_right(m@));
                }
            }
        }
    }
}

/// Filling twice from the same defaults is filling once: a second call
/// leaves the binding unchanged.
pub proof fn lemma_fill_is_idempotent(b: Binding, defaults: GestureMap)
    ensures
        spec_filled(spec_filled(b, defaults), defaults) == spec_filled(b, defaults),
{
}

/// Filling from a complete set of defaults leaves every direction bound,
/// and never changes a direction that was already bound.
pub proof fn lemma_filled_gesture_is_complete(b: Binding, defaults: GestureMap)
    requires
        b is Gesture,
        forall|d: GestureDirection| #[trigger] defaults@.contains_key(d),
    ensures
        spec_filled(b, defaults) matches Binding::Gesture(n) && forall|d: GestureDirection| #[trigger] n@.contains_key(d),
        forall|d: GestureDirection| #[trigger] gesture_entry(b->Gesture_0, d) is Some
            ==> gesture_entry(spec_filled(b, defaults)->Gesture_0, d) == gesture_entry(b->Gesture_0, d),
{
    assert(defaults@.contains_key(GestureDirection::Up));
    assert(defaults@.contains_key(GestureDirection::Down));
    assert(defaults@.contains_key(GestureDirection::Left));
    assert(defaults@.contains_key(GestureDirection::Right));
    assert(defaults@.contains_key(GestureDirection::Click));
}

impl From<Action> for Binding {
    fn from(action: Action) -> (b: Self) {
        Binding::Single(action)
    }
}

impl vstd::std_specs::convert::FromSpecImpl<Action> for Binding {
    open spec fn obeys_from_spec() -> bool {
        true
    }

    open spec fn from_spec(v: Action) -> Self {
        Binding::Single(v)
    }
}

/// Demoting undoes promoting: a single binding promoted to gesture mode and
/// demoted again is itself, whatever the fallback; and promoting or demoting
/// never changes the plain-click action, except that a demoted gesture
/// binding without `Click` fires the fallback.
pub proof fn lemma_upgrade_demote_round_trip(b: Binding, fallback: Action)
    ensures
        b is Single ==> spec_demoted(spec_upgraded(b), fallback) == b,
        spec_click_action(spec_upgraded(b)) == spec_click_action(b),
        spec_upgraded(spec_upgraded(b)) == spec_upgraded(b),
        !(b matches Binding::Gesture(m) && !m@.contains_key(GestureDirection::Click))
            ==> spec_click_action(spec_demoted(b, fallback)) == spec_click_action(b),
{
}

} // verus!
