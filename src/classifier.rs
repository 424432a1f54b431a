//! The gesture classifier: per-key timing state that turns presses,
//! releases and long-press timer firings into gestures.

use std::collections::BTreeMap;
use std::collections::BTreeSet;
use vstd::prelude::*;

use crate::keys::{is_pointer, spec_is_pointer, KeyCode};
use crate::proto::{Kind, ProtoGesture, TapDist};

verus! {

/// One millisecond, in the nanoseconds that time is counted in.
pub const MILLISECOND: u64 = 1_000_000;

/// Presses of one key closer than this belong to one tap burst.
pub const TAP_WINDOW: u64 = 800 * MILLISECOND;

/// Two presses at most this far apart form a combo.
pub const COMBO_WINDOW: u64 = 500 * MILLISECOND;

/// How long after a press its long-press timer fires, and how long ago
/// the last release must lie for the firing to count as a long press.
pub const LONG_PRESS: u64 = 1000 * MILLISECOND;

/// Time from `from` to `to`; zero when `to` is not later.
pub open spec fn gap(from: u64, to: u64) -> u64 {
    if from <= to {
        (to - from) as u64
    } else {
        0
    }
}

fn elapsed(from: u64, to: u64) -> (r: u64)
    ensures
        r == gap(from, to),
{
    if from <= to {
        to - from
    } else {
        0
    }
}

/// The gesture `Taps(td)` for `code`.
pub open spec fn taps_gesture(code: KeyCode, td: TapDist) -> ProtoGesture {
    ProtoGesture { kind: Kind::Taps(td), key: code }
}

/// The gesture `LongPress` for `code`.
pub open spec fn long_press_gesture(code: KeyCode) -> ProtoGesture {
    ProtoGesture { kind: Kind::LongPress, key: code }
}

/// The gesture `Combo(first, second)`, reported under the later key.
pub open spec fn combo_gesture(first: KeyCode, second: KeyCode) -> ProtoGesture {
    ProtoGesture { kind: Kind::Combo(first, second), key: second }
}

/// What the classifier knows, keyed by input code.
pub struct ClassifierState {
    /// Time of the latest press of each key.
    pub press: Map<u16, u64>,
    /// Time of the latest release of each key.
    pub release: Map<u16, u64>,
    /// Tap classification of each key; a missing key is `Initial`.
    pub taps: Map<u16, TapDist>,
    /// Keys whose long-press timer is pending; it was armed at the key's
    /// latest press.
    pub armed: Set<u16>,
    /// The latest press that may take part in a combo.
    pub last_press: Option<(KeyCode, u64)>,
    /// Whether that press has already been used up by a combo.
    pub taken: bool,
}

impl ClassifierState {
    pub open spec fn empty() -> ClassifierState {
        ClassifierState {
            press: Map::empty(),
            release: Map::empty(),
            taps: Map::empty(),
            armed: Set::empty(),
            last_press: None,
            taken: false,
        }
    }

    /// A timer is only ever armed by a press, and pointer buttons never
    /// stand as the latest combo-eligible press.
    pub open spec fn wf(self) -> bool {
        &&& self.armed.subset_of(self.press.dom())
        &&& (self.last_press matches Some((k, _)) ==> !spec_is_pointer(k))
    }

    pub open spec fn tap_of(self, k: u16) -> TapDist {
        if self.taps.contains_key(k) {
            self.taps[k]
        } else {
            TapDist::Initial
        }
    }

    /// Whether the latest combo-eligible press was of `code`.
    pub open spec fn repeats_last(self, code: KeyCode) -> bool {
        self.last_press matches Some((lk, _)) && lk == code
    }

    /// The tap reported by a press of `code` at `t`, if any: the key was
    /// pressed before, less than `TAP_WINDOW` ago, and its previous press
    /// is the latest combo-eligible one.
    pub open spec fn tap_result(self, code: KeyCode, t: u64) -> Option<TapDist> {
        let k = code.0;
        if self.press.contains_key(k) && gap(self.press[k], t) < TAP_WINDOW && self.repeats_last(
            code,
        ) {
            let d = gap(self.press[k], t);
            Some(
                match self.tap_of(k) {
                    TapDist::Initial => TapDist::First(d),
                    TapDist::Rest(_) => TapDist::First(d),
                    _ => TapDist::Repeat(d),
                },
            )
        } else {
            None
        }
    }

    /// Whether a press of `code` at `t` completes a combo with the latest
    /// combo-eligible press: `code` is no pointer button, that press is
    /// not used up, and it lies at most `COMBO_WINDOW` back.
    pub open spec fn combo_fires(self, code: KeyCode, t: u64) -> bool {
        &&& !spec_is_pointer(code)
        &&& self.last_press matches Some((_, lt))
        &&& !self.taken
        &&& gap(lt, t) <= COMBO_WINDOW
    }

    /// What a press of `code` at `t` reports: its tap, then its combo.
    pub open spec fn press_output(self, code: KeyCode, t: u64) -> Seq<ProtoGesture> {
        let tap_part = match self.tap_result(code, t) {
            Some(td) => seq![taps_gesture(code, td)],
            None => Seq::empty(),
        };
        let combo_part = if self.combo_fires(code, t) {
            seq![combo_gesture(self.last_press.unwrap().0, code)]
        } else {
            Seq::empty()
        };
        tap_part + combo_part
    }

    /// The state after a press of `code` at `t`.
    pub open spec fn after_press(self, code: KeyCode, t: u64) -> ClassifierState {
        let k = code.0;
        ClassifierState {
            press: self.press.insert(k, t),
            release: self.release,
            taps: match self.tap_result(code, t) {
                Some(_) => self.taps.insert(k, TapDist::First(gap(self.press[k], t))),
                None => if self.press.contains_key(k) {
                    self.taps.insert(k, TapDist::Rest(gap(self.press[k], t)))
                } else {
                    self.taps
                },
            },
            armed: self.armed.insert(k),
            last_press: if spec_is_pointer(code) {
                self.last_press
            } else {
                Some((code, t))
            },
            taken: if spec_is_pointer(code) {
                self.taken
            } else {
                match self.last_press {
                    Some((_, lt)) => !self.taken && gap(lt, t) <= COMBO_WINDOW,
                    None => self.taken,
                }
            },
        }
    }

    /// The state after a release of `code` at `t`.
    pub open spec fn after_release(self, code: KeyCode, t: u64) -> ClassifierState {
        ClassifierState { release: self.release.insert(code.0, t), ..self }
    }

    /// Whether the long-press timer of `code` is pending and due at `now`.
    pub open spec fn timer_due(self, code: KeyCode, now: u64) -> bool {
        self.armed.contains(code.0) && gap(self.press[code.0], now) >= LONG_PRESS
    }

    /// Whether the timer of `code`, firing at `now`, reports a long press:
    /// no release is recorded, or the latest lies more than `LONG_PRESS`
    /// back.
    pub open spec fn long_press_fires(self, code: KeyCode, now: u64) -> bool {
        &&& self.timer_due(code, now)
        &&& (!self.release.contains_key(code.0) || gap(self.release[code.0], now) > LONG_PRESS)
    }

    /// The state after the timer of `code` fires at `now`: a due timer is
    /// spent, anything else is left alone.
    pub open spec fn after_timer(self, code: KeyCode, now: u64) -> ClassifierState {
        if self.timer_due(code, now) {
            ClassifierState { armed: self.armed.remove(code.0), ..self }
        } else {
            self
        }
    }

    /// What the timer of `code`, firing at `now`, reports.
    pub open spec fn timer_output(self, code: KeyCode, now: u64) -> Option<ProtoGesture> {
        if self.long_press_fires(code, now) {
            Some(long_press_gesture(code))
        } else {
            None
        }
    }
}

/// The taps among `out`, in order.
pub open spec fn taps_in(out: Seq<ProtoGesture>) -> Seq<ProtoGesture> {
    out.filter(|g: ProtoGesture| g.kind is Taps)
}

/// Whether `out` holds no combo.
pub open spec fn no_combo(out: Seq<ProtoGesture>) -> bool {
    forall|i: int| 0 <= i < out.len() ==> !(#[trigger] out[i].kind is Combo)
}

proof fn lemma_taps_in_output(s: ClassifierState, code: KeyCode, t: u64)
    ensures
        taps_in(s.press_output(code, t)) == match s.tap_result(code, t) {
            Some(td) => seq![taps_gesture(code, td)],
            None => Seq::<ProtoGesture>::empty(),
        },
{
    let tap_part = match s.tap_result(code, t) {
        Some(td) => seq![taps_gesture(code, td)],
        None => Seq::<ProtoGesture>::empty(),
    };
    let combo_part = if s.combo_fires(code, t) {
        seq![combo_gesture(s.last_press.unwrap().0, code)]
    } else {
        Seq::<ProtoGesture>::empty()
    };
    let f = |g: ProtoGesture| g.kind is Taps;
    Seq::filter_distributes_over_add(tap_part, combo_part, f);
    reveal_with_fuel(Seq::filter, 2);
    assert(tap_part.filter(f) =~= tap_part);
    assert(combo_part.filter(f) =~= Seq::<ProtoGesture>::empty());
}

/// Two presses of one key (not a pointer button) less than `TAP_WINDOW`
/// apart, the first of which leaves the key's tap state `Initial` or
/// `Rest`: the second reports exactly one tap, `First` of their gap.
pub proof fn lemma_second_press_is_first_tap(s: ClassifierState, code: KeyCode, t1: u64, t2: u64)
    requires
        s.wf(),
        !spec_is_pointer(code),
        t1 <= t2,
        t2 - t1 < TAP_WINDOW,
        s.after_press(code, t1).tap_of(code.0) is Initial || s.after_press(code, t1).tap_of(
            code.0,
        ) is Rest,
    ensures
        taps_in(s.after_press(code, t1).press_output(code, t2)) == seq![
            taps_gesture(code, TapDist::First((t2 - t1) as u64)),
        ],
{
    lemma_taps_in_output(s.after_press(code, t1), code, t2);
}

/// A press that follows a reported tap of the same key by less than
/// `TAP_WINDOW` reports exactly one tap, `Repeat` of the gap: a burst
/// goes on with follow-up taps, not with a new first one.
pub proof fn lemma_burst_continues(s: ClassifierState, code: KeyCode, t1: u64, t2: u64)
    requires
        s.wf(),
        s.tap_result(code, t1) is Some,
        t1 <= t2,
        t2 - t1 < TAP_WINDOW,
    ensures
        taps_in(s.after_press(code, t1).press_output(code, t2)) == seq![
            taps_gesture(code, TapDist::Repeat((t2 - t1) as u64)),
        ],
{
    lemma_taps_in_output(s.after_press(code, t1), code, t2);
}

/// A press at `t`, with no release of the key at or after `t`: its timer,
/// firing once due, reports exactly one long press, and firing again
/// reports nothing.
pub proof fn lemma_held_key_long_press(
    s: ClassifierState,
    code: KeyCode,
    t: u64,
    now: u64,
    later: u64,
)
    requires
        s.wf(),
        s.release.contains_key(code.0) ==> s.release[code.0] < t,
        t <= now,
        now - t >= LONG_PRESS,
    ensures
        s.after_press(code, t).timer_output(code, now) == Some(long_press_gesture(code)),
        s.after_press(code, t).after_timer(code, now).timer_output(code, later) is None,
{
}

/// Once a timer has reported, it reports no more until the key is pressed
/// again.
pub proof fn lemma_timer_reports_once(s: ClassifierState, code: KeyCode, now: u64, later: u64)
    requires
        s.wf(),
        s.timer_output(code, now) is Some,
    ensures
        s.after_timer(code, now).timer_output(code, later) is None,
{
}

/// A press replaces the pending timer of its key: a firing less than
/// `LONG_PRESS` after the latest press reports nothing, whatever the
/// earlier presses were.
pub proof fn lemma_replaced_timer_is_silent(s: ClassifierState, code: KeyCode, t: u64, now: u64)
    requires
        s.wf(),
        gap(t, now) < LONG_PRESS,
    ensures
        s.after_press(code, t).timer_output(code, now) is None,
        s.after_press(code, t).after_timer(code, now) == s.after_press(code, t),
{
}

/// Two different keys (neither a pointer button) pressed at most
/// `COMBO_WINDOW` apart, the first press not used up by a combo: the
/// second press reports exactly `Combo(first, second)` and nothing else,
/// and is itself used up, so the next press reports no combo.
pub proof fn lemma_combo_once(
    s: ClassifierState,
    a: KeyCode,
    b: KeyCode,
    t1: u64,
    t2: u64,
    c: KeyCode,
    t3: u64,
)
    requires
        s.wf(),
        a != b,
        !spec_is_pointer(a),
        !spec_is_pointer(b),
        t1 <= t2,
        t2 - t1 <= COMBO_WINDOW,
        !s.after_press(a, t1).taken,
    ensures
        s.after_press(a, t1).press_output(b, t2) == seq![combo_gesture(a, b)],
        s.after_press(a, t1).after_press(b, t2).last_press == Some((b, t2)),
        !s.after_press(a, t1).after_press(b, t2).combo_fires(c, t3),
        no_combo(s.after_press(a, t1).after_press(b, t2).press_output(c, t3)),
{
    let s1 = s.after_press(a, t1);
    assert(s1.press_output(b, t2) =~= seq![combo_gesture(a, b)]);
}

/// A pointer button or scroll step takes no part in combos: its press
/// reports none, leaves the latest combo-eligible press and whether that
/// press is used up as they were, and so never becomes the first key of a
/// combo either.
pub proof fn lemma_pointer_takes_no_part_in_combos(s: ClassifierState, code: KeyCode, t: u64)
    requires
        s.wf(),
    ensures
        s.after_press(code, t).wf(),
        spec_is_pointer(code) ==> no_combo(s.press_output(code, t)),
        spec_is_pointer(code) ==> s.after_press(code, t).last_press == s.last_press,
        spec_is_pointer(code) ==> s.after_press(code, t).taken == s.taken,
        forall|i: int|
            0 <= i < s.press_output(code, t).len() ==> (#[trigger] s.press_output(code, t)[i].kind
                matches Kind::Combo(first, second) ==> !spec_is_pointer(first) && !spec_is_pointer(
                second,
            )),
{
}

/// The state after `ps` is pressed, one press after another.
pub open spec fn after_presses(s: ClassifierState, ps: Seq<(KeyCode, u64)>) -> ClassifierState
    decreases ps.len(),
{
    if ps.len() == 0 {
        s
    } else {
        after_presses(s, ps.drop_last()).after_press(ps.last().0, ps.last().1)
    }
}

proof fn lemma_pointer_presses_keep_combo_state(s: ClassifierState, ps: Seq<(KeyCode, u64)>)
    requires
        s.wf(),
        forall|i: int| 0 <= i < ps.len() ==> spec_is_pointer(#[trigger] ps[i].0),
    ensures
        after_presses(s, ps).wf(),
        after_presses(s, ps).last_press == s.last_press,
        after_presses(s, ps).taken == s.taken,
        forall|i: int|
            0 <= i < ps.len() ==> no_combo(
                #[trigger] after_presses(s, ps.take(i)).press_output(ps[i].0, ps[i].1),
            ),
    decreases ps.len(),
{
    if ps.len() > 0 {
        let init = ps.drop_last();
        assert forall|i: int| 0 <= i < init.len() implies spec_is_pointer(#[trigger] init[i].0) by {
            assert(init[i] == ps[i]);
        }
        lemma_pointer_presses_keep_combo_state(s, init);
        assert forall|i: int| 0 <= i < ps.len() implies no_combo(
            #[trigger] after_presses(s, ps.take(i)).press_output(ps[i].0, ps[i].1),
        ) by {
            if i < init.len() {
                assert(ps.take(i) =~= init.take(i));
                assert(init[i] == ps[i]);
            } else {
                assert(ps.take(i) =~= init);
                lemma_pointer_takes_no_part_in_combos(after_presses(s, init), ps[i].0, ps[i].1);
            }
        }
    }
}

/// A press takes part in at most one combo. Once the press of `b` has
/// completed a combo it is used up: no press after it reports a combo
/// until the next key press, pointer presses in between included, and that
/// next key press reports none either and takes its place as the latest
/// combo-eligible press.
pub proof fn lemma_press_in_one_combo_only(
    s: ClassifierState,
    b: KeyCode,
    t2: u64,
    ps: Seq<(KeyCode, u64)>,
    c: KeyCode,
    t3: u64,
)
    requires
        s.wf(),
        s.combo_fires(b, t2),
        forall|i: int| 0 <= i < ps.len() ==> spec_is_pointer(#[trigger] ps[i].0),
    ensures
        forall|i: int|
            0 <= i < ps.len() ==> no_combo(
                #[trigger] after_presses(s.after_press(b, t2), ps.take(i)).press_output(
                    ps[i].0,
                    ps[i].1,
                ),
            ),
        no_combo(after_presses(s.after_press(b, t2), ps).press_output(c, t3)),
        !spec_is_pointer(c) ==> after_presses(s.after_press(b, t2), ps).after_press(
            c,
            t3,
        ).last_press == Some((c, t3)),
{
    let s1 = s.after_press(b, t2);
    lemma_pointer_presses_keep_combo_state(s1, ps);
}

/// Per-key press, release and tap state, and the pending long-press timers.
pub struct Classifier {
    press: BTreeMap<u16, u64>,
    release: BTreeMap<u16, u64>,
    taps: BTreeMap<u16, TapDist>,
    armed: BTreeSet<u16>,
    last_press: Option<(KeyCode, u64)>,
    last_key_taken_in_combo: bool,
}

impl View for Classifier {
    type V = ClassifierState;

    closed spec fn view(&self) -> ClassifierState {
        ClassifierState {
            press: self.press@,
            release: self.release@,
            taps: self.taps@,
            armed: self.armed@,
            last_press: self.last_press,
            taken: self.last_key_taken_in_combo,
        }
    }
}

impl Classifier {
    /// A classifier that has seen nothing.
    pub fn new() -> (r: Classifier)
        ensures
            r@ == ClassifierState::empty(),
            r@.wf(),
    {
        let r = Classifier {
            press: BTreeMap::new(),
            release: BTreeMap::new(),
            taps: BTreeMap::new(),
            armed: BTreeSet::new(),
            last_press: None,
            last_key_taken_in_combo: false,
        };
        assert(r@.press =~= Map::empty());
        r
    }

    /// Handles a press of `code` at `now`: records it, arms the key's
    /// long-press timer (replacing a pending one), and returns the tap
    /// and the combo it makes, in that order.
    pub fn on_press(&mut self, code: KeyCode, now: u64) -> (r: Vec<ProtoGesture>)
        requires
            old(self)@.wf(),
        ensures
            final(self)@ == old(self)@.after_press(code, now),
            r@ == old(self)@.press_output(code, now),
            final(self)@.wf(),
    {
        let ghost s = self@;
        let k = code.0;
        let prev = self.press.insert(k, now);
        self.armed.insert(k);
        let key_tap = match self.taps.get(&k) {
            Some(t) => *t,
            None => TapDist::Initial,
        };
        let mut out: Vec<ProtoGesture> = Vec::new();
        if let Some(last) = prev {
            let dist = elapsed(last, now);
            let mut tapped = false;
            if let Some((last_key, _)) = self.last_press {
                if code == last_key && dist < TAP_WINDOW {
                    tapped = true;
                    self.taps.insert(k, TapDist::First(dist));
                    let td = match key_tap {
                        TapDist::Initial => TapDist::First(dist),
                        TapDist::Rest(_) => TapDist::First(dist),
                        _ => TapDist::Repeat(dist),
                    };
                    out.push(ProtoGesture { kind: Kind::Taps(td), key: code });
                }
            }
            if !tapped {
                self.taps.insert(k, TapDist::Rest(dist));
            }
        }
        assert(out@ =~= match s.tap_result(code, now) {
            Some(td) => seq![taps_gesture(code, td)],
            None => Seq::empty(),
        });
        if !is_pointer(code) {
            if let Some((last_key, time)) = self.last_press {
                let since = elapsed(time, now);
                if self.last_key_taken_in_combo {
                    self.last_key_taken_in_combo = false;
                } else if since <= COMBO_WINDOW {
                    self.last_key_taken_in_combo = true;
                    out.push(ProtoGesture { kind: Kind::Combo(last_key, code), key: code });
                }
            }
            self.last_press = Some((code, now));
        }
        assert(self@.taps =~= s.after_press(code, now).taps);
        assert(out@ =~= s.press_output(code, now));
        out
    }

    /// Handles a release of `code` at `now`: it is only recorded, for the
    /// key's long-press timer to consult.
    pub fn on_release(&mut self, code: KeyCode, now: u64)
        requires
            old(self)@.wf(),
        ensures
            final(self)@ == old(self)@.after_release(code, now),
            final(self)@.wf(),
    {
        self.release.insert(code.0, now);
    }

    /// Handles the long-press timer of `code` firing at `now`. A timer
    /// that is not pending, or not yet due (one that a later press
    /// replaced), does nothing.
    pub fn on_timer(&mut self, code: KeyCode, now: u64) -> (r: Option<ProtoGesture>)
        requires
            old(self)@.wf(),
        ensures
            final(self)@ == old(self)@.after_timer(code, now),
            r == old(self)@.timer_output(code, now),
            final(self)@.wf(),
    {
        let k = code.0;
        if !self.armed.contains(&k) {
            return None;
        }
        let pressed = match self.press.get(&k) {
            Some(t) => *t,
            None => return None,
        };
        if elapsed(pressed, now) < LONG_PRESS {
            return None;
        }
        self.armed.remove(&k);
        match self.release.get(&k) {
            None => Some(ProtoGesture { kind: Kind::LongPress, key: code }),
            Some(r) => {
                if elapsed(*r, now) > LONG_PRESS {
                    Some(ProtoGesture { kind: Kind::LongPress, key: code })
                } else {
                    None
                }
            },
        }
    }
}

} // verus!
