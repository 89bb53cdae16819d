//! Warning collection: ordered, de-duplicated warning lists and the capped
//! sink that holds the local state findings of one command.

use vstd::prelude::*;
use crate::path::{strip_path_prefix, stripped_path};

verus! {

/// A warning that can tell whether another one says the same thing.
pub trait WarningItem: View + Sized {
    fn same_as(&self, other: &Self) -> (r: bool)
        ensures
            r == (self@ == other@),
    ;
}

impl WarningItem for String {
    fn same_as(&self, other: &Self) -> (r: bool) {
        *self == *other
    }
}

/// The views of a list of warnings.
pub open spec fn views<T: View>(s: Seq<T>) -> Seq<T::V> {
    s.map_values(|w: T| w@)
}

/// Whether `warnings` already holds one saying what `warning` says.
pub fn contains_warning<T: WarningItem>(warnings: &Vec<T>, warning: &T) -> (r: bool)
    ensures
        r == views(warnings@).contains(warning@),
{
    let mut i: usize = 0;
    while i < warnings.len()
        invariant
            i <= warnings.len(),
            forall|j: int| 0 <= j < i ==> warnings@[j]@ != warning@,
        decreases warnings.len() - i,
    {
        if warnings[i].same_as(warning) {
            proof {
                assert(views(warnings@)[i as int] == warning@);
            }
            return true;
        }
        i = i + 1;
    }
    proof {
        if views(warnings@).contains(warning@) {
            let k = choose|k: int| 0 <= k < views(warnings@).len() && views(warnings@)[k] == warning@;
            assert(warnings@[k]@ == warning@);
        }
    }
    false
}

/// Append `warning` unless one saying the same is already held.
pub fn push_unique_warning<T: WarningItem>(warnings: &mut Vec<T>, warning: T)
    ensures
        views(final(warnings)@) == if views(old(warnings)@).contains(warning@) {
            views(old(warnings)@)
        } else {
            views(old(warnings)@).push(warning@)
        },
{
    if !contains_warning(warnings, &warning) {
        let ghost w = warning@;
        warnings.push(warning);
        proof {
            assert(views(final(warnings)@) =~= views(old(warnings)@).push(w));
        }
    }
}

/// Upper bound on the local state warnings held for one command.
pub const MAX_LOCAL_STATE_WARNINGS: usize = 64;

/// Which rule one recorded local state warning belongs to.
#[derive(Debug, Clone, Copy, PartialEq, Eq, Structural)]
pub enum LocalStateWarningCode {
    Permissions,
}

/// The path `p` rebuilt from the components `Path::components` splits it
/// into. Paths compare equal as `Path`s exactly when these forms are equal.
pub uninterp spec fn component_path(p: Seq<char>) -> Seq<char>;

/// Calls `Path::components` on `p` and collects the components into a
/// `PathBuf`, read back as text (a path given as text stays text). The
/// standard library documents that the components drop repeated separators,
/// `.` components other than a leading one and a trailing separator; the
/// result is named by `component_path`.
#[verifier::external_body]
fn component_form(p: &str) -> (r: String)
    ensures
        r@ == component_path(p@),
{
    std::path::Path::new(p).components().collect::<std::path::PathBuf>().to_string_lossy().into_owned()
}

/// One local state finding, kept as its parts rather than as a rendered line.
/// Two findings are the same when their codes, their paths compared as
/// paths (component by component) and their reasons are.
#[derive(Debug, Clone)]
pub struct LocalStateWarning {
    code: LocalStateWarningCode,
    path: String,
    components: String,
    reason: String,
}

impl View for LocalStateWarning {
    type V = (LocalStateWarningCode, Seq<char>, Seq<char>);

    closed spec fn view(&self) -> Self::V {
        (self.code, self.components@, self.reason@)
    }
}

impl WarningItem for LocalStateWarning {
    fn same_as(&self, other: &Self) -> (r: bool) {
        self.code == other.code && self.components == other.components && self.reason
            == other.reason
    }
}

impl LocalStateWarning {
    /// The path as it was given.
    pub closed spec fn path_view(self) -> Seq<char> {
        self.path@
    }

    pub fn new(code: LocalStateWarningCode, path: &str, reason: String) -> (w: LocalStateWarning)
        ensures
            w@ == (code, component_path(path@), reason@),
            w.path_view() == path@,
    {
        LocalStateWarning { code, path: path.to_owned(), components: component_form(path), reason }
    }

    pub fn code(&self) -> (c: LocalStateWarningCode)
        ensures
            c == self@.0,
    {
        self.code
    }

    pub fn path(&self) -> (p: &str)
        ensures
            p@ == self.path_view(),
    {
        self.path.as_str()
    }

    pub fn reason(&self) -> (r: &str)
        ensures
            r@ == self@.2,
    {
        self.reason.as_str()
    }

    /// Give up the reason, for a caller that reports the wording alone.
    pub fn into_reason(self) -> (r: String)
        ensures
            r@ == self@.2,
    {
        self.reason
    }
}

/// The warnings one take carries, and a floor on how many it could not carry.
#[derive(Debug)]
pub struct LocalStateWarningBatch {
    pub warnings: Vec<LocalStateWarning>,
    pub dropped: usize,
}

/// The reasons of the warnings `ws` recorded under `root`, in order: those
/// whose path (in its component form) has `root` as a component-wise prefix,
/// as `Path::starts_with` decides it.
pub open spec fn reasons_under(
    ws: Seq<(LocalStateWarningCode, Seq<char>, Seq<char>)>,
    root: Seq<char>,
) -> Seq<Seq<char>>
    decreases ws.len(),
{
    if ws.len() == 0 {
        Seq::empty()
    } else {
        let prev = reasons_under(ws.drop_last(), root);
        if stripped_path(ws.last().1, root) is Some {
            prev.push(ws.last().2)
        } else {
            prev
        }
    }
}

impl LocalStateWarningBatch {
    /// The reasons alone, in order, for a check on their wording.
    pub fn into_reasons(self) -> (r: Vec<String>)
        ensures
            r@.len() == self.warnings@.len(),
            forall|i: int| 0 <= i < r@.len() ==> (#[trigger] r@[i])@ == self.warnings@[i]@.2,
    {
        let mut out: Vec<String> = Vec::new();
        let mut warnings = self.warnings;
        let ghost all = warnings@;
        let n = warnings.len();
        let mut i: usize = 0;
        proof {
            assert(warnings@ =~= all.subrange(0, n as int));
        }
        while i < n
            invariant
                n == all.len(),
                i <= n,
                warnings@ == all.subrange(i as int, n as int),
                out@.len() == i,
                forall|k: int| 0 <= k < i ==> (#[trigger] out@[k])@ == all[k]@.2,
            decreases n - i,
        {
            let w = warnings.remove(0);
            proof {
                assert(w == all[i as int]);
                assert(warnings@ =~= all.subrange(i + 1, n as int));
            }
            out.push(w.into_reason());
            i = i + 1;
        }
        out
    }

    /// The reasons of the warnings recorded under `root`, in order.
    pub fn into_reasons_under(self, root: &str) -> (r: Vec<String>)
        ensures
            r@.map_values(|s: String| s@) == reasons_under(views(self.warnings@), root@),
    {
        let mut out: Vec<String> = Vec::new();
        let mut warnings = self.warnings;
        let ghost all = warnings@;
        let n = warnings.len();
        let mut i: usize = 0;
        proof {
            assert(warnings@ =~= all.subrange(0, n as int));
            assert(views(all).take(0) =~= Seq::<(LocalStateWarningCode, Seq<char>, Seq<char>)>::empty());
        }
        while i < n
            invariant
                n == all.len(),
                i <= n,
                warnings@ == all.subrange(i as int, n as int),
                out@.map_values(|s: String| s@) == reasons_under(views(all).take(i as int), root@),
            decreases n - i,
        {
            let w = warnings.remove(0);
            let ghost prev = out@;
            proof {
                assert(w == all[i as int]);
                assert(warnings@ =~= all.subrange(i + 1, n as int));
                assert(views(all).take(i + 1).drop_last() =~= views(all).take(i as int));
                assert(views(all).take(i + 1).last() == w@);
            }
            let under = strip_path_prefix(w.components.as_str(), root).is_some();
            if under {
                out.push(w.into_reason());
                proof {
                    assert(out@.map_values(|s: String| s@) =~= prev.map_values(|s: String| s@).push(
                        all[i as int]@.2,
                    ));
                }
            }
            i = i + 1;
        }
        proof {
            assert(views(all).take(n as int) =~= views(all));
        }
        out
    }
}

/// The warnings held for one command and the distinct ones it could not hold.
///
/// Turned-away warnings are kept by value so repeats stay de-duplicated; a
/// restored batch contributes only its missing-count floor.
pub struct LocalStateWarningSink {
    warnings: Vec<LocalStateWarning>,
    dropped: Vec<LocalStateWarning>,
    dropped_floor: usize,
}

/// A list of warning views holds no repeat.
pub open spec fn no_repeats<V>(s: Seq<V>) -> bool {
    forall|i: int, j: int| 0 <= i < j < s.len() ==> s[i] != s[j]
}

/// What recording `w` makes of the held and the turned-away warnings.
pub open spec fn record_step<V>(held: Seq<V>, dropped: Seq<V>, w: V) -> (Seq<V>, Seq<V>) {
    if held.len() < MAX_LOCAL_STATE_WARNINGS {
        (if held.contains(w) { held } else { held.push(w) }, dropped)
    } else if held.contains(w) || dropped.len() >= MAX_LOCAL_STATE_WARNINGS {
        (held, dropped)
    } else {
        (held, if dropped.contains(w) { dropped } else { dropped.push(w) })
    }
}

/// Recording every warning of `ws` in turn.
pub open spec fn record_all<V>(held: Seq<V>, dropped: Seq<V>, ws: Seq<V>) -> (Seq<V>, Seq<V>)
    decreases ws.len(),
{
    if ws.len() == 0 {
        (held, dropped)
    } else {
        let (h, d) = record_all(held, dropped, ws.drop_last());
        record_step(h, d, ws.last())
    }
}

impl LocalStateWarningSink {
    /// The held warnings.
    pub closed spec fn held(self) -> Seq<(LocalStateWarningCode, Seq<char>, Seq<char>)> {
        views(self.warnings@)
    }

    /// The distinct warnings the cap turned away.
    pub closed spec fn turned_away(self) -> Seq<(LocalStateWarningCode, Seq<char>, Seq<char>)> {
        views(self.dropped@)
    }

    /// The floor on turned-away warnings a restored batch contributed.
    pub closed spec fn floor(self) -> nat {
        self.dropped_floor as nat
    }

    /// The sink's invariant: both lists are within the cap and hold no repeat.
    #[verifier::type_invariant]
    pub open spec fn wf(self) -> bool {
        &&& self.held().len() <= MAX_LOCAL_STATE_WARNINGS
        &&& self.turned_away().len() <= MAX_LOCAL_STATE_WARNINGS
        &&& no_repeats(self.held())
        &&& no_repeats(self.turned_away())
    }

    pub fn new() -> (s: LocalStateWarningSink)
        ensures
            s.wf(),
            s.held() == Seq::<(LocalStateWarningCode, Seq<char>, Seq<char>)>::empty(),
            s.turned_away() == Seq::<(LocalStateWarningCode, Seq<char>, Seq<char>)>::empty(),
            s.floor() == 0,
    {
        let s = LocalStateWarningSink { warnings: Vec::new(), dropped: Vec::new(), dropped_floor: 0 };
        proof {
            assert(views(s.warnings@) =~= Seq::empty());
            assert(views(s.dropped@) =~= Seq::empty());
        }
        s
    }

    /// Record one warning, ignoring a repeat of one already held.
    pub fn record(&mut self, warning: LocalStateWarning)
        ensures
            final(self).wf(),
            (final(self).held(), final(self).turned_away()) == record_step(
                old(self).held(),
                old(self).turned_away(),
                warning@,
            ),
            final(self).floor() == old(self).floor(),
    {
        proof {
            use_type_invariant(&*self);
            lemma_record_step_keeps_invariant(self.held(), self.turned_away(), warning@);
        }
        if self.warnings.len() < MAX_LOCAL_STATE_WARNINGS {
            let mut held: Vec<LocalStateWarning> = Vec::new();
            std::mem::swap(&mut held, &mut self.warnings);
            push_unique_warning(&mut held, warning);
            self.warnings = held;
            return;
        }
        if contains_warning(&self.warnings, &warning) || self.dropped.len()
            >= MAX_LOCAL_STATE_WARNINGS {
            return;
        }
        let mut dropped: Vec<LocalStateWarning> = Vec::new();
        std::mem::swap(&mut dropped, &mut self.dropped);
        push_unique_warning(&mut dropped, warning);
        self.dropped = dropped;
    }

    /// Record every warning of `ws` in order.
    fn record_each(&mut self, ws: Vec<LocalStateWarning>)
        ensures
            final(self).wf(),
            (final(self).held(), final(self).turned_away()) == record_all(
                old(self).held(),
                old(self).turned_away(),
                views(ws@),
            ),
            final(self).floor() == old(self).floor(),
    {
        proof {
            use_type_invariant(&*self);
        }
        let ghost start_held = self.held();
        let ghost start_dropped = self.turned_away();
        let ghost all = views(ws@);
        let mut rest = ws;
        let ghost mut i: int = 0;
        proof {
            assert(all.take(0) =~= Seq::empty());
            assert(views(rest@) =~= all.skip(0));
        }
        while rest.len() > 0
            invariant
                self.wf(),
                0 <= i <= all.len(),
                views(rest@) == all.skip(i),
                self.floor() == old(self).floor(),
                (self.held(), self.turned_away()) == record_all(start_held, start_dropped, all.take(i)),
            decreases rest.len(),
        {
            let ghost before = rest@;
            proof {
                assert(views(before).len() == before.len());
                assert(views(before)[0] == before[0]@);
            }
            let w = rest.remove(0);
            proof {
                assert(i < all.len());
                assert(all.take(i + 1).drop_last() =~= all.take(i));
                assert(w@ == all[i]);
                assert(rest@.len() == before.len() - 1);
                assert forall|k: int| 0 <= k < rest@.len() implies views(rest@)[k] == all.skip(
                    i + 1,
                )[k] by {
                    assert(rest@[k] == before[k + 1]);
                    assert(views(before)[k + 1] == before[k + 1]@);
                    assert(all.skip(i)[k + 1] == all.skip(i + 1)[k]);
                }
                assert(views(rest@) =~= all.skip(i + 1));
            }
            self.record(w);
            proof {
                i = i + 1;
            }
        }
        proof {
            assert(all.take(all.len() as int) =~= all);
        }
    }

    /// Fold another sink in: its floor and its turned-away count raise this
    /// floor, and its warnings, held first, are recorded here in turn.
    pub fn merge(&mut self, other: LocalStateWarningSink)
        ensures
            final(self).wf(),
            (final(self).held(), final(self).turned_away()) == record_all(
                old(self).held(),
                old(self).turned_away(),
                other.held() + other.turned_away(),
            ),
            final(self).floor() == max3(old(self).floor(), other.floor(), other.turned_away().len()),
    {
        proof {
            use_type_invariant(&*self);
            use_type_invariant(&other);
        }
        let floor = if self.dropped_floor > other.dropped_floor {
            self.dropped_floor
        } else {
            other.dropped_floor
        };
        let floor = if floor > other.dropped.len() { floor } else { other.dropped.len() };
        self.dropped_floor = floor;
        let LocalStateWarningSink { warnings, dropped, .. } = other;
        let mut all = warnings;
        let ghost held_views = views(all@);
        let ghost dropped_views = views(dropped@);
        let mut rest = dropped;
        all.append(&mut rest);
        proof {
            assert(views(all@) =~= held_views + dropped_views);
        }
        self.record_each(all);
    }

    /// Return a taken batch: its floor is kept as a floor, its warnings are
    /// recorded again.
    pub fn restore_batch(&mut self, batch: LocalStateWarningBatch)
        ensures
            final(self).wf(),
            (final(self).held(), final(self).turned_away()) == record_all(
                old(self).held(),
                old(self).turned_away(),
                views(batch.warnings@),
            ),
            final(self).floor() == (if old(self).floor() > batch.dropped {
                old(self).floor()
            } else {
                batch.dropped as nat
            }),
    {
        proof {
            use_type_invariant(&*self);
        }
        if batch.dropped > self.dropped_floor {
            self.dropped_floor = batch.dropped;
        }
        self.record_each(batch.warnings);
    }

    /// Take what the sink holds, leaving it as a new sink: nothing held,
    /// nothing turned away, no floor.
    pub fn take(&mut self) -> (b: LocalStateWarningBatch)
        ensures
            views(b.warnings@) == old(self).held(),
            b.dropped == (if old(self).floor() > old(self).turned_away().len() {
                old(self).floor()
            } else {
                old(self).turned_away().len()
            }),
            final(self).wf(),
            final(self).held().len() == 0,
            final(self).turned_away().len() == 0,
            final(self).floor() == 0,
    {
        let mut taken = LocalStateWarningSink::new();
        std::mem::swap(self, &mut taken);
        taken.into_batch()
    }

    /// Hand the held warnings over with a floor on what is missing.
    pub fn into_batch(self) -> (b: LocalStateWarningBatch)
        ensures
            views(b.warnings@) == self.held(),
            b.dropped == (if self.floor() > self.turned_away().len() {
                self.floor()
            } else {
                self.turned_away().len()
            }),
    {
        let dropped = if self.dropped_floor > self.dropped.len() {
            self.dropped_floor
        } else {
            self.dropped.len()
        };
        proof {
            assert(self.turned_away().len() == self.dropped@.len());
        }
        LocalStateWarningBatch { warnings: self.warnings, dropped }
    }
}

/// The distinct warnings of `ws`, in the order each was first seen.
pub open spec fn first_seen<V>(ws: Seq<V>) -> Seq<V>
    decreases ws.len(),
{
    if ws.len() == 0 {
        Seq::empty()
    } else {
        let prev = first_seen(ws.drop_last());
        if prev.contains(ws.last()) {
            prev
        } else {
            prev.push(ws.last())
        }
    }
}

/// The warnings of `d` a sink keeps: the first `MAX_LOCAL_STATE_WARNINGS`.
pub open spec fn kept_part<V>(d: Seq<V>) -> Seq<V> {
    if d.len() <= MAX_LOCAL_STATE_WARNINGS {
        d
    } else {
        d.take(MAX_LOCAL_STATE_WARNINGS as int)
    }
}

/// The warnings of `d` a sink counts as turned away: those after the kept
/// ones, up to `MAX_LOCAL_STATE_WARNINGS` of them.
pub open spec fn dropped_part<V>(d: Seq<V>) -> Seq<V> {
    if d.len() <= MAX_LOCAL_STATE_WARNINGS {
        Seq::empty()
    } else if d.len() <= 2 * MAX_LOCAL_STATE_WARNINGS {
        d.subrange(MAX_LOCAL_STATE_WARNINGS as int, d.len() as int)
    } else {
        d.subrange(MAX_LOCAL_STATE_WARNINGS as int, 2 * MAX_LOCAL_STATE_WARNINGS)
    }
}

/// Recording warnings into a new sink keeps the first
/// `MAX_LOCAL_STATE_WARNINGS` distinct ones in the order they were first
/// seen, and turns away the next distinct ones, up to as many again; a
/// repeat of a warning already seen changes nothing. So one take after the
/// recording gives those kept warnings and counts the turned-away ones, and
/// the take leaves the sink new, so a second take gives nothing.
pub proof fn lemma_new_sink_keeps_first_seen<V>(ws: Seq<V>)
    ensures
        record_all(Seq::empty(), Seq::empty(), ws) == (kept_part(first_seen(ws)), dropped_part(
            first_seen(ws),
        )),
    decreases ws.len(),
{
    if ws.len() > 0 {
        let prev_ws = ws.drop_last();
        let w = ws.last();
        lemma_new_sink_keeps_first_seen(prev_ws);
        let d0 = first_seen(prev_ws);
        let held = kept_part(d0);
        let dropped = dropped_part(d0);
        let m = MAX_LOCAL_STATE_WARNINGS as int;
        assert(record_all(Seq::empty(), Seq::empty(), ws) == record_step(held, dropped, w));
        if d0.contains(w) {
            let j = choose|j: int| 0 <= j < d0.len() && d0[j] == w;
            if d0.len() < m {
                assert(held == d0);
            } else if j < m {
                assert(held[j] == w);
                assert(held.contains(w));
            } else if d0.len() < 2 * m {
                assert(dropped[j - m] == w);
                assert(dropped.contains(w));
            } else {
                assert(dropped.len() == m);
            }
        } else {
            let d = d0.push(w);
            if d0.len() < m {
                assert(held == d0);
                assert(kept_part(d) == d);
                assert(dropped_part(d) =~= Seq::<V>::empty());
            } else {
                assert(!held.contains(w)) by {
                    if held.contains(w) {
                        let j = choose|j: int| 0 <= j < held.len() && held[j] == w;
                        assert(d0[j] == w);
                    }
                }
                assert(kept_part(d) =~= held);
                if d0.len() < 2 * m {
                    assert(!dropped.contains(w)) by {
                        if dropped.contains(w) {
                            let j = choose|j: int| 0 <= j < dropped.len() && dropped[j] == w;
                            assert(d0[j + m] == w);
                        }
                    }
                    assert(dropped.push(w) =~= dropped_part(d));
                } else {
                    assert(dropped_part(d) =~= dropped);
                }
            }
        }
    }
}

/// Taking the warnings a sink holds and restoring them into an empty sink
/// gives back exactly those warnings, in order, with nothing turned away.
pub proof fn lemma_restore_gives_back_what_was_taken<V>(held: Seq<V>)
    requires
        held.len() <= MAX_LOCAL_STATE_WARNINGS,
        no_repeats(held),
    ensures
        record_all(Seq::empty(), Seq::empty(), held) == (held, Seq::<V>::empty()),
    decreases held.len(),
{
    if held.len() > 0 {
        let prev = held.drop_last();
        assert forall|i: int, j: int| 0 <= i < j < prev.len() implies prev[i] != prev[j] by {
            assert(prev[i] == held[i] && prev[j] == held[j]);
        }
        lemma_restore_gives_back_what_was_taken(prev);
        assert(!prev.contains(held.last())) by {
            if prev.contains(held.last()) {
                let k = choose|k: int| 0 <= k < prev.len() && prev[k] == held.last();
                assert(held[k] == held[held.len() - 1]);
            }
        }
        assert(prev.push(held.last()) =~= held);
    }
}

pub open spec fn max3(a: nat, b: nat, c: nat) -> nat {
    let ab = if a > b { a } else { b };
    if ab > c { ab } else { c }
}

/// Recording keeps both lists within the cap and free of repeats.
pub proof fn lemma_record_step_keeps_invariant<V>(held: Seq<V>, dropped: Seq<V>, w: V)
    requires
        held.len() <= MAX_LOCAL_STATE_WARNINGS,
        dropped.len() <= MAX_LOCAL_STATE_WARNINGS,
        no_repeats(held),
        no_repeats(dropped),
    ensures
        record_step(held, dropped, w).0.len() <= MAX_LOCAL_STATE_WARNINGS,
        record_step(held, dropped, w).1.len() <= MAX_LOCAL_STATE_WARNINGS,
        no_repeats(record_step(held, dropped, w).0),
        no_repeats(record_step(held, dropped, w).1),
{
}

/// A warning already held is never recorded twice and never counted as lost:
/// recording it again leaves the sink as it was.
pub proof fn lemma_repeat_is_not_a_loss<V>(held: Seq<V>, dropped: Seq<V>, w: V)
    requires
        held.contains(w),
    ensures
        record_step(held, dropped, w) == (held, dropped),
{
}

/// Recording never forgets: everything held or turned away before is still
/// held or turned away after, and the new warning is held whenever there was
/// room for it.
pub proof fn lemma_record_keeps_what_was_seen<V>(held: Seq<V>, dropped: Seq<V>, w: V)
    ensures
        forall|x: V| held.contains(x) ==> record_step(held, dropped, w).0.contains(x),
        forall|x: V| dropped.contains(x) ==> record_step(held, dropped, w).1.contains(x),
        held.len() < MAX_LOCAL_STATE_WARNINGS ==> record_step(held, dropped, w).0.contains(w),
{
    let (h, d) = record_step(held, dropped, w);
    assert forall|x: V| held.contains(x) implies h.contains(x) by {
        if !held.contains(w) && held.len() < MAX_LOCAL_STATE_WARNINGS {
            let k = choose|k: int| 0 <= k < held.len() && held[k] == x;
            assert(h[k] == x);
        }
    }
    assert forall|x: V| dropped.contains(x) implies d.contains(x) by {
        if held.len() >= MAX_LOCAL_STATE_WARNINGS && !held.contains(w) && dropped.len()
            < MAX_LOCAL_STATE_WARNINGS && !dropped.contains(w) {
            let k = choose|k: int| 0 <= k < dropped.len() && dropped[k] == x;
            assert(d[k] == x);
        }
    }
    if held.len() < MAX_LOCAL_STATE_WARNINGS && !held.contains(w) {
        assert(h[held.len() as int] == w);
    }
}

} // verus!
