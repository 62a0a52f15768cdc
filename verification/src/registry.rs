//! The control registry: which interactive control of the options screen
//! occupies which rectangle, rebuilt once per render pass, and hit-testing
//! against it.

use vstd::prelude::*;

use crate::geometry::Rect;
use crate::geometry::rect_contains;
use crate::geometry::rects_disjoint;

verus! {

/// The interactive controls of the options screen. Identity is stable
/// across frames; the rectangle a control occupies is not.
#[derive(Debug, Clone, Copy, PartialEq, Eq, Hash, Structural)]
pub enum OptionComponents {
    NewGame,
    KeyBindings,
    Video,
    Audio,
    Back,
}

/// The position of the first entry of `s` for control `c`, if any.
pub open spec fn control_index(s: Seq<(OptionComponents, Rect)>, c: OptionComponents) -> Option<
    int,
>
    decreases s.len(),
{
    if s.len() == 0 {
        None
    } else if s[0].0 == c {
        Some(0int)
    } else {
        match control_index(s.drop_first(), c) {
            Some(i) => Some(i + 1),
            None => None,
        }
    }
}

/// The rectangle registered for control `c`, if any.
pub open spec fn control_rect(s: Seq<(OptionComponents, Rect)>, c: OptionComponents) -> Option<
    Rect,
> {
    match control_index(s, c) {
        Some(i) => Some(s[i].1),
        None => None,
    }
}

/// The first control, in registration order, whose rectangle contains the
/// point `(px, py)`.
pub open spec fn hit_spec(s: Seq<(OptionComponents, Rect)>, px: u16, py: u16) -> Option<
    OptionComponents,
>
    decreases s.len(),
{
    if s.len() == 0 {
        None
    } else if rect_contains(s[0].1, px, py) {
        Some(s[0].0)
    } else {
        hit_spec(s.drop_first(), px, py)
    }
}

/// What registering `(c, r)` does: overwrite the entry already held for
/// `c`, or append a new one.
pub open spec fn register_spec(
    s: Seq<(OptionComponents, Rect)>,
    c: OptionComponents,
    r: Rect,
) -> Seq<(OptionComponents, Rect)> {
    match control_index(s, c) {
        Some(i) => s.update(i, (c, r)),
        None => s.push((c, r)),
    }
}

/// The registry's invariant: each control holds at most one entry.
pub open spec fn registry_wf(s: Seq<(OptionComponents, Rect)>) -> bool {
    forall|i: int, j: int| 0 <= i < j < s.len() ==> (#[trigger] s[i]).0 != (#[trigger] s[j]).0
}

/// If `s[i]` is for `c` and no earlier entry is, the first entry for `c`
/// is at `i`.
proof fn lemma_control_index_first(s: Seq<(OptionComponents, Rect)>, c: OptionComponents, i: int)
    requires
        0 <= i < s.len(),
        s[i].0 == c,
        forall|j: int| 0 <= j < i ==> (#[trigger] s[j]).0 != c,
    ensures
        control_index(s, c) == Some(i),
    decreases i,
{
    if i == 0 {
    } else {
        let t = s.drop_first();
        assert(t[i - 1] == s[i]);
        assert(forall|j: int| 0 <= j < i - 1 ==> #[trigger] t[j] == s[j + 1]);
        lemma_control_index_first(t, c, i - 1);
    }
}

/// If no entry is for `c`, there is no first entry for it.
proof fn lemma_control_index_absent(s: Seq<(OptionComponents, Rect)>, c: OptionComponents)
    requires
        forall|j: int| 0 <= j < s.len() ==> (#[trigger] s[j]).0 != c,
    ensures
        control_index(s, c) is None,
    decreases s.len(),
{
    if s.len() > 0 {
        let t = s.drop_first();
        assert(forall|j: int| 0 <= j < t.len() ==> #[trigger] t[j] == s[j + 1]);
        lemma_control_index_absent(t, c);
    }
}

/// What a found first entry means: it is for `c`, and no earlier entry is.
proof fn lemma_control_index_props(s: Seq<(OptionComponents, Rect)>, c: OptionComponents)
    ensures
        match control_index(s, c) {
            Some(i) => 0 <= i < s.len() && s[i].0 == c && (forall|j: int|
                0 <= j < i ==> (#[trigger] s[j]).0 != c),
            None => forall|j: int| 0 <= j < s.len() ==> (#[trigger] s[j]).0 != c,
        },
    decreases s.len(),
{
    if s.len() == 0 {
    } else if s[0].0 == c {
    } else {
        let t = s.drop_first();
        assert(forall|j: int| 0 <= j < t.len() ==> #[trigger] t[j] == s[j + 1]);
        lemma_control_index_props(t, c);
        match control_index(t, c) {
            Some(i) => {
                assert(control_index(s, c) == Some(i + 1));
                assert forall|j: int| 0 <= j < i + 1 implies (#[trigger] s[j]).0 != c by {
                    if j > 0 {
                        assert(t[j - 1] == s[j]);
                    }
                }
            },
            None => {
                assert forall|j: int| 0 <= j < s.len() implies (#[trigger] s[j]).0 != c by {
                    if j > 0 {
                        assert(t[j - 1] == s[j]);
                    }
                }
            },
        }
    }
}

/// If `s[i]`'s rectangle contains the point and no earlier entry's does,
/// the hit-test answers `s[i]`'s control.
proof fn lemma_hit_spec_first(s: Seq<(OptionComponents, Rect)>, px: u16, py: u16, i: int)
    requires
        0 <= i < s.len(),
        rect_contains(s[i].1, px, py),
        forall|j: int| 0 <= j < i ==> !rect_contains((#[trigger] s[j]).1, px, py),
    ensures
        hit_spec(s, px, py) == Some(s[i].0),
    decreases i,
{
    if i == 0 {
    } else {
        let t = s.drop_first();
        assert(t[i - 1] == s[i]);
        assert(forall|j: int| 0 <= j < i - 1 ==> #[trigger] t[j] == s[j + 1]);
        lemma_hit_spec_first(t, px, py, i - 1);
    }
}

/// If no entry's rectangle contains the point, the hit-test misses.
proof fn lemma_hit_spec_absent(s: Seq<(OptionComponents, Rect)>, px: u16, py: u16)
    requires
        forall|j: int| 0 <= j < s.len() ==> !rect_contains((#[trigger] s[j]).1, px, py),
    ensures
        hit_spec(s, px, py) is None,
    decreases s.len(),
{
    if s.len() > 0 {
        let t = s.drop_first();
        assert(forall|j: int| 0 <= j < t.len() ==> #[trigger] t[j] == s[j + 1]);
        lemma_hit_spec_absent(t, px, py);
    }
}

/// The options screen's registry of controls and their last-rendered
/// rectangles. Emptied at the start of each render pass and on every
/// screen change, so hit-testing never consults rectangles of controls
/// that are no longer on screen.
#[derive(Debug, Clone, PartialEq, Eq)]
pub struct RegisteredComponents {
    pub entries: Vec<(OptionComponents, Rect)>,
}

impl View for RegisteredComponents {
    type V = Seq<(OptionComponents, Rect)>;

    open spec fn view(&self) -> Seq<(OptionComponents, Rect)> {
        self.entries@
    }
}

impl RegisteredComponents {
    /// An empty registry.
    pub fn new() -> (reg: RegisteredComponents)
        ensures
            reg@ == Seq::<(OptionComponents, Rect)>::empty(),
            registry_wf(reg@),
    {
        let reg = RegisteredComponents { entries: Vec::new() };
        proof {
            assert(reg@ =~= Seq::<(OptionComponents, Rect)>::empty());
        }
        reg
    }

    /// Empties all entries.
    pub fn clear(&mut self)
        ensures
            final(self)@ == Seq::<(OptionComponents, Rect)>::empty(),
            registry_wf(final(self)@),
    {
        self.entries.clear();
        proof {
            assert(final(self)@ =~= Seq::<(OptionComponents, Rect)>::empty());
        }
    }

    /// Records the rectangle `r` for `control` for the current frame,
    /// overwriting the entry the control already had, if any.
    pub fn register(&mut self, control: OptionComponents, r: Rect)
        ensures
            final(self)@ == register_spec(old(self)@, control, r),
            registry_wf(old(self)@) ==> registry_wf(final(self)@),
            control_rect(final(self)@, control) == Some(r),
    {
        let n: usize = self.entries.len();
        let mut i: usize = 0;
        while i < n
            invariant
                i <= n,
                n == self@.len(),
                *self == *old(self),
                forall|j: int| 0 <= j < i ==> (#[trigger] self@[j]).0 != control,
            decreases n - i,
        {
            if self.entries[i].0 == control {
                proof {
                    lemma_control_index_first(self@, control, i as int);
                }
                let ghost old_s = self@;
                self.entries[i] = (control, r);
                proof {
                    assert(self@ == old_s.update(i as int, (control, r)));
                    assert forall|j: int| 0 <= j < i implies (#[trigger] self@[j]).0
                        != control by {
                        assert(self@[j] == old_s[j]);
                    }
                    lemma_control_index_first(self@, control, i as int);
                    if registry_wf(old_s) {
                        assert forall|i2: int, j2: int| 0 <= i2 < j2 < self@.len() implies (
                        #[trigger] self@[i2]).0 != (#[trigger] self@[j2]).0 by {
                            assert(old_s[i as int].0 == control);
                            assert(self@[i2].0 == old_s[i2].0);
                            assert(self@[j2].0 == old_s[j2].0);
                        }
                    }
                }
                return ;
            }
            i += 1;
        }
        proof {
            lemma_control_index_absent(self@, control);
        }
        let ghost old_entries = self@;
        self.entries.push((control, r));
        proof {
            assert(self@ == old_entries.push((control, r)));
            assert(self@[old_entries.len() as int].0 == control);
            lemma_control_index_first(self@, control, old_entries.len() as int);
            if registry_wf(old_entries) {
                assert forall|i2: int, j2: int| 0 <= i2 < j2 < self@.len() implies (
                #[trigger] self@[i2]).0 != (#[trigger] self@[j2]).0 by {
                    if j2 < old_entries.len() {
                    } else {
                        assert(self@[i2] == old_entries[i2]);
                    }
                }
            }
        }
    }

    /// The first control, in registration order, whose rectangle contains
    /// the point `(x, y)`, or none. An unregistered or stale control can
    /// never be answered: only current entries are consulted.
    pub fn hit_test(&self, x: u16, y: u16) -> (r: Option<OptionComponents>)
        ensures
            r == hit_spec(self@, x, y),
    {
        let n: usize = self.entries.len();
        let mut i: usize = 0;
        while i < n
            invariant
                i <= n,
                n == self@.len(),
                forall|j: int| 0 <= j < i ==> !rect_contains((#[trigger] self@[j]).1, x, y),
            decreases n - i,
        {
            let entry = &self.entries[i];
            if entry.1.contains(x, y) {
                proof {
                    lemma_hit_spec_first(self@, x, y, i as int);
                }
                return Some(entry.0);
            }
            i += 1;
        }
        proof {
            lemma_hit_spec_absent(self@, x, y);
        }
        None
    }

    /// Is the point `(x, y)` over the rectangle registered for
    /// `component`? A control without an entry is never hit.
    pub fn is_over(&self, component: OptionComponents, x: u16, y: u16) -> (b: bool)
        ensures
            b == (match control_rect(self@, component) {
                Some(rc) => rect_contains(rc, x, y),
                None => false,
            }),
    {
        let n: usize = self.entries.len();
        let mut i: usize = 0;
        while i < n
            invariant
                i <= n,
                n == self@.len(),
                forall|j: int| 0 <= j < i ==> (#[trigger] self@[j]).0 != component,
            decreases n - i,
        {
            let entry = &self.entries[i];
            if entry.0 == component {
                proof {
                    lemma_control_index_first(self@, component, i as int);
                }
                return entry.1.contains(x, y);
            }
            i += 1;
        }
        proof {
            lemma_control_index_absent(self@, component);
        }
        false
    }
}

/// What hit-testing comes to on a well-formed registry of non-overlapping
/// rectangles: the unique control whose rectangle contains the point, or
/// none when no rectangle does.
pub proof fn lemma_hit_test_unique(s: Seq<(OptionComponents, Rect)>, px: u16, py: u16)
    requires
        registry_wf(s),
        forall|i: int, j: int|
            0 <= i < j < s.len() ==> rects_disjoint((#[trigger] s[i]).1, (#[trigger] s[j]).1),
    ensures
        forall|i: int|
            0 <= i < s.len() && rect_contains((#[trigger] s[i]).1, px, py) ==> hit_spec(s, px, py)
                == Some(s[i].0),
        (forall|i: int| 0 <= i < s.len() ==> !rect_contains((#[trigger] s[i]).1, px, py))
            ==> hit_spec(s, px, py) is None,
{
    assert forall|i: int|
        0 <= i < s.len() && rect_contains((#[trigger] s[i]).1, px, py) implies hit_spec(s, px, py)
        == Some(s[i].0) by {
        assert forall|j: int| 0 <= j < i implies !rect_contains((#[trigger] s[j]).1, px, py) by {
            assert(rects_disjoint(s[j].1, s[i].1));
        }
        lemma_hit_spec_first(s, px, py, i);
    }
    if forall|i: int| 0 <= i < s.len() ==> !rect_contains((#[trigger] s[i]).1, px, py) {
        lemma_hit_spec_absent(s, px, py);
    }
}

/// Registering the same control with the same rectangle twice leaves the
/// registry exactly as one registration does.
pub proof fn lemma_register_idempotent(
    s: Seq<(OptionComponents, Rect)>,
    c: OptionComponents,
    r: Rect,
)
    ensures
        register_spec(register_spec(s, c, r), c, r) == register_spec(s, c, r),
{
    lemma_control_index_props(s, c);
    match control_index(s, c) {
        Some(i) => {
            let s1 = s.update(i, (c, r));
            assert(s1[i].0 == c);
            assert(forall|j: int| 0 <= j < i ==> (#[trigger] s1[j]).0 != c);
            lemma_control_index_first(s1, c, i);
            assert(s1.update(i, (c, r)) =~= s1);
        },
        None => {
            let s1 = s.push((c, r));
            lemma_control_index_first(s1, c, s.len() as int);
            assert(s1.update(s.len() as int, (c, r)) =~= s1);
        },
    }
}

} // verus!
