//! The key-binding table: records mapping a user-chosen key combination to
//! the system combination it stands for, with conflict-checked insertion and
//! lookup-based resolution.

use vstd::prelude::*;

use crate::geometry::Rect;
use crate::keys::KeyCode;
use crate::keys::Modifiers;
use crate::keys::convert_key_code_and_modifiers_to_string;
use crate::keys::key_label;

verus! {

/// Why a table operation failed: the user pair is already bound, or no
/// record matches it. Both are expected, non-fatal outcomes.
#[derive(Debug, Clone, Copy, PartialEq, Eq, Structural)]
pub enum BindingError {
    Conflict,
    NotBound,
}

/// One binding: a described action, the user-chosen key combination that
/// triggers it, and the system combination it resolves to. A
/// non-customizable record may leave the user pair unset (`Null` with no
/// modifiers), meaning the system default is displayed.
#[derive(Debug)]
pub struct KeyBinding {
    pub defined_action_description: String,
    pub user_key: KeyCode,
    pub user_key_modifiers: Modifiers,
    pub system_key: KeyCode,
    pub system_key_modifiers: Modifiers,
    pub is_customizable: bool,
}

impl Default for KeyBinding {
    /// An unset, non-customizable record with an empty description.
    fn default() -> (d: Self)
        ensures
            d.defined_action_description@ == Seq::<char>::empty(),
            d.user_key == KeyCode::Null,
            d.user_key_modifiers == (Modifiers { ctrl: false, alt: false, shift: false }),
            d.system_key == KeyCode::Null,
            d.system_key_modifiers == (Modifiers { ctrl: false, alt: false, shift: false }),
            !d.is_customizable,
    {
        Self {
            defined_action_description: String::new(),
            user_key: KeyCode::Null,
            user_key_modifiers: Modifiers::none(),
            system_key: KeyCode::Null,
            system_key_modifiers: Modifiers::none(),
            is_customizable: false,
        }
    }
}

/// Does record `b` carry the user pair `(k, m)`?
pub open spec fn binding_matches(b: KeyBinding, k: KeyCode, m: Modifiers) -> bool {
    b.user_key == k && b.user_key_modifiers == m
}

/// A record whose user pair is unset: `Null` with no modifiers held.
pub open spec fn user_pair_unset(b: KeyBinding) -> bool {
    binding_matches(b, KeyCode::Null, Modifiers { ctrl: false, alt: false, shift: false })
}

/// The first record of `s` carrying the user pair `(k, m)`, if any.
pub open spec fn find_binding(s: Seq<KeyBinding>, k: KeyCode, m: Modifiers) -> Option<KeyBinding>
    decreases s.len(),
{
    if s.len() == 0 {
        None
    } else if binding_matches(s[0], k, m) {
        Some(s[0])
    } else {
        find_binding(s.drop_first(), k, m)
    }
}

/// Does some record of `s` carry the user pair `(k, m)`?
pub open spec fn contains_pair(s: Seq<KeyBinding>, k: KeyCode, m: Modifiers) -> bool {
    exists|i: int| 0 <= i < s.len() && binding_matches(#[trigger] s[i], k, m)
}

/// The table's uniqueness invariant: no two records share a user pair.
pub open spec fn table_wf(s: Seq<KeyBinding>) -> bool {
    forall|i: int, j: int|
        0 <= i < j < s.len() ==> !binding_matches(
            #[trigger] s[i],
            #[trigger] s[j].user_key,
            s[j].user_key_modifiers,
        )
}

/// The positions of `s`, in order.
pub open spec fn index_seq(n: nat) -> Seq<usize> {
    Seq::new(n, |i: int| i as usize)
}

/// The presentation order of a table: non-customizable records first,
/// customizable ones after, each group keeping insertion order.
pub open spec fn display_order_spec(s: Seq<KeyBinding>) -> Seq<usize> {
    index_seq(s.len()).filter(|i: usize| !s[i as int].is_customizable) + index_seq(
        s.len(),
    ).filter(|i: usize| s[i as int].is_customizable)
}

/// If `s[i]` carries the pair and no earlier record does, the lookup finds
/// exactly `s[i]`.
proof fn lemma_find_binding_first(s: Seq<KeyBinding>, k: KeyCode, m: Modifiers, i: int)
    requires
        0 <= i < s.len(),
        binding_matches(s[i], k, m),
        forall|j: int| 0 <= j < i ==> !binding_matches(#[trigger] s[j], k, m),
    ensures
        find_binding(s, k, m) == Some(s[i]),
    decreases i,
{
    if i == 0 {
    } else {
        assert(!binding_matches(s[0], k, m));
        let t = s.drop_first();
        assert(t[i - 1] == s[i]);
        assert(forall|j: int| 0 <= j < i - 1 ==> #[trigger] t[j] == s[j + 1]);
        lemma_find_binding_first(t, k, m, i - 1);
    }
}

/// If no record carries the pair, the lookup finds nothing.
proof fn lemma_find_binding_absent(s: Seq<KeyBinding>, k: KeyCode, m: Modifiers)
    requires
        forall|j: int| 0 <= j < s.len() ==> !binding_matches(#[trigger] s[j], k, m),
    ensures
        find_binding(s, k, m) is None,
    decreases s.len(),
{
    if s.len() > 0 {
        let t = s.drop_first();
        assert(forall|j: int| 0 <= j < t.len() ==> #[trigger] t[j] == s[j + 1]);
        lemma_find_binding_absent(t, k, m);
    }
}

/// Appending to a sequence filters to the old result, plus the new element
/// when it satisfies the predicate.
proof fn lemma_filter_push<A>(s: Seq<A>, x: A, pred: spec_fn(A) -> bool)
    ensures
        s.push(x).filter(pred) == (if pred(x) {
            s.filter(pred).push(x)
        } else {
            s.filter(pred)
        }),
{
    reveal(Seq::filter);
    assert(s.push(x).drop_last() =~= s);
    assert(s.push(x).last() == x);
}

/// The process-wide key-binding table, together with the presentation state
/// of the widget that lists it: its last-rendered rectangle, a fresh
/// identifier, and the lead (selected) row.
#[derive(Debug)]
pub struct KeyBindings {
    pub records: Vec<KeyBinding>,
    pub rect: Rect,
    pub id: u128,
    pub lead_row: Option<usize>,
}

impl View for KeyBindings {
    type V = Seq<KeyBinding>;

    open spec fn view(&self) -> Seq<KeyBinding> {
        self.records@
    }
}

/// Relies on `uuid::Uuid::new_v4` (and `as_u128`): a freshly generated random
/// identifier. Nothing is promised of its value.
#[verifier::external_body]
fn fresh_table_id() -> u128 {
    uuid::Uuid::new_v4().as_u128()
}

impl KeyBindings {
    /// An empty table with no selection and an empty rectangle.
    pub fn new() -> (t: KeyBindings)
        ensures
            t@ == Seq::<KeyBinding>::empty(),
            table_wf(t@),
            t.rect == (Rect { x: 0, y: 0, width: 0, height: 0 }),
            t.lead_row is None,
    {
        let t = KeyBindings {
            records: Vec::new(),
            rect: Rect::new_empty(),
            id: fresh_table_id(),
            lead_row: None,
        };
        proof {
            assert(t@ =~= Seq::<KeyBinding>::empty());
        }
        t
    }

    /// Makes `row` the lead row of the listing.
    pub fn select(&mut self, row: usize)
        ensures
            final(self).lead_row == Some(row),
            final(self)@ == old(self)@,
            final(self).rect == old(self).rect,
            final(self).id == old(self).id,
    {
        self.lead_row = Some(row);
    }

    /// Is `row` the lead row?
    pub fn is_selected_row(&self, row: usize) -> (b: bool)
        ensures
            b == (self.lead_row == Some(row)),
    {
        match self.lead_row {
            Some(r) => r == row,
            None => false,
        }
    }

    /// Columns are never selected on their own.
    pub fn is_selected_column(&self, _column: usize) -> (b: bool)
        ensures
            !b,
    {
        false
    }

    /// Cells are never selected on their own.
    pub fn is_selected_cell(&self, _column: usize, _row: usize) -> (b: bool)
        ensures
            !b,
    {
        false
    }

    /// The lead selection as a (column, row) pair, always in column 0.
    pub fn lead_selection(&self) -> (r: Option<(usize, usize)>)
        ensures
            r == (match self.lead_row {
                Some(v) => Some((0usize, v)),
                None => None::<(usize, usize)>,
            }),
    {
        match self.lead_row {
            Some(v) => Some((0, v)),
            None => None,
        }
    }

    /// How many records the table holds.
    pub fn record_count(&self) -> (n: usize)
        ensures
            n == self@.len(),
    {
        self.records.len()
    }

    /// The record at position `i`, in insertion order.
    pub fn record_at(&self, i: usize) -> (b: &KeyBinding)
        requires
            i < self@.len(),
        ensures
            *b == self@[i as int],
    {
        &self.records[i]
    }

    /// Does some record carry the user pair `(k, m)`?
    pub fn contains_key(&self, k: KeyCode, m: Modifiers) -> (b: bool)
        ensures
            b == contains_pair(self@, k, m),
    {
        let n: usize = self.records.len();
        let mut i: usize = 0;
        while i < n
            invariant
                i <= n,
                n == self@.len(),
                forall|j: int| 0 <= j < i ==> !binding_matches(#[trigger] self@[j], k, m),
            decreases n - i,
        {
            let b = &self.records[i];
            if b.user_key == k && b.user_key_modifiers == m {
                assert(binding_matches(self@[i as int], k, m));
                return true;
            }
            i += 1;
        }
        false
    }

    /// Resolution: the system combination that the user pair `(user_key,
    /// user_key_modifiers)` is bound to, or `NotBound` when no record
    /// carries that pair.
    pub fn resolve(&self, user_key: KeyCode, user_key_modifiers: Modifiers) -> (r: Result<
        (KeyCode, Modifiers),
        BindingError,
    >)
        ensures
            r == (match find_binding(self@, user_key, user_key_modifiers) {
                Some(b) => Ok::<(KeyCode, Modifiers), BindingError>(
                    (b.system_key, b.system_key_modifiers),
                ),
                None => Err::<(KeyCode, Modifiers), BindingError>(BindingError::NotBound),
            }),
    {
        let n: usize = self.records.len();
        let mut i: usize = 0;
        while i < n
            invariant
                i <= n,
                n == self@.len(),
                forall|j: int|
                    0 <= j < i ==> !binding_matches(
                        #[trigger] self@[j],
                        user_key,
                        user_key_modifiers,
                    ),
            decreases n - i,
        {
            let b = &self.records[i];
            if b.user_key == user_key && b.user_key_modifiers == user_key_modifiers {
                proof {
                    lemma_find_binding_first(self@, user_key, user_key_modifiers, i as int);
                }
                return Ok((b.system_key, b.system_key_modifiers));
            }
            i += 1;
        }
        proof {
            lemma_find_binding_absent(self@, user_key, user_key_modifiers);
        }
        Err(BindingError::NotBound)
    }

    /// Insertion: adds `key_binding`, keyed by its user pair. Fails with
    /// `Conflict`, leaving the table untouched, when that pair is already
    /// bound; never overwrites.
    pub fn bind(&mut self, key_binding: KeyBinding) -> (r: Result<(), BindingError>)
        requires
            table_wf(old(self)@),
        ensures
            table_wf(final(self)@),
            final(self).rect == old(self).rect,
            final(self).id == old(self).id,
            final(self).lead_row == old(self).lead_row,
            contains_pair(old(self)@, key_binding.user_key, key_binding.user_key_modifiers) ==> (r
                == Err::<(), BindingError>(BindingError::Conflict) && final(self)@ == old(self)@),
            !contains_pair(old(self)@, key_binding.user_key, key_binding.user_key_modifiers) ==> (r
                == Ok::<(), BindingError>(()) && final(self)@ == old(self)@.push(key_binding)),
    {
        if self.contains_key(key_binding.user_key, key_binding.user_key_modifiers) {
            return Err(BindingError::Conflict);
        }
        let ghost old_records = self@;
        let ghost k = key_binding.user_key;
        let ghost m = key_binding.user_key_modifiers;
        self.records.push(key_binding);
        proof {
            assert forall|i: int, j: int| 0 <= i < j < self@.len() implies !binding_matches(
                self@[i],
                self@[j].user_key,
                self@[j].user_key_modifiers,
            ) by {
                if j < old_records.len() {
                } else {
                    assert(self@[j] == old_records.push(self@[j])[old_records.len() as int]);
                    assert(!binding_matches(old_records[i], k, m));
                }
            }
        }
        Ok(())
    }

    /// The order in which records are presented: non-customizable first,
    /// then customizable, each group in insertion order. Entries are
    /// positions into the table.
    pub fn display_order(&self) -> (r: Vec<usize>)
        ensures
            r@ == display_order_spec(self@),
    {
        let n: usize = self.records.len();
        let mut out: Vec<usize> = Vec::new();
        let ghost standard = |i: usize| !self@[i as int].is_customizable;
        let ghost custom = |i: usize| self@[i as int].is_customizable;
        proof {
            assert(index_seq(0) =~= Seq::<usize>::empty());
            reveal(Seq::filter);
            assert(Seq::<usize>::empty().filter(standard) == Seq::<usize>::empty());
            assert(Seq::<usize>::empty().filter(custom) == Seq::<usize>::empty());
        }
        let mut i: usize = 0;
        while i < n
            invariant
                i <= n,
                n == self@.len(),
                out@ == index_seq(i as nat).filter(standard),
                standard == (|i: usize| !self@[i as int].is_customizable),
                custom == (|i: usize| self@[i as int].is_customizable),
            decreases n - i,
        {
            let ghost prev = index_seq(i as nat);
            if !self.records[i].is_customizable {
                out.push(i);
            }
            i += 1;
            proof {
                assert(index_seq(i as nat) =~= prev.push((i - 1) as usize));
                lemma_filter_push(prev, (i - 1) as usize, standard);
            }
        }
        let ghost first_part = index_seq(n as nat).filter(standard);
        let mut j: usize = 0;
        while j < n
            invariant
                j <= n,
                n == self@.len(),
                out@ == first_part + index_seq(j as nat).filter(custom),
                first_part == index_seq(n as nat).filter(standard),
                standard == (|i: usize| !self@[i as int].is_customizable),
                custom == (|i: usize| self@[i as int].is_customizable),
            decreases n - j,
        {
            let ghost prev = index_seq(j as nat);
            if self.records[j].is_customizable {
                out.push(j);
            }
            j += 1;
            proof {
                assert(index_seq(j as nat) =~= prev.push((j - 1) as usize));
                lemma_filter_push(prev, (j - 1) as usize, custom);
                if custom((j - 1) as usize) {
                    assert(first_part + prev.filter(custom).push((j - 1) as usize) =~= (first_part
                        + prev.filter(custom)).push((j - 1) as usize));
                }
            }
        }
        proof {
            assert(index_seq(0) =~= Seq::<usize>::empty());
            assert(out@ =~= display_order_spec(self@));
        }
        out
    }

    /// The text a record's key-combination cell shows, and whether it fell
    /// back to the system combination: the user combination when one is
    /// set, else the system combination.
    pub fn display_label(b: &KeyBinding) -> (r: (String, bool))
        ensures
            r.1 == user_pair_unset(*b),
            r.1 ==> r.0@ == key_label(b.system_key, b.system_key_modifiers),
            !r.1 ==> r.0@ == key_label(b.user_key, b.user_key_modifiers),
    {
        let unset = b.user_key == KeyCode::Null && !b.user_key_modifiers.ctrl
            && !b.user_key_modifiers.alt && !b.user_key_modifiers.shift;
        if unset {
            (convert_key_code_and_modifiers_to_string(b.system_key, b.system_key_modifiers), true)
        } else {
            (convert_key_code_and_modifiers_to_string(b.user_key, b.user_key_modifiers), false)
        }
    }
}

/// The table's public face: resolution of a user combination to the system
/// combination it stands for, and conflict-checked insertion.
pub trait KeyBindingsTrait {
    /// The records the table holds, in insertion order.
    spec fn bindings_model(&self) -> Seq<KeyBinding>;

    /// Resolution: the system combination bound to the user pair, or
    /// `NotBound` when no record carries it.
    fn convert_to_system_key_binding(
        &self,
        user_key: KeyCode,
        user_key_modifiers: Modifiers,
    ) -> (r: Result<(KeyCode, Modifiers), BindingError>)
        ensures
            r == (match find_binding(self.bindings_model(), user_key, user_key_modifiers) {
                Some(b) => Ok::<(KeyCode, Modifiers), BindingError>(
                    (b.system_key, b.system_key_modifiers),
                ),
                None => Err::<(KeyCode, Modifiers), BindingError>(BindingError::NotBound),
            }),
    ;

    /// Insertion: adds the record keyed by its user pair, or fails with
    /// `Conflict`, leaving the table exactly as it was.
    fn add_custom_key_binding(&mut self, key_binding: KeyBinding) -> (r: Result<(), BindingError>)
        requires
            table_wf(old(self).bindings_model()),
        ensures
            table_wf(final(self).bindings_model()),
            contains_pair(
                old(self).bindings_model(),
                key_binding.user_key,
                key_binding.user_key_modifiers,
            ) ==> (r == Err::<(), BindingError>(BindingError::Conflict)
                && final(self).bindings_model() == old(self).bindings_model()),
            !contains_pair(
                old(self).bindings_model(),
                key_binding.user_key,
                key_binding.user_key_modifiers,
            ) ==> (r == Ok::<(), BindingError>(())
                && final(self).bindings_model() == old(self).bindings_model().push(key_binding)),
    ;
}

impl KeyBindingsTrait for KeyBindings {
    open spec fn bindings_model(&self) -> Seq<KeyBinding> {
        self@
    }

    fn convert_to_system_key_binding(
        &self,
        user_key: KeyCode,
        user_key_modifiers: Modifiers,
    ) -> (r: Result<(KeyCode, Modifiers), BindingError>) {
        self.resolve(user_key, user_key_modifiers)
    }

    fn add_custom_key_binding(&mut self, key_binding: KeyBinding) -> (r: Result<
        (),
        BindingError,
    >) {
        self.bind(key_binding)
    }
}

/// What the law of conflict-checked insertion comes to: after a successful
/// `bind` of `r`, any further record carrying the same user pair is a
/// conflict — the insertion refuses it, the table stands unchanged, and the
/// pair still resolves to `r`'s system combination.
pub proof fn lemma_bind_conflict_preserves_resolution(
    s: Seq<KeyBinding>,
    r: KeyBinding,
    r2: KeyBinding,
)
    requires
        table_wf(s),
        !contains_pair(s, r.user_key, r.user_key_modifiers),
        r2.user_key == r.user_key,
        r2.user_key_modifiers == r.user_key_modifiers,
    ensures
        table_wf(s.push(r)),
        contains_pair(s.push(r), r2.user_key, r2.user_key_modifiers),
        find_binding(s.push(r), r2.user_key, r2.user_key_modifiers) == Some(r),
{
    let t = s.push(r);
    assert(t[s.len() as int] == r);
    assert(binding_matches(t[s.len() as int], r2.user_key, r2.user_key_modifiers));
    assert forall|i: int, j: int| 0 <= i < j < t.len() implies !binding_matches(
        t[i],
        t[j].user_key,
        t[j].user_key_modifiers,
    ) by {
        if j < s.len() {
        } else {
            assert(!binding_matches(s[i], r.user_key, r.user_key_modifiers));
        }
    }
    assert(forall|j: int|
        0 <= j < s.len() ==> !binding_matches(#[trigger] t[j], r2.user_key, r2.user_key_modifiers));
    lemma_find_binding_first(t, r2.user_key, r2.user_key_modifiers, s.len() as int);
}

} // verus!
