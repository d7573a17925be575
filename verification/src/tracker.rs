//! Per-field ownership tracking for composite values.
//!
//! A [`Composite`] holds a row of scalar fields together with a per-field
//! ownership flag. Moving a field out transfers its content to the caller and
//! marks it moved; which fields stay accessible afterwards depends on where
//! the composite lives. An inline (stack) composite supports partial moves:
//! only the moved field becomes inaccessible. A composite behind an owning
//! heap handle does not: the first move invalidates every field at once,
//! because ownership is not tracked through an indirection.

use vstd::prelude::*;

verus! {

/// Where a composite value lives: inline in its binding's storage, or behind
/// one exclusively owning heap handle.
#[derive(Clone, Copy, Debug, PartialEq, Eq, Structural)]
pub enum StorageClass {
    Stack,
    Heap,
}

/// The one failure of the tracker: a field was read after its content, or the
/// whole value it belongs to, had been moved away.
#[derive(Clone, Copy, Debug, PartialEq, Eq, Structural)]
pub enum MoveError {
    UseAfterMove,
}

/// The mathematical model of a composite: its storage class, the original
/// content of each field, and which fields have been moved out.
#[verifier::ext_equal]
pub struct CompositeModel {
    pub storage: StorageClass,
    pub values: Seq<i64>,
    pub moved: Seq<bool>,
}

impl CompositeModel {
    /// Number of fields.
    pub open spec fn len(self) -> nat {
        self.values.len()
    }

    /// No field has been moved out yet.
    pub open spec fn no_moves(self) -> bool {
        forall|j: int| 0 <= j < self.moved.len() ==> !self.moved[j]
    }

    /// Every field has been moved out (or invalidated by a whole-value move).
    pub open spec fn all_moved(self) -> bool {
        forall|j: int| 0 <= j < self.moved.len() ==> self.moved[j]
    }

    /// Well-formedness: one flag per field, and a heap composite is either
    /// untouched or wholly invalidated, never partially moved.
    pub open spec fn wf(self) -> bool {
        &&& self.moved.len() == self.values.len()
        &&& (self.storage is Heap ==> (self.no_moves() || self.all_moved()))
    }

    /// The state after a legal move of field `i`. An inline composite records
    /// the move at field granularity; a heap composite degrades to whole-value
    /// granularity, retroactively marking every field moved.
    pub open spec fn after_move(self, i: int) -> CompositeModel {
        match self.storage {
            StorageClass::Stack => CompositeModel { moved: self.moved.update(i, true), ..self },
            StorageClass::Heap => CompositeModel {
                moved: Seq::new(self.moved.len(), |j: int| true),
                ..self
            },
        }
    }

    /// What reading field `i` through the original binding yields: its
    /// original content while the field is owned, `UseAfterMove` once it has
    /// been moved.
    pub open spec fn access(self, i: int) -> Result<i64, MoveError> {
        if self.moved[i] {
            Err(MoveError::UseAfterMove)
        } else {
            Ok(self.values[i])
        }
    }

    /// The contents released when the composite is destroyed: the fields still
    /// owned, each exactly once, in field order. Moved fields are not released
    /// here; their ownership has already been transferred.
    pub open spec fn released(self) -> Seq<i64> {
        released_up_to(self.values, self.moved, self.values.len() as int)
    }
}

/// The contents of the still-owned fields among the first `n`, in field order.
pub open spec fn released_up_to(values: Seq<i64>, moved: Seq<bool>, n: int) -> Seq<i64>
    decreases n,
{
    if n <= 0 {
        Seq::<i64>::empty()
    } else if moved[n - 1] {
        released_up_to(values, moved, n - 1)
    } else {
        released_up_to(values, moved, n - 1).push(values[n - 1])
    }
}

/// A composite value under explicit ownership tracking: a row of scalar
/// fields, each either still owned or already moved out.
pub struct Composite {
    storage: StorageClass,
    values: Vec<i64>,
    moved: Vec<bool>,
}

impl View for Composite {
    type V = CompositeModel;

    closed spec fn view(&self) -> CompositeModel {
        CompositeModel { storage: self.storage, values: self.values@, moved: self.moved@ }
    }
}

impl Composite {
    /// Builds a composite with the given storage class and field contents;
    /// every field starts owned.
    pub fn construct(storage: StorageClass, values: Vec<i64>) -> (c: Composite)
        ensures
            c@.wf(),
            c@.storage == storage,
            c@.values == values@,
            c@.no_moves(),
            c@.len() == values@.len(),
    {
        let n = values.len();
        let mut moved: Vec<bool> = Vec::new();
        let mut j: usize = 0;
        while j < n
            invariant
                j <= n,
                moved@.len() == j,
                forall|k: int| 0 <= k < j ==> !moved@[k],
            decreases n - j,
        {
            moved.push(false);
            j += 1;
        }
        Composite { storage, values, moved }
    }

    /// The number of fields.
    pub fn len(&self) -> (n: usize)
        ensures
            n == self@.len(),
    {
        self.values.len()
    }

    /// Moves the content of field `i` out to the caller. Fails with
    /// `UseAfterMove`, changing nothing, if the field is no longer owned —
    /// in particular, on a heap composite, after any earlier move. On success
    /// the field (and, for a heap composite, every field) becomes moved.
    pub fn move_field(&mut self, i: usize) -> (r: Result<i64, MoveError>)
        requires
            old(self)@.wf(),
            i < old(self)@.len(),
        ensures
            final(self)@.wf(),
            old(self)@.moved[i as int] ==> {
                &&& r == Err::<i64, MoveError>(MoveError::UseAfterMove)
                &&& final(self)@ == old(self)@
            },
            !old(self)@.moved[i as int] ==> {
                &&& r == Ok::<i64, MoveError>(old(self)@.values[i as int])
                &&& final(self)@ == old(self)@.after_move(i as int)
            },
    {
        if self.moved[i] {
            return Err(MoveError::UseAfterMove);
        }
        let v = self.values[i];
        match self.storage {
            StorageClass::Stack => {
                self.moved[i] = true;
            },
            StorageClass::Heap => {
                let n = self.moved.len();
                let mut j: usize = 0;
                while j < n
                    invariant
                        j <= n,
                        n == self.moved@.len(),
                        self.storage == old(self).storage,
                        self.values@ == old(self).values@,
                        forall|k: int| 0 <= k < j ==> self.moved@[k],
                    decreases n - j,
                {
                    self.moved[j] = true;
                    j += 1;
                }
                proof {
                    assert(self.moved@ =~= Seq::new(old(self).moved@.len(), |k: int| true));
                }
            },
        }
        proof {
            assert(self@ =~= old(self)@.after_move(i as int));
        }
        Ok(v)
    }

    /// Reads field `i` through the original binding: its content while the
    /// field is still owned, `UseAfterMove` once it has been moved.
    pub fn access_field(&self, i: usize) -> (r: Result<i64, MoveError>)
        requires
            self@.wf(),
            i < self@.len(),
        ensures
            r == self@.access(i as int),
    {
        if self.moved[i] {
            Err(MoveError::UseAfterMove)
        } else {
            Ok(self.values[i])
        }
    }

    /// Destroys the composite, releasing the content of every field still
    /// owned, each exactly once, in field order. Fields already moved are not
    /// released: their release became the receiver's responsibility.
    pub fn destroy(self) -> (released: Vec<i64>)
        requires
            self@.wf(),
        ensures
            released@ == self@.released(),
    {
        let n = self.values.len();
        let mut released: Vec<i64> = Vec::new();
        let mut j: usize = 0;
        while j < n
            invariant
                j <= n,
                n == self@.values.len(),
                self@.moved.len() == self@.values.len(),
                released@ == released_up_to(self@.values, self@.moved, j as int),
            decreases n - j,
        {
            if !self.moved[j] {
                released.push(self.values[j]);
            }
            j += 1;
        }
        released
    }
}

/// Partial moves on inline composites: after a legal move of field `a` out of
/// a stack composite, any other still-owned field `b` is still accessible and
/// yields its original content.
pub proof fn lemma_stack_partial_move(m: CompositeModel, a: int, b: int)
    requires
        m.wf(),
        m.storage is Stack,
        0 <= a < m.len(),
        0 <= b < m.len(),
        a != b,
        !m.moved[a],
        !m.moved[b],
    ensures
        m.after_move(a).access(b) == Ok::<i64, MoveError>(m.values[b]),
{
}

/// Use after move on inline composites: after a legal move of field `a` out of
/// a stack composite, reading `a` again through the original binding is
/// rejected with `UseAfterMove`.
pub proof fn lemma_stack_use_after_move(m: CompositeModel, a: int)
    requires
        m.wf(),
        m.storage is Stack,
        0 <= a < m.len(),
        !m.moved[a],
    ensures
        m.after_move(a).access(a) == Err::<i64, MoveError>(MoveError::UseAfterMove),
{
}

/// Whole-value invalidation: after the first move of any single field `a` out
/// of an untouched heap composite, reading any field `b` — the moved one or
/// any sibling — is rejected with `UseAfterMove`.
pub proof fn lemma_heap_whole_value_invalidation(m: CompositeModel, a: int, b: int)
    requires
        m.wf(),
        m.storage is Heap,
        m.no_moves(),
        0 <= a < m.len(),
        0 <= b < m.len(),
    ensures
        m.after_move(a).access(b) == Err::<i64, MoveError>(MoveError::UseAfterMove),
{
}

/// A move preserves well-formedness: in particular, a heap composite never
/// becomes partially moved.
pub proof fn lemma_move_preserves_wf(m: CompositeModel, a: int)
    requires
        m.wf(),
        0 <= a < m.len(),
        !m.moved[a],
    ensures
        m.after_move(a).wf(),
{
}

proof fn lemma_released_up_to_no_moves(values: Seq<i64>, moved: Seq<bool>, n: int)
    requires
        moved.len() == values.len(),
        0 <= n <= values.len(),
        forall|j: int| 0 <= j < n ==> !moved[j],
    ensures
        released_up_to(values, moved, n) == values.subrange(0, n),
    decreases n,
{
    if n <= 0 {
        assert(released_up_to(values, moved, n) =~= values.subrange(0, n));
    } else {
        lemma_released_up_to_no_moves(values, moved, n - 1);
        assert(released_up_to(values, moved, n) =~= values.subrange(0, n));
    }
}

/// Construction followed by destruction without any move releases every
/// field's content exactly once — in field order, nothing dropped and nothing
/// released twice.
pub proof fn lemma_fresh_destroy_releases_all(m: CompositeModel)
    requires
        m.wf(),
        m.no_moves(),
    ensures
        m.released() == m.values,
{
    lemma_released_up_to_no_moves(m.values, m.moved, m.values.len() as int);
    assert(m.values.subrange(0, m.values.len() as int) =~= m.values);
}

} // verus!
