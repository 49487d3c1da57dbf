//! The cells that hold the attributes of a cluster instance, and the write
//! that tells a change from a repetition.
use vstd::prelude::*;
use vstd::utf8::{encode_utf8, encode_utf8_decode_utf8};

use super::dataver::{Dataver, DataverView};

verus! {

/// Whether two strings hold the same characters.
pub fn str_eq(a: &str, b: &str) -> (same: bool)
    ensures
        same == (a@ == b@),
{
    let x = a.as_bytes();
    let y = b.as_bytes();
    if x.len() != y.len() {
        return false;
    }
    let mut i: usize = 0;
    while i < x.len()
        invariant
            i <= x.len(),
            x.len() == y.len(),
            x@ == encode_utf8(a@),
            y@ == encode_utf8(b@),
            forall|j: int| 0 <= j < i ==> x@[j] == y@[j],
        decreases x.len() - i,
    {
        if x[i] != y[i] {
            return false;
        }
        i += 1;
    }
    proof {
        // Equal encodings decode to equal strings.
        assert(x@ =~= y@);
        encode_utf8_decode_utf8(a@);
        encode_utf8_decode_utf8(b@);
    }
    true
}

/// A type that a cell can hold. Its deep view is the value that the data
/// model speaks of; `same` compares two values by it.
pub trait CellValue: DeepView + Copy {
    /// Whether `self` and `other` are the same value.
    fn same(&self, other: &Self) -> (same: bool)
        ensures
            same == (self.deep_view() == other.deep_view()),
    ;
}

impl CellValue for u8 {
    fn same(&self, other: &Self) -> (same: bool) {
        *self == *other
    }
}

impl CellValue for i16 {
    fn same(&self, other: &Self) -> (same: bool) {
        *self == *other
    }
}

impl<const N: usize> CellValue for [u8; N] {
    fn same(&self, other: &Self) -> (same: bool) {
        let mut i: usize = 0;
        while i < N
            invariant
                i <= N,
                forall|j: int| 0 <= j < i ==> self@[j] == other@[j],
            decreases N - i,
        {
            if self[i] != other[i] {
                assert(self.deep_view()[i as int] != other.deep_view()[i as int]);
                return false;
            }
            i += 1;
        }
        assert(self.deep_view() =~= other.deep_view());
        true
    }
}

impl<const N: usize> CellValue for [&'static str; N] {
    fn same(&self, other: &Self) -> (same: bool) {
        let mut i: usize = 0;
        while i < N
            invariant
                i <= N,
                forall|j: int| 0 <= j < i ==> self@[j]@ == other@[j]@,
            decreases N - i,
        {
            if !str_eq(self[i], other[i]) {
                assert(self.deep_view()[i as int] != other.deep_view()[i as int]);
                return false;
            }
            i += 1;
        }
        assert(self.deep_view() =~= other.deep_view());
        true
    }
}

/// The model of one cell of a cluster instance: the value that the cell
/// holds, next to the version state of the instance that owns it.
pub struct Stored<V> {
    pub value: V,
    pub data_ver: DataverView,
}

impl<V> Stored<V> {
    /// The state after `new` was written to the cell. A value that differs
    /// from the one held takes its place, advances the version by one and
    /// leaves a change pending. A value equal to the one held changes
    /// nothing.
    pub open spec fn set(self, new: V) -> Stored<V> {
        Stored { value: new, data_ver: self.data_ver.written(self.value != new) }
    }

    /// The state after the values of `values` were written to the cell, one
    /// after the other, the first of them first.
    pub open spec fn set_each(self, values: Seq<V>) -> Stored<V>
        decreases values.len(),
    {
        if values.len() == 0 {
            self
        } else {
            self.set_each(values.drop_last()).set(values.last())
        }
    }
}

/// Whether each write of `values` changes the cell: the first value differs
/// from `held`, and every other one from the value written before it.
pub open spec fn each_differs<V>(held: V, values: Seq<V>) -> bool {
    forall|i: int|
        0 <= i < values.len() ==> #[trigger] values[i] != (if i == 0 {
            held
        } else {
            values[i - 1]
        })
}

/// A write is idempotent: writing the value a second time changes nothing,
/// the version least of all.
pub proof fn lemma_set_idempotent<V>(stored: Stored<V>, value: V)
    ensures
        stored.set(value).set(value) == stored.set(value),
        stored.set(value).set(value).data_ver.version == stored.set(value).data_ver.version,
{
}

/// A write of the value that the cell holds changes nothing: neither the
/// version nor the change flag.
pub proof fn lemma_set_held_value<V>(stored: Stored<V>)
    ensures
        stored.set(stored.value) == stored,
{
}

/// The version never goes down, whatever is written.
pub proof fn lemma_version_monotonic<V>(stored: Stored<V>, values: Seq<V>)
    ensures
        stored.set_each(values).data_ver.version >= stored.data_ver.version,
    decreases values.len(),
{
    if values.len() > 0 {
        lemma_version_monotonic(stored, values.drop_last());
    }
}

/// The cell holds what was written last.
pub proof fn lemma_set_each_value<V>(stored: Stored<V>, values: Seq<V>)
    requires
        values.len() > 0,
    ensures
        stored.set_each(values).value == values.last(),
{
}

/// The version counts the writes that change the cell: after `n` writes of
/// which each differs from the value that it replaces, the version is higher
/// by exactly `n`, and a change is pending if there was a write at all.
pub proof fn lemma_version_counts_changes<V>(stored: Stored<V>, values: Seq<V>)
    requires
        each_differs(stored.value, values),
    ensures
        stored.set_each(values).data_ver.version == stored.data_ver.version + values.len(),
        values.len() > 0 ==> stored.set_each(values).data_ver.pending,
    decreases values.len(),
{
    if values.len() > 0 {
        let front = values.drop_last();
        let last = values.len() - 1;
        assert forall|i: int| 0 <= i < front.len() implies #[trigger] front[i] != (if i == 0 {
            stored.value
        } else {
            front[i - 1]
        }) by {
            assert(values[i] != (if i == 0 {
                stored.value
            } else {
                values[i - 1]
            }));
        }
        lemma_version_counts_changes(stored, front);
        assert(values[last] != (if last == 0 {
            stored.value
        } else {
            values[last - 1]
        }));
        if front.len() > 0 {
            lemma_set_each_value(stored, front);
        }
    }
}

/// So it is with `n` writes of distinct values: if no two of the values are
/// equal, and the first is not the one that the cell holds, the version is
/// higher by exactly `n` after them.
pub proof fn lemma_distinct_writes_count<V>(stored: Stored<V>, values: Seq<V>)
    requires
        values.no_duplicates(),
        values.len() > 0 ==> values[0] != stored.value,
    ensures
        stored.set_each(values).data_ver.version == stored.data_ver.version + values.len(),
{
    assert forall|i: int| 0 <= i < values.len() implies #[trigger] values[i] != (if i == 0 {
        stored.value
    } else {
        values[i - 1]
    }) by {
        if i > 0 {
            assert(values[i] != values[i - 1]);
        }
    }
    lemma_version_counts_changes(stored, values);
}

/// One attribute of a cluster instance. The instance owns its cells and its
/// version counter, and writes a cell through `set`, which keeps the two in
/// step.
#[derive(Debug)]
pub struct AttrCell<T> {
    value: T,
}

impl<T: CellValue> Clone for AttrCell<T> {
    fn clone(&self) -> (cell: Self)
        ensures
            cell@ == self@,
    {
        AttrCell { value: self.value }
    }
}

impl<T: DeepView> View for AttrCell<T> {
    type V = T::V;

    /// The value that the cell holds.
    closed spec fn view(&self) -> T::V {
        self.value.deep_view()
    }
}

impl<T: CellValue> AttrCell<T> {
    /// A cell that holds `value`.
    pub fn new(value: T) -> (cell: AttrCell<T>)
        ensures
            cell@ == value.deep_view(),
    {
        AttrCell { value }
    }

    /// The value that the cell holds.
    pub fn get(&self) -> (value: T)
        ensures
            value.deep_view() == self@,
    {
        self.value
    }

    /// Writes `new` to the cell of an instance whose version counter is
    /// `data_ver`, and tells whether that changed the cell. A value that
    /// differs from the one held takes its place, and the counter records one
    /// change. A value equal to the one held leaves the cell and the counter
    /// as they are. No rule of the attribute's domain is applied here: that
    /// is the caller's part.
    ///
    /// A write that changes the cell needs room in the counter.
    pub fn set(&mut self, data_ver: &mut Dataver, new: T) -> (changed: bool)
        requires
            old(self)@ != new.deep_view() ==> old(data_ver)@.version < u32::MAX,
        ensures
            changed == (old(self)@ != new.deep_view()),
            (Stored { value: final(self)@, data_ver: final(data_ver)@ }) == (Stored {
                value: old(self)@,
                data_ver: old(data_ver)@,
            }).set(new.deep_view()),
    {
        if !self.value.same(&new) {
            self.value = new;
            data_ver.changed();
            true
        } else {
            false
        }
    }
}

} // verus!
