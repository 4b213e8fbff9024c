use vstd::prelude::*;

use std::ops::Range;
use std::sync::atomic::AtomicBool;

use crate::common::check_stopped;
use crate::sparse_vector::SparseVector;
use crate::tombstones::{count_true, lemma_count_true_update, Tombstones, MAX_FLAGS};
use crate::types::{Distance, OperationError, PointOffsetType, VectorType};
use crate::vectors::{copy_dense, copy_sparse, VectorData, VectorOrSparseRef};

verus! {

/// `s` with `v` written at `key`; a `key` past the end first pads `s` with
/// `fill` up to `key`.
pub open spec fn placed<A>(s: Seq<A>, key: int, v: A, fill: A) -> Seq<A> {
    if key < s.len() {
        s.update(key, v)
    } else {
        (s + Seq::new((key - s.len()) as nat, |_i: int| fill)).push(v)
    }
}

/// `total - deleted`, or zero when `deleted` exceeds `total`.
pub open spec fn saturating_available(total: nat, deleted: nat) -> nat {
    if deleted <= total { (total - deleted) as nat } else { 0 }
}

/// The vectors that `other` stores at `ids`, in order.
pub open spec fn copied_vectors(other: &VectorStorageEnum, ids: Seq<PointOffsetType>) -> Seq<VectorData> {
    Seq::new(ids.len(), |i: int| other.stored()[ids[i] as int])
}

/// The deletion flags of `other` at `ids`, in order.
pub open spec fn copied_flags(other: &VectorStorageEnum, ids: Seq<PointOffsetType>) -> Seq<bool> {
    Seq::new(ids.len(), |i: int| ids[i] < other.flags().len() && other.flags()[ids[i] as int])
}

/// What two deletes of one offset do to the tombstone flags, as
/// `delete_vector` states them: the first delete of an offset not yet flagged
/// reports `true` (the negation of the old flag) and adds exactly one to the
/// count; a second delete finds the flag set, so it reports `false` and leaves
/// flags and count unchanged.
pub proof fn lemma_delete_idempotent(flags: Seq<bool>, key: int)
    requires
        0 <= key < flags.len(),
    ensures
        !flags[key] ==> count_true(flags.update(key, true)) == count_true(flags) + 1,
        flags.update(key, true)[key],
        flags.update(key, true).update(key, true) == flags.update(key, true),
        count_true(flags.update(key, true).update(key, true)) == count_true(flags.update(key, true)),
{
    lemma_count_true_update(flags, key, true);
    assert(flags.update(key, true).update(key, true) =~= flags.update(key, true));
}

/// Storage of the vectors of one named field, addressed by point offset.
/// Deletion only sets a tombstone flag; stored data stays in place.
pub trait VectorStorage {
    /// The storage's internal invariant.
    spec fn wf(&self) -> bool;

    /// The vectors stored, by offset, deleted ones included.
    spec fn stored(&self) -> Seq<VectorData>;

    /// The tombstone flags, by offset.
    spec fn flags(&self) -> Seq<bool>;

    spec fn dim(&self) -> nat;

    spec fn metric(&self) -> Distance;

    spec fn on_disk(&self) -> bool;

    /// Paths of the files that back the storage.
    spec fn backing_files(&self) -> Seq<Seq<char>>;

    /// The error that inserting `v` meets, or `None` when `v` fits.
    spec fn rejection(&self, v: VectorData) -> Option<OperationError>;

    /// What fills the offsets that an insert past the end skips over.
    spec fn filler(&self) -> VectorData;

    fn vector_dim(&self) -> (r: usize)
        requires
            self.wf(),
        ensures
            r == self.dim(),
    ;

    fn distance(&self) -> (r: Distance)
        ensures
            r == self.metric(),
    ;

    fn is_on_disk(&self) -> (r: bool)
        ensures
            r == self.on_disk(),
    ;

    /// The files that back the storage, for snapshot and cleanup tooling.
    fn files(&self) -> (r: Vec<String>)
        ensures
            r@.len() == self.backing_files().len(),
            forall|i: int| 0 <= i < r@.len() ==> (#[trigger] r@[i])@ == self.backing_files()[i],
    ;

    /// Number of vectors, soft-deleted ones included.
    fn total_vector_count(&self) -> (r: usize)
        requires
            self.wf(),
        ensures
            r == self.stored().len(),
    ;

    /// Number of vectors not deleted; never underflows.
    fn available_vector_count(&self) -> (r: usize)
        requires
            self.wf(),
        ensures
            r == saturating_available(self.stored().len(), count_true(self.flags())),
    {
        let total = self.total_vector_count();
        let deleted = self.deleted_vector_count();
        if deleted <= total {
            total - deleted
        } else {
            0
        }
    }

    fn get_vector(&self, key: PointOffsetType) -> (r: VectorOrSparseRef<'_>)
        requires
            self.wf(),
            key < self.stored().len(),
        ensures
            r@ == self.stored()[key as int],
    ;

    /// Writes `vector` at `key` and clears its tombstone, padding with the
    /// filler when `key` lies past the end; a vector of the wrong kind or
    /// length is refused and nothing changes.
    fn insert_vector(&mut self, key: PointOffsetType, vector: VectorOrSparseRef) -> (r: Result<(), OperationError>)
        requires
            old(self).wf(),
            key < MAX_FLAGS,
        ensures
            final(self).wf(),
            final(self).dim() == old(self).dim(),
            final(self).metric() == old(self).metric(),
            match old(self).rejection(vector@) {
                Some(e) => {
                    &&& r == Err::<(), OperationError>(e)
                    &&& final(self).stored() == old(self).stored()
                    &&& final(self).flags() == old(self).flags()
                },
                None => {
                    &&& r is Ok
                    &&& final(self).stored() == placed(old(self).stored(), key as int, vector@, old(self).filler())
                    &&& final(self).flags() == placed(old(self).flags(), key as int, false, false)
                },
            },
    ;

    /// Flags the vector at `key` as deleted; `Ok(true)` when it was not
    /// flagged before.
    fn delete_vector(&mut self, key: PointOffsetType) -> (r: Result<bool, OperationError>)
        requires
            old(self).wf(),
            key < old(self).stored().len(),
        ensures
            final(self).wf(),
            final(self).dim() == old(self).dim(),
            final(self).metric() == old(self).metric(),
            old(self).flags().len() == old(self).stored().len(),
            r == Ok::<bool, OperationError>(!old(self).flags()[key as int]),
            final(self).stored() == old(self).stored(),
            final(self).flags() == old(self).flags().update(key as int, true),
            count_true(final(self).flags()) == count_true(old(self).flags()) + if old(self).flags()[key as int] {
                0nat
            } else {
                1nat
            },
    ;

    /// Whether the vector at `key` is flagged as deleted; an offset past the
    /// end of the flags reads as not deleted.
    fn is_deleted_vector(&self, key: PointOffsetType) -> (r: bool)
        requires
            self.wf(),
        ensures
            self.flags().len() == self.stored().len(),
            r == (key < self.flags().len() && self.flags()[key as int]),
    ;

    /// Number of vectors flagged as deleted.
    fn deleted_vector_count(&self) -> (r: usize)
        requires
            self.wf(),
        ensures
            r == count_true(self.flags()),
    ;

    /// The tombstone flags themselves.
    fn deleted_vector_bitslice(&self) -> (r: &Tombstones)
        requires
            self.wf(),
        ensures
            r@ == self.flags(),
    ;
}

/// A dense vector of `dim` zero bits.
fn zeros(dim: usize) -> (r: VectorType)
    ensures
        r@ == Seq::new(dim as nat, |_i: int| 0u32),
{
    let mut out: VectorType = Vec::new();
    let mut i: usize = 0;
    while i < dim
        invariant
            0 <= i <= dim,
            out@ == Seq::new(i as nat, |_i: int| 0u32),
        decreases dim - i,
    {
        out.push(0);
        i += 1;
    }
    out
}

/// Dense vectors of one fixed dimensionality, held in memory.
pub struct SimpleVectorStorage {
    pub dim: usize,
    pub distance: Distance,
    pub vectors: Vec<VectorType>,
    pub deleted: Tombstones,
}

impl SimpleVectorStorage {
    /// An empty storage for vectors of `dim` elements compared by `distance`.
    pub fn new(dim: usize, distance: Distance) -> (r: Self)
        ensures
            r.wf(),
            r.stored() == Seq::<VectorData>::empty(),
            r.flags() == Seq::<bool>::empty(),
            r.dim() == dim,
            r.metric() == distance,
    {
        let r = SimpleVectorStorage { dim, distance, vectors: Vec::new(), deleted: Tombstones::new(0) };
        assert(r.stored() =~= Seq::<VectorData>::empty());
        assert(r.flags() =~= Seq::<bool>::empty());
        r
    }

    /// Appends one vector with the given deletion flag.
    fn push_vector(&mut self, vector: VectorOrSparseRef, deleted: bool) -> (r: Result<(), OperationError>)
        requires
            old(self).wf(),
            old(self).stored().len() < MAX_FLAGS,
        ensures
            final(self).wf(),
            final(self).dim == old(self).dim,
            final(self).distance == old(self).distance,
            final(self).dim() == old(self).dim(),
            match old(self).rejection(vector@) {
                Some(e) => {
                    &&& r == Err::<(), OperationError>(e)
                    &&& final(self).stored() == old(self).stored()
                    &&& final(self).flags() == old(self).flags()
                },
                None => {
                    &&& r is Ok
                    &&& final(self).stored() == old(self).stored().push(vector@)
                    &&& final(self).flags() == old(self).flags().push(deleted)
                },
            },
    {
        let d = match vector.try_as_dense() {
            Ok(d) => d,
            Err(e) => {
                return Err(e);
            },
        };
        if d.len() != self.dim {
            return Err(OperationError::WrongVector { expected_dim: self.dim, received_dim: d.len() });
        }
        self.vectors.push(copy_dense(d));
        self.deleted.push(deleted);
        assert(self.stored() =~= old(self).stored().push(vector@));
        Ok(())
    }

    /// `Ok` when `vector` may be stored here, else the error it meets.
    fn fits(&self, vector: VectorOrSparseRef) -> (r: Result<(), OperationError>)
        ensures
            match self.rejection(vector@) {
                Some(e) => r == Err::<(), OperationError>(e),
                None => r is Ok,
            },
    {
        match vector {
            VectorOrSparseRef::Vector(d) => if d.len() == self.dim {
                Ok(())
            } else {
                Err(OperationError::WrongVector { expected_dim: self.dim, received_dim: d.len() })
            },
            VectorOrSparseRef::Sparse(_) => Err(OperationError::WrongSparse),
        }
    }

    /// Overwrites the vector at `k`.
    fn set_vector(&mut self, k: usize, vector: VectorOrSparseRef)
        requires
            old(self).wf(),
            k < old(self).stored().len(),
            old(self).rejection(vector@) is None,
        ensures
            final(self).wf(),
            final(self).dim == old(self).dim,
            final(self).distance == old(self).distance,
            final(self).stored() == old(self).stored().update(k as int, vector@),
            final(self).flags() == old(self).flags(),
    {
        if let VectorOrSparseRef::Vector(d) = vector {
            self.vectors.set(k, copy_dense(d));
        }
        assert(self.stored() =~= old(self).stored().update(k as int, vector@));
    }

    /// Appends the filler vector, not flagged.
    fn push_filler(&mut self)
        requires
            old(self).wf(),
            old(self).stored().len() < MAX_FLAGS,
        ensures
            final(self).wf(),
            final(self).dim == old(self).dim,
            final(self).distance == old(self).distance,
            final(self).dim() == old(self).dim(),
            final(self).filler() == old(self).filler(),
            final(self).stored() == old(self).stored().push(old(self).filler()),
            final(self).flags() == old(self).flags().push(false),
    {
        self.vectors.push(zeros(self.dim));
        self.deleted.push(false);
        assert(self.stored() =~= old(self).stored().push(old(self).filler()));
    }

    /// Appends the vectors of `other` at `other_ids`, with their deletion
    /// flags, and returns the offsets they were given. The stop flag is read
    /// before each vector; once it is seen set, the copy ends with `Cancelled`
    /// and what was appended so far stays.
    pub fn update_from(
        &mut self,
        other: &VectorStorageEnum,
        other_ids: &Vec<PointOffsetType>,
        stopped: &AtomicBool,
    ) -> (r: Result<Range<PointOffsetType>, OperationError>)
        requires
            old(self).wf(),
            other.wf(),
            forall|i: int| 0 <= i < other_ids@.len() ==> other_ids@[i] < other.stored().len(),
            old(self).stored().len() + other_ids@.len() <= MAX_FLAGS,
        ensures
            final(self).wf(),
            final(self).dim() == old(self).dim(),
            final(self).metric() == old(self).metric(),
            other_ids@.len() == 0 ==> (r matches Ok(range) && range.start == old(self).stored().len()
                && range.end == range.start),
            match r {
                Ok(range) => {
                    &&& range.start == old(self).stored().len()
                    &&& range.end == final(self).stored().len()
                    &&& final(self).stored() == old(self).stored() + copied_vectors(other, other_ids@)
                    &&& final(self).flags() == old(self).flags() + copied_flags(other, other_ids@)
                },
                Err(e) => {
                    &&& exists|k: int|
                        0 <= k < other_ids@.len() && final(self).stored() == old(self).stored()
                            + copied_vectors(other, other_ids@.take(k)) && final(self).flags() == old(
                            self,
                        ).flags() + copied_flags(other, other_ids@.take(k))
                    &&& (e is Cancelled || exists|i: int|
                        0 <= i < other_ids@.len()
                            && old(self).rejection(other.stored()[other_ids@[i] as int]) == Some(e))
                },
            },
{
        let start = self.vectors.len();
        let mut i: usize = 0;
        while i < other_ids.len()
            invariant
                self.wf(),
                other.wf(),
                self.dim == old(self).dim,
                self.distance == old(self).distance,
                0 <= i <= other_ids@.len(),
                start == old(self).stored().len(),
                forall|j: int| 0 <= j < other_ids@.len() ==> other_ids@[j] < other.stored().len(),
                old(self).stored().len() + other_ids@.len() <= MAX_FLAGS,
                self.stored() == old(self).stored() + copied_vectors(other, other_ids@.take(i as int)),
                self.flags() == old(self).flags() + copied_flags(other, other_ids@.take(i as int)),
            decreases other_ids@.len() - i,
        {
            assert(self.stored().subrange(0, start as int) =~= old(self).stored());
            match check_stopped(stopped) {
                Ok(()) => {},
                Err(e) => {
                    return Err(e);
                },
            }
            let id = other_ids[i];
            let vector = other.get_vector(id);
            let deleted = other.is_deleted_vector(id);
            match self.push_vector(vector, deleted) {
                Ok(()) => {},
                Err(e) => {
                    return Err(e);
                },
            }
            assert(copied_vectors(other, other_ids@.take(i + 1)) =~= copied_vectors(other, other_ids@.take(i as int)).push(vector@));
            assert(copied_flags(other, other_ids@.take(i + 1)) =~= copied_flags(other, other_ids@.take(i as int)).push(deleted));
            assert(self.stored() =~= old(self).stored() + copied_vectors(other, other_ids@.take(i + 1)));
            assert(self.flags() =~= old(self).flags() + copied_flags(other, other_ids@.take(i + 1)));
            i += 1;
        }
        assert(other_ids@.take(other_ids@.len() as int) =~= other_ids@);
        let end = self.vectors.len();
        Ok(Range { start: start as PointOffsetType, end: end as PointOffsetType })
    }
}

impl VectorStorage for SimpleVectorStorage {
    open spec fn wf(&self) -> bool {
        &&& self.vectors@.len() == self.deleted@.len()
        &&& self.deleted@.len() <= MAX_FLAGS
        &&& forall|i: int| 0 <= i < self.vectors@.len() ==> (#[trigger] self.vectors@[i])@.len() == self.dim
    }

    open spec fn stored(&self) -> Seq<VectorData> {
        self.vectors@.map_values(|v: VectorType| VectorData::Dense(v@))
    }

    open spec fn flags(&self) -> Seq<bool> {
        self.deleted@
    }

    open spec fn dim(&self) -> nat {
        self.dim as nat
    }

    open spec fn metric(&self) -> Distance {
        self.distance
    }

    open spec fn on_disk(&self) -> bool {
        false
    }

    open spec fn backing_files(&self) -> Seq<Seq<char>> {
        Seq::empty()
    }

    open spec fn rejection(&self, v: VectorData) -> Option<OperationError> {
        match v {
            VectorData::Dense(d) => if d.len() == self.dim {
                None
            } else {
                Some(OperationError::WrongVector { expected_dim: self.dim, received_dim: d.len() as usize })
            },
            VectorData::Sparse(_, _) => Some(OperationError::WrongSparse),
        }
    }

    open spec fn filler(&self) -> VectorData {
        VectorData::Dense(Seq::new(self.dim as nat, |_i: int| 0u32))
    }

    fn vector_dim(&self) -> (r: usize) {
        self.dim
    }

    fn distance(&self) -> (r: Distance) {
        self.distance
    }

    fn is_on_disk(&self) -> (r: bool) {
        false
    }

    fn files(&self) -> (r: Vec<String>) {
        Vec::new()
    }

    fn total_vector_count(&self) -> (r: usize) {
        self.vectors.len()
    }

    fn get_vector(&self, key: PointOffsetType) -> (r: VectorOrSparseRef<'_>) {
        VectorOrSparseRef::Vector(self.vectors[key as usize].as_slice())
    }

    fn insert_vector(&mut self, key: PointOffsetType, vector: VectorOrSparseRef) -> (r: Result<(), OperationError>) {
        match self.fits(vector) {
            Ok(()) => {},
            Err(e) => {
                return Err(e);
            },
        }
        let k = key as usize;
        if k < self.vectors.len() {
            self.set_vector(k, vector);
            let _ = self.deleted.set(k, false);
            assert(self.stored() =~= placed(old(self).stored(), key as int, vector@, old(self).filler()));
            assert(self.flags() =~= placed(old(self).flags(), key as int, false, false));
            Ok(())
        } else {
            let ghost n0 = old(self).stored().len();
            while self.vectors.len() < k
                invariant
                    self.wf(),
                    self.dim == old(self).dim,
                    self.distance == old(self).distance,
                    n0 <= self.stored().len() <= k,
                    k < MAX_FLAGS,
                    self.rejection(vector@) is None,
                    self.stored() == old(self).stored() + Seq::new((self.stored().len() - n0) as nat, |_i: int| old(self).filler()),
                    self.flags() == old(self).flags() + Seq::new((self.stored().len() - n0) as nat, |_i: int| false),
                decreases k - self.vectors@.len(),
            {
                self.push_filler();
                assert(self.stored() =~= old(self).stored() + Seq::new((self.stored().len() - n0) as nat, |_i: int| old(self).filler()));
                assert(self.flags() =~= old(self).flags() + Seq::new((self.stored().len() - n0) as nat, |_i: int| false));
            }
            let r = self.push_vector(vector, false);
            assert(self.stored() =~= placed(old(self).stored(), key as int, vector@, old(self).filler()));
            assert(self.flags() =~= placed(old(self).flags(), key as int, false, false));
            r
        }
    }

    fn delete_vector(&mut self, key: PointOffsetType) -> (r: Result<bool, OperationError>) {
        proof {
            lemma_count_true_update(self.deleted@, key as int, true);
        }
        let was_deleted = self.deleted.set(key as usize, true);
        Ok(!was_deleted)
    }

    fn is_deleted_vector(&self, key: PointOffsetType) -> (r: bool) {
        self.deleted.is_set(key as usize)
    }

    fn deleted_vector_count(&self) -> (r: usize) {
        self.deleted.count()
    }

    fn deleted_vector_bitslice(&self) -> (r: &Tombstones) {
        &self.deleted
    }
}

/// Sparse vectors, held in memory.
pub struct SparseVectorStorage {
    pub dim: usize,
    pub distance: Distance,
    pub vectors: Vec<SparseVector>,
    pub deleted: Tombstones,
}

impl SparseVectorStorage {
    /// An empty storage for sparse vectors compared by `distance`.
    pub fn new(distance: Distance) -> (r: Self)
        ensures
            r.wf(),
            r.stored() == Seq::<VectorData>::empty(),
            r.flags() == Seq::<bool>::empty(),
            r.metric() == distance,
    {
        let r = SparseVectorStorage { dim: 0, distance, vectors: Vec::new(), deleted: Tombstones::new(0) };
        assert(r.stored() =~= Seq::<VectorData>::empty());
        assert(r.flags() =~= Seq::<bool>::empty());
        r
    }

    /// Appends one vector with the given deletion flag.
    fn push_vector(&mut self, vector: VectorOrSparseRef, deleted: bool) -> (r: Result<(), OperationError>)
        requires
            old(self).wf(),
            old(self).stored().len() < MAX_FLAGS,
        ensures
            final(self).wf(),
            final(self).dim == old(self).dim,
            final(self).distance == old(self).distance,
            final(self).dim() == old(self).dim(),
            match old(self).rejection(vector@) {
                Some(e) => {
                    &&& r == Err::<(), OperationError>(e)
                    &&& final(self).stored() == old(self).stored()
                    &&& final(self).flags() == old(self).flags()
                },
                None => {
                    &&& r is Ok
                    &&& final(self).stored() == old(self).stored().push(vector@)
                    &&& final(self).flags() == old(self).flags().push(deleted)
                },
            },
    {
        let v = match vector.try_as_sparse() {
            Ok(v) => v,
            Err(e) => {
                return Err(e);
            },
        };
        self.vectors.push(copy_sparse(v));
        self.deleted.push(deleted);
        assert(self.stored() =~= old(self).stored().push(vector@));
        Ok(())
    }

    /// `Ok` when `vector` may be stored here, else the error it meets.
    fn fits(&self, vector: VectorOrSparseRef) -> (r: Result<(), OperationError>)
        ensures
            match self.rejection(vector@) {
                Some(e) => r == Err::<(), OperationError>(e),
                None => r is Ok,
            },
    {
        match vector {
            VectorOrSparseRef::Vector(_) => Err(OperationError::WrongSparse),
            VectorOrSparseRef::Sparse(_) => Ok(()),
        }
    }

    /// Overwrites the vector at `k`.
    fn set_vector(&mut self, k: usize, vector: VectorOrSparseRef)
        requires
            old(self).wf(),
            k < old(self).stored().len(),
            old(self).rejection(vector@) is None,
        ensures
            final(self).wf(),
            final(self).dim == old(self).dim,
            final(self).distance == old(self).distance,
            final(self).stored() == old(self).stored().update(k as int, vector@),
            final(self).flags() == old(self).flags(),
    {
        if let VectorOrSparseRef::Sparse(v) = vector {
            self.vectors.set(k, copy_sparse(v));
        }
        assert(self.stored() =~= old(self).stored().update(k as int, vector@));
    }

    /// Appends the filler vector, not flagged.
    fn push_filler(&mut self)
        requires
            old(self).wf(),
            old(self).stored().len() < MAX_FLAGS,
        ensures
            final(self).wf(),
            final(self).dim == old(self).dim,
            final(self).distance == old(self).distance,
            final(self).dim() == old(self).dim(),
            final(self).filler() == old(self).filler(),
            final(self).stored() == old(self).stored().push(old(self).filler()),
            final(self).flags() == old(self).flags().push(false),
    {
        self.vectors.push(SparseVector::new(Vec::new(), Vec::new()));
        self.deleted.push(false);
        assert(self.stored() =~= old(self).stored().push(old(self).filler()));
    }

    /// Appends the vectors of `other` at `other_ids`, with their deletion
    /// flags, and returns the offsets they were given. The stop flag is read
    /// before each vector; once it is seen set, the copy ends with `Cancelled`
    /// and what was appended so far stays.
    pub fn update_from(
        &mut self,
        other: &VectorStorageEnum,
        other_ids: &Vec<PointOffsetType>,
        stopped: &AtomicBool,
    ) -> (r: Result<Range<PointOffsetType>, OperationError>)
        requires
            old(self).wf(),
            other.wf(),
            forall|i: int| 0 <= i < other_ids@.len() ==> other_ids@[i] < other.stored().len(),
            old(self).stored().len() + other_ids@.len() <= MAX_FLAGS,
        ensures
            final(self).wf(),
            final(self).dim() == old(self).dim(),
            final(self).metric() == old(self).metric(),
            other_ids@.len() == 0 ==> (r matches Ok(range) && range.start == old(self).stored().len()
                && range.end == range.start),
            match r {
                Ok(range) => {
                    &&& range.start == old(self).stored().len()
                    &&& range.end == final(self).stored().len()
                    &&& final(self).stored() == old(self).stored() + copied_vectors(other, other_ids@)
                    &&& final(self).flags() == old(self).flags() + copied_flags(other, other_ids@)
                },
                Err(e) => {
                    &&& exists|k: int|
                        0 <= k < other_ids@.len() && final(self).stored() == old(self).stored()
                            + copied_vectors(other, other_ids@.take(k)) && final(self).flags() == old(
                            self,
                        ).flags() + copied_flags(other, other_ids@.take(k))
                    &&& (e is Cancelled || exists|i: int|
                        0 <= i < other_ids@.len()
                            && old(self).rejection(other.stored()[other_ids@[i] as int]) == Some(e))
                },
            },
{
        let start = self.vectors.len();
        let mut i: usize = 0;
        while i < other_ids.len()
            invariant
                self.wf(),
                other.wf(),
                self.dim == old(self).dim,
                self.distance == old(self).distance,
                0 <= i <= other_ids@.len(),
                start == old(self).stored().len(),
                forall|j: int| 0 <= j < other_ids@.len() ==> other_ids@[j] < other.stored().len(),
                old(self).stored().len() + other_ids@.len() <= MAX_FLAGS,
                self.stored() == old(self).stored() + copied_vectors(other, other_ids@.take(i as int)),
                self.flags() == old(self).flags() + copied_flags(other, other_ids@.take(i as int)),
            decreases other_ids@.len() - i,
        {
            assert(self.stored().subrange(0, start as int) =~= old(self).stored());
            match check_stopped(stopped) {
                Ok(()) => {},
                Err(e) => {
                    return Err(e);
                },
            }
            let id = other_ids[i];
            let vector = other.get_vector(id);
            let deleted = other.is_deleted_vector(id);
            match self.push_vector(vector, deleted) {
                Ok(()) => {},
                Err(e) => {
                    return Err(e);
                },
            }
            assert(copied_vectors(other, other_ids@.take(i + 1)) =~= copied_vectors(other, other_ids@.take(i as int)).push(vector@));
            assert(copied_flags(other, other_ids@.take(i + 1)) =~= copied_flags(other, other_ids@.take(i as int)).push(deleted));
            assert(self.stored() =~= old(self).stored() + copied_vectors(other, other_ids@.take(i + 1)));
            assert(self.flags() =~= old(self).flags() + copied_flags(other, other_ids@.take(i + 1)));
            i += 1;
        }
        assert(other_ids@.take(other_ids@.len() as int) =~= other_ids@);
        let end = self.vectors.len();
        Ok(Range { start: start as PointOffsetType, end: end as PointOffsetType })
    }
}

impl VectorStorage for SparseVectorStorage {
    open spec fn wf(&self) -> bool {
        &&& self.vectors@.len() == self.deleted@.len()
        &&& self.deleted@.len() <= MAX_FLAGS
    }

    open spec fn stored(&self) -> Seq<VectorData> {
        self.vectors@.map_values(|v: SparseVector| v@)
    }

    open spec fn flags(&self) -> Seq<bool> {
        self.deleted@
    }

    open spec fn dim(&self) -> nat {
        0
    }

    open spec fn metric(&self) -> Distance {
        self.distance
    }

    open spec fn on_disk(&self) -> bool {
        false
    }

    open spec fn backing_files(&self) -> Seq<Seq<char>> {
        Seq::empty()
    }

    open spec fn rejection(&self, v: VectorData) -> Option<OperationError> {
        match v {
            VectorData::Dense(_) => Some(OperationError::WrongSparse),
            VectorData::Sparse(_, _) => None,
        }
    }

    open spec fn filler(&self) -> VectorData {
        VectorData::Sparse(Seq::empty(), Seq::empty())
    }

    fn vector_dim(&self) -> (r: usize) {
        0
    }

    fn distance(&self) -> (r: Distance) {
        self.distance
    }

    fn is_on_disk(&self) -> (r: bool) {
        false
    }

    fn files(&self) -> (r: Vec<String>) {
        Vec::new()
    }

    fn total_vector_count(&self) -> (r: usize) {
        self.vectors.len()
    }

    fn get_vector(&self, key: PointOffsetType) -> (r: VectorOrSparseRef<'_>) {
        VectorOrSparseRef::Sparse(&self.vectors[key as usize])
    }

    fn insert_vector(&mut self, key: PointOffsetType, vector: VectorOrSparseRef) -> (r: Result<(), OperationError>) {
        match self.fits(vector) {
            Ok(()) => {},
            Err(e) => {
                return Err(e);
            },
        }
        let k = key as usize;
        if k < self.vectors.len() {
            self.set_vector(k, vector);
            let _ = self.deleted.set(k, false);
            assert(self.stored() =~= placed(old(self).stored(), key as int, vector@, old(self).filler()));
            assert(self.flags() =~= placed(old(self).flags(), key as int, false, false));
            Ok(())
        } else {
            let ghost n0 = old(self).stored().len();
            while self.vectors.len() < k
                invariant
                    self.wf(),
                    self.dim == old(self).dim,
                    self.distance == old(self).distance,
                    n0 <= self.stored().len() <= k,
                    k < MAX_FLAGS,
                    self.rejection(vector@) is None,
                    self.stored() == old(self).stored() + Seq::new((self.stored().len() - n0) as nat, |_i: int| old(self).filler()),
                    self.flags() == old(self).flags() + Seq::new((self.stored().len() - n0) as nat, |_i: int| false),
                decreases k - self.vectors@.len(),
            {
                self.push_filler();
                assert(self.stored() =~= old(self).stored() + Seq::new((self.stored().len() - n0) as nat, |_i: int| old(self).filler()));
                assert(self.flags() =~= old(self).flags() + Seq::new((self.stored().len() - n0) as nat, |_i: int| false));
            }
            let r = self.push_vector(vector, false);
            assert(self.stored() =~= placed(old(self).stored(), key as int, vector@, old(self).filler()));
            assert(self.flags() =~= placed(old(self).flags(), key as int, false, false));
            r
        }
    }

    fn delete_vector(&mut self, key: PointOffsetType) -> (r: Result<bool, OperationError>) {
        proof {
            lemma_count_true_update(self.deleted@, key as int, true);
        }
        let was_deleted = self.deleted.set(key as usize, true);
        Ok(!was_deleted)
    }

    fn is_deleted_vector(&self, key: PointOffsetType) -> (r: bool) {
        self.deleted.is_set(key as usize)
    }

    fn deleted_vector_count(&self) -> (r: usize) {
        self.deleted.count()
    }

    fn deleted_vector_bitslice(&self) -> (r: &Tombstones) {
        &self.deleted
    }
}

/// Every storage backend, behind one closed set of variants; each operation
/// goes to the active backend alone.
pub enum VectorStorageEnum {
    Simple(SimpleVectorStorage),
    SparseRam(SparseVectorStorage),
    SparseMemmap(SparseVectorStorage),
}

impl VectorStorage for VectorStorageEnum {
    open spec fn wf(&self) -> bool {
        match self {
            VectorStorageEnum::Simple(v) => v.wf(),
            VectorStorageEnum::SparseRam(v) => v.wf(),
            VectorStorageEnum::SparseMemmap(v) => v.wf(),
        }
    }

    open spec fn stored(&self) -> Seq<VectorData> {
        match self {
            VectorStorageEnum::Simple(v) => v.stored(),
            VectorStorageEnum::SparseRam(v) => v.stored(),
            VectorStorageEnum::SparseMemmap(v) => v.stored(),
        }
    }

    open spec fn flags(&self) -> Seq<bool> {
        match self {
            VectorStorageEnum::Simple(v) => v.flags(),
            VectorStorageEnum::SparseRam(v) => v.flags(),
            VectorStorageEnum::SparseMemmap(v) => v.flags(),
        }
    }

    open spec fn dim(&self) -> nat {
        match self {
            VectorStorageEnum::Simple(v) => v.dim(),
            VectorStorageEnum::SparseRam(v) => v.dim(),
            VectorStorageEnum::SparseMemmap(v) => v.dim(),
        }
    }

    open spec fn metric(&self) -> Distance {
        match self {
            VectorStorageEnum::Simple(v) => v.metric(),
            VectorStorageEnum::SparseRam(v) => v.metric(),
            VectorStorageEnum::SparseMemmap(v) => v.metric(),
        }
    }

    open spec fn on_disk(&self) -> bool {
        match self {
            VectorStorageEnum::Simple(v) => v.on_disk(),
            VectorStorageEnum::SparseRam(v) => v.on_disk(),
            VectorStorageEnum::SparseMemmap(v) => v.on_disk(),
        }
    }

    open spec fn backing_files(&self) -> Seq<Seq<char>> {
        match self {
            VectorStorageEnum::Simple(v) => v.backing_files(),
            VectorStorageEnum::SparseRam(v) => v.backing_files(),
            VectorStorageEnum::SparseMemmap(v) => v.backing_files(),
        }
    }

    open spec fn rejection(&self, v: VectorData) -> Option<OperationError> {
        match self {
            VectorStorageEnum::Simple(s) => s.rejection(v),
            VectorStorageEnum::SparseRam(s) => s.rejection(v),
            VectorStorageEnum::SparseMemmap(s) => s.rejection(v),
        }
    }

    open spec fn filler(&self) -> VectorData {
        match self {
            VectorStorageEnum::Simple(v) => v.filler(),
            VectorStorageEnum::SparseRam(v) => v.filler(),
            VectorStorageEnum::SparseMemmap(v) => v.filler(),
        }
    }

    fn vector_dim(&self) -> (r: usize) {
        match self {
            VectorStorageEnum::Simple(v) => v.vector_dim(),
            VectorStorageEnum::SparseRam(v) => v.vector_dim(),
            VectorStorageEnum::SparseMemmap(v) => v.vector_dim(),
        }
    }

    fn distance(&self) -> (r: Distance) {
        match self {
            VectorStorageEnum::Simple(v) => v.distance(),
            VectorStorageEnum::SparseRam(v) => v.distance(),
            VectorStorageEnum::SparseMemmap(v) => v.distance(),
        }
    }

    fn is_on_disk(&self) -> (r: bool) {
        match self {
            VectorStorageEnum::Simple(v) => v.is_on_disk(),
            VectorStorageEnum::SparseRam(v) => v.is_on_disk(),
            VectorStorageEnum::SparseMemmap(v) => v.is_on_disk(),
        }
    }

    fn files(&self) -> (r: Vec<String>) {
        match self {
            VectorStorageEnum::Simple(v) => v.files(),
            VectorStorageEnum::SparseRam(v) => v.files(),
            VectorStorageEnum::SparseMemmap(v) => v.files(),
        }
    }

    fn total_vector_count(&self) -> (r: usize) {
        match self {
            VectorStorageEnum::Simple(v) => v.total_vector_count(),
            VectorStorageEnum::SparseRam(v) => v.total_vector_count(),
            VectorStorageEnum::SparseMemmap(v) => v.total_vector_count(),
        }
    }

    fn get_vector(&self, key: PointOffsetType) -> (r: VectorOrSparseRef<'_>) {
        match self {
            VectorStorageEnum::Simple(v) => v.get_vector(key),
            VectorStorageEnum::SparseRam(v) => v.get_vector(key),
            VectorStorageEnum::SparseMemmap(v) => v.get_vector(key),
        }
    }

    fn insert_vector(&mut self, key: PointOffsetType, vector: VectorOrSparseRef) -> (r: Result<(), OperationError>) {
        match self {
            VectorStorageEnum::Simple(v) => v.insert_vector(key, vector),
            VectorStorageEnum::SparseRam(v) => v.insert_vector(key, vector),
            VectorStorageEnum::SparseMemmap(v) => v.insert_vector(key, vector),
        }
    }

    fn delete_vector(&mut self, key: PointOffsetType) -> (r: Result<bool, OperationError>) {
        match self {
            VectorStorageEnum::Simple(v) => v.delete_vector(key),
            VectorStorageEnum::SparseRam(v) => v.delete_vector(key),
            VectorStorageEnum::SparseMemmap(v) => v.delete_vector(key),
        }
    }

    fn is_deleted_vector(&self, key: PointOffsetType) -> (r: bool) {
        match self {
            VectorStorageEnum::Simple(v) => v.is_deleted_vector(key),
            VectorStorageEnum::SparseRam(v) => v.is_deleted_vector(key),
            VectorStorageEnum::SparseMemmap(v) => v.is_deleted_vector(key),
        }
    }

    fn deleted_vector_count(&self) -> (r: usize) {
        match self {
            VectorStorageEnum::Simple(v) => v.deleted_vector_count(),
            VectorStorageEnum::SparseRam(v) => v.deleted_vector_count(),
            VectorStorageEnum::SparseMemmap(v) => v.deleted_vector_count(),
        }
    }

    fn deleted_vector_bitslice(&self) -> (r: &Tombstones) {
        match self {
            VectorStorageEnum::Simple(v) => v.deleted_vector_bitslice(),
            VectorStorageEnum::SparseRam(v) => v.deleted_vector_bitslice(),
            VectorStorageEnum::SparseMemmap(v) => v.deleted_vector_bitslice(),
        }
    }
}

impl VectorStorageEnum {
    /// Appends the vectors of `other` at `other_ids`, with their deletion
    /// flags, and returns the offsets they were given. The stop flag is read
    /// before each vector; once it is seen set, the copy ends with `Cancelled`
    /// and what was appended so far stays.
    pub fn update_from(
        &mut self,
        other: &VectorStorageEnum,
        other_ids: &Vec<PointOffsetType>,
        stopped: &AtomicBool,
    ) -> (r: Result<Range<PointOffsetType>, OperationError>)
        requires
            old(self).wf(),
            other.wf(),
            forall|i: int| 0 <= i < other_ids@.len() ==> other_ids@[i] < other.stored().len(),
            old(self).stored().len() + other_ids@.len() <= MAX_FLAGS,
        ensures
            final(self).wf(),
            final(self).dim() == old(self).dim(),
            final(self).metric() == old(self).metric(),
            other_ids@.len() == 0 ==> (r matches Ok(range) && range.start == old(self).stored().len()
                && range.end == range.start),
            match r {
                Ok(range) => {
                    &&& range.start == old(self).stored().len()
                    &&& range.end == final(self).stored().len()
                    &&& final(self).stored() == old(self).stored() + copied_vectors(other, other_ids@)
                    &&& final(self).flags() == old(self).flags() + copied_flags(other, other_ids@)
                },
                Err(e) => {
                    &&& exists|k: int|
                        0 <= k < other_ids@.len() && final(self).stored() == old(self).stored()
                            + copied_vectors(other, other_ids@.take(k)) && final(self).flags() == old(
                            self,
                        ).flags() + copied_flags(other, other_ids@.take(k))
                    &&& (e is Cancelled || exists|i: int|
                        0 <= i < other_ids@.len()
                            && old(self).rejection(other.stored()[other_ids@[i] as int]) == Some(e))
                },
            },
{
        match self {
            VectorStorageEnum::Simple(v) => v.update_from(other, other_ids, stopped),
            VectorStorageEnum::SparseRam(v) => v.update_from(other, other_ids, stopped),
            VectorStorageEnum::SparseMemmap(v) => v.update_from(other, other_ids, stopped),
        }
    }
}

} // verus!
