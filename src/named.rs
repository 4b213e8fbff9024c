use vstd::prelude::*;

use crate::reco_query::RecoQuery;
use crate::sparse_vector::SparseVector;
use crate::types::{names_unique, PointOffsetType, VectorType};
use crate::vectors::{copy_dense, default_vector, lemma_names_transfer, NamedVectors, VectorData, VectorOrSparse, DEFAULT_VECTOR_NAME};

verus! {

/// The pairs of `n`, as name and vector views.
pub open spec fn named_view(n: Seq<(String, VectorOrSparse)>) -> Seq<(Seq<char>, VectorData)> {
    n.map_values(|p: (String, VectorOrSparse)| (p.0@, p.1@))
}

/// A value that designates one vector field by name.
pub trait Named {
    spec fn name_view(&self) -> Seq<char>;

    fn get_name(&self) -> (r: &str)
        ensures
            r@ == self.name_view(),
    ;
}

/// A dense vector with the name of its field.
#[derive(Debug, Clone)]
pub struct NamedVector {
    /// Name of vector data
    pub name: String,
    /// Vector data
    pub vector: VectorType,
}

/// A dense vector for the default field, or one with an explicit name.
#[derive(Debug, Clone)]
pub enum NamedVectorStruct {
    Default(VectorType),
    Named(NamedVector),
}

impl Named for NamedVectorStruct {
    open spec fn name_view(&self) -> Seq<char> {
        match self {
            NamedVectorStruct::Default(_) => DEFAULT_VECTOR_NAME@,
            NamedVectorStruct::Named(v) => v.name@,
        }
    }

    fn get_name(&self) -> (r: &str) {
        match self {
            NamedVectorStruct::Default(_) => DEFAULT_VECTOR_NAME,
            NamedVectorStruct::Named(v) => v.name.as_str(),
        }
    }
}

impl NamedVectorStruct {
    pub fn get_vector(&self) -> (r: &VectorType)
        ensures
            r@ == match self {
                NamedVectorStruct::Default(v) => v@,
                NamedVectorStruct::Named(v) => v.vector@,
            },
    {
        match self {
            NamedVectorStruct::Default(v) => v,
            NamedVectorStruct::Named(v) => &v.vector,
        }
    }

    pub fn to_vector(self) -> (r: VectorType)
        ensures
            r@ == match self {
                NamedVectorStruct::Default(v) => v@,
                NamedVectorStruct::Named(v) => v.vector@,
            },
    {
        match self {
            NamedVectorStruct::Default(v) => v,
            NamedVectorStruct::Named(v) => v.vector,
        }
    }

    /// The vector with its field name; the default field's name is empty.
    pub fn into_named_vector(self) -> (r: NamedVector)
        ensures
            r.name@ == self.name_view(),
            r.vector@ == match self {
                NamedVectorStruct::Default(v) => v@,
                NamedVectorStruct::Named(v) => v.vector@,
            },
    {
        match self {
            NamedVectorStruct::Default(v) => NamedVector { name: DEFAULT_VECTOR_NAME.to_owned(), vector: v },
            NamedVectorStruct::Named(v) => v,
        }
    }
}

/// A recommendation query over dense vectors, for the field `using` or the
/// default field.
#[derive(Debug, Clone)]
pub struct NamedRecoQuery {
    pub query: RecoQuery<VectorType>,
    pub using: Option<String>,
}

impl Named for NamedRecoQuery {
    open spec fn name_view(&self) -> Seq<char> {
        match self.using {
            Some(n) => n@,
            None => DEFAULT_VECTOR_NAME@,
        }
    }

    fn get_name(&self) -> (r: &str) {
        match &self.using {
            Some(n) => n.as_str(),
            None => DEFAULT_VECTOR_NAME,
        }
    }
}

/// The vectors of one point: a single dense vector for the default field,
/// several named ones, or their sparse counterparts.
#[derive(Clone, Debug)]
pub enum VectorStruct {
    Single(VectorType),
    Multi(Vec<(String, VectorType)>),
    Sparse(SparseVector),
    MultiSparse(Vec<(String, SparseVector)>),
}

impl VectorStruct {
    /// Each named field occurs once.
    pub open spec fn wf(&self) -> bool {
        match self {
            VectorStruct::Multi(m) => names_unique(m@),
            VectorStruct::MultiSparse(m) => names_unique(m@),
            _ => true,
        }
    }

    /// Whether every vector held is empty.
    pub fn is_empty(&self) -> (r: bool)
        ensures
            r == match self {
                VectorStruct::Single(v) => v@.len() == 0,
                VectorStruct::Multi(m) => forall|i: int| 0 <= i < m@.len() ==> (#[trigger] m@[i]).1@.len() == 0,
                VectorStruct::Sparse(s) => s.indices@.len() == 0,
                VectorStruct::MultiSparse(m) => forall|i: int|
                    0 <= i < m@.len() ==> (#[trigger] m@[i]).1.indices@.len() == 0,
            },
    {
        match self {
            VectorStruct::Single(vector) => vector.len() == 0,
            VectorStruct::Multi(vectors) => {
                let mut i: usize = 0;
                while i < vectors.len()
                    invariant
                        0 <= i <= vectors@.len(),
                        *self == VectorStruct::Multi(*vectors),
                        forall|j: int| 0 <= j < i ==> (#[trigger] vectors@[j]).1@.len() == 0,
                    decreases vectors@.len() - i,
                {
                    if vectors[i].1.len() != 0 {
                        assert(vectors@[i as int].1@.len() != 0);
                        assert(!(forall|j: int| 0 <= j < vectors@.len() ==> (#[trigger] vectors@[j]).1@.len() == 0));
                        assert(self->Multi_0 == *vectors);
                        return false;
                    }
                    i += 1;
                }
                true
            },
            VectorStruct::Sparse(vector) => vector.indices.len() == 0,
            VectorStruct::MultiSparse(vectors) => {
                let mut i: usize = 0;
                while i < vectors.len()
                    invariant
                        0 <= i <= vectors@.len(),
                        *self == VectorStruct::MultiSparse(*vectors),
                        forall|j: int| 0 <= j < i ==> (#[trigger] vectors@[j]).1.indices@.len() == 0,
                    decreases vectors@.len() - i,
                {
                    if vectors[i].1.indices.len() != 0 {
                        assert(vectors@[i as int].1.indices@.len() != 0);
                        assert(!(forall|j: int|
                            0 <= j < vectors@.len() ==> (#[trigger] vectors@[j]).1.indices@.len() == 0));
                        assert(self->MultiSparse_0 == *vectors);
                        return false;
                    }
                    i += 1;
                }
                true
            },
        }
    }

    /// The dense vector of the field `name`: the single vector for the default
    /// name, the last entry of that name among several; sparse vectors are
    /// never returned here.
    pub fn get(&self, name: &str) -> (r: Option<&VectorType>)
        ensures
            match self {
                VectorStruct::Single(v) => if name@ == DEFAULT_VECTOR_NAME@ {
                    r == Some(v)
                } else {
                    r is None
                },
                VectorStruct::Multi(m) => match r {
                    Some(v) => exists|i: int| 0 <= i < m@.len() && m@[i].1 == *v && m@[i].0@ == name@ && (forall|j: int|
                        i < j < m@.len() ==> (#[trigger] m@[j]).0@ != name@),
                    None => forall|j: int| 0 <= j < m@.len() ==> (#[trigger] m@[j]).0@ != name@,
                },
                _ => r is None,
            },
    {
        match self {
            VectorStruct::Single(v) => {
                let wanted = name.to_owned();
                let default_name = DEFAULT_VECTOR_NAME.to_owned();
                if wanted == default_name {
                    Some(v)
                } else {
                    None
                }
            },
            VectorStruct::Multi(m) => {
                let wanted = name.to_owned();
                let mut i: usize = m.len();
                while i > 0
                    invariant
                        i <= m@.len(),
                        *self == VectorStruct::Multi(*m),
                        wanted@ == name@,
                        forall|j: int| i <= j < m@.len() ==> (#[trigger] m@[j]).0@ != name@,
                    decreases i,
                {
                    i -= 1;
                    if m[i].0 == wanted {
                        assert(m@[i as int].0@ == name@);
                        assert(exists|k: int|
                            0 <= k < m@.len() && m@[k].1 == m@[i as int].1 && m@[k].0@ == name@ && (forall|j: int|
                                k < j < m@.len() ==> (#[trigger] m@[j]).0@ != name@));
                        assert(self->Multi_0 == *m);
                        return Some(&m[i].1);
                    }
                }
                None
            },
            VectorStruct::Sparse(_) => None,
            VectorStruct::MultiSparse(_) => None,
        }
    }

    /// All vectors as named vectors; a single vector belongs to the default
    /// field.
    pub fn into_all_vectors(self) -> (r: NamedVectors)
        ensures
            named_view(r.entries@) == match self {
                VectorStruct::Single(v) => seq![(DEFAULT_VECTOR_NAME@, VectorData::Dense(v@))],
                VectorStruct::Multi(m) => m@.map_values(
                    |p: (String, VectorType)| (p.0@, VectorData::Dense(p.1@)),
                ),
                VectorStruct::Sparse(s) => seq![(DEFAULT_VECTOR_NAME@, s@)],
                VectorStruct::MultiSparse(m) => m@.map_values(|p: (String, SparseVector)| (p.0@, p.1@)),
            },
            self.wf() ==> r.wf(),
    {
        match self {
            VectorStruct::Single(v) => {
                let r = default_vector(v);
                assert(named_view(r.entries@) =~= seq![(DEFAULT_VECTOR_NAME@, VectorData::Dense(v@))]);
                r
            },
            VectorStruct::Multi(m) => {
                let ghost orig = m@;
                let mut rest = m;
                let mut entries: Vec<(String, VectorOrSparse)> = Vec::new();
                while rest.len() > 0
                    invariant
                        entries@.len() + rest@.len() == orig.len(),
                        rest@ == orig.skip(entries@.len() as int),
                        named_view(entries@) == orig.take(entries@.len() as int).map_values(
                            |p: (String, VectorType)| (p.0@, VectorData::Dense(p.1@)),
                        ),
                    decreases rest@.len(),
                {
                    let ghost k = entries@.len() as int;
                    let ghost prev = entries@;
                    let (name, vector) = rest.remove(0);
                    assert(orig.take(k + 1) =~= orig.take(k).push(orig[k]));
                    entries.push((name, VectorOrSparse::Vector(vector)));
                    assert(named_view(entries@) =~= named_view(prev).push(named_view(entries@).last()));
                    assert(named_view(entries@) =~= orig.take(k + 1).map_values(
                        |p: (String, VectorType)| (p.0@, VectorData::Dense(p.1@)),
                    ));
                }
                assert(orig.take(orig.len() as int) =~= orig);
                proof {
                    if names_unique(orig) {
                        assert forall|i: int| 0 <= i < orig.len() implies (#[trigger] orig[i]).0@ == entries@[i].0@ by {
                            assert(named_view(entries@)[i].0 == entries@[i].0@);
                        }
                        lemma_names_transfer(orig, entries@);
                    }
                }
                NamedVectors { entries }
            },
            VectorStruct::Sparse(s) => {
                let ghost sv = s@;
                let mut entries: Vec<(String, VectorOrSparse)> = Vec::new();
                entries.push((DEFAULT_VECTOR_NAME.to_owned(), VectorOrSparse::Sparse(s)));
                assert(named_view(entries@) =~= seq![(DEFAULT_VECTOR_NAME@, sv)]);
                NamedVectors { entries }
            },
            VectorStruct::MultiSparse(m) => {
                let ghost orig = m@;
                let mut rest = m;
                let mut entries: Vec<(String, VectorOrSparse)> = Vec::new();
                while rest.len() > 0
                    invariant
                        entries@.len() + rest@.len() == orig.len(),
                        rest@ == orig.skip(entries@.len() as int),
                        named_view(entries@) == orig.take(entries@.len() as int).map_values(
                            |p: (String, SparseVector)| (p.0@, p.1@),
                        ),
                    decreases rest@.len(),
                {
                    let ghost k = entries@.len() as int;
                    let ghost prev = entries@;
                    let (name, vector) = rest.remove(0);
                    assert(orig.take(k + 1) =~= orig.take(k).push(orig[k]));
                    entries.push((name, VectorOrSparse::Sparse(vector)));
                    assert(named_view(entries@) =~= named_view(prev).push(named_view(entries@).last()));
                    assert(named_view(entries@) =~= orig.take(k + 1).map_values(
                        |p: (String, SparseVector)| (p.0@, p.1@),
                    ));
                }
                assert(orig.take(orig.len() as int) =~= orig);
                proof {
                    if names_unique(orig) {
                        assert forall|i: int| 0 <= i < orig.len() implies (#[trigger] orig[i]).0@ == entries@[i].0@ by {
                            assert(named_view(entries@)[i].0 == entries@[i].0@);
                        }
                        lemma_names_transfer(orig, entries@);
                    }
                }
                NamedVectors { entries }
            },
        }
    }
}

/// The vectors of a batch of points: one list for the default field, or one
/// list per named field, each list indexed by record.
#[derive(Clone, Debug)]
pub enum BatchVectorStruct {
    Single(Vec<VectorType>),
    Multi(Vec<(String, Vec<VectorType>)>),
}

/// Record `i` of per-field lists: for each field whose list reaches index
/// `i`, in order, its name and its `i`-th vector.
pub open spec fn batch_row(named: Seq<(String, Vec<VectorType>)>, i: int) -> Seq<(Seq<char>, VectorData)>
    decreases named.len(),
{
    if named.len() == 0 {
        Seq::empty()
    } else {
        let rest = batch_row(named.drop_last(), i);
        if i < named.last().1@.len() {
            rest.push((named.last().0@, VectorData::Dense(named.last().1@[i]@)))
        } else {
            rest
        }
    }
}

/// The length of the longest per-field list.
pub open spec fn batch_len(named: Seq<(String, Vec<VectorType>)>) -> nat
    decreases named.len(),
{
    if named.len() == 0 {
        0
    } else {
        let rest = batch_len(named.drop_last());
        if rest >= named.last().1@.len() { rest } else { named.last().1@.len() }
    }
}

/// Record `i` of per-field lists, as named vectors.
fn batch_record(named: &Vec<(String, Vec<VectorType>)>, i: usize) -> (r: NamedVectors)
    ensures
        named_view(r.entries@) == batch_row(named@, i as int),
{
    let mut entries: Vec<(String, VectorOrSparse)> = Vec::new();
    let mut k: usize = 0;
    while k < named.len()
        invariant
            0 <= k <= named@.len(),
            named_view(entries@) == batch_row(named@.take(k as int), i as int),
        decreases named@.len() - k,
    {
        let ghost prev = entries@;
        assert(named@.take(k + 1).drop_last() =~= named@.take(k as int));
        assert(named@.take(k + 1).last() == named@[k as int]);
        let field = &named[k];
        if i < field.1.len() {
            let vector = copy_dense(field.1[i].as_slice());
            entries.push((field.0.clone(), VectorOrSparse::Vector(vector)));
            assert(named_view(entries@) =~= named_view(prev).push(named_view(entries@).last()));
        }
        k += 1;
    }
    assert(named@.take(named@.len() as int) =~= named@);
    NamedVectors { entries }
}

/// The names in record `i` of per-field lists come from distinct fields, so
/// with unique field names they are unique too.
proof fn lemma_batch_row_names(named: Seq<(String, Vec<VectorType>)>, i: int)
    requires
        names_unique(named),
    ensures
        forall|a: int|
            0 <= a < batch_row(named, i).len() ==> exists|b: int|
                0 <= b < named.len() && (#[trigger] batch_row(named, i)[a]).0 == named[b].0@,
        forall|a: int, c: int|
            0 <= a < c < batch_row(named, i).len() ==> (#[trigger] batch_row(named, i)[a]).0 != (#[trigger] batch_row(
                named,
                i,
            )[c]).0,
    decreases named.len(),
{
    if named.len() > 0 {
        let rest = named.drop_last();
        assert(names_unique(rest)) by {
            assert forall|a: int, b: int| 0 <= a < b < rest.len() implies (#[trigger] rest[a]).0@ != (#[trigger] rest[b]).0@ by {
                assert(rest[a] == named[a] && rest[b] == named[b]);
            }
        }
        lemma_batch_row_names(rest, i);
        let row = batch_row(named, i);
        let prev = batch_row(rest, i);
        assert forall|a: int| 0 <= a < prev.len() implies (#[trigger] prev[a]).0 != named.last().0@ by {
            let b = choose|b: int| 0 <= b < rest.len() && prev[a].0 == rest[b].0@;
            assert(rest[b] == named[b]);
        }
        assert forall|a: int| 0 <= a < row.len() implies exists|b: int|
            0 <= b < named.len() && (#[trigger] row[a]).0 == named[b].0@ by {
            if a < prev.len() {
                assert(row[a] == prev[a]);
                let b = choose|b: int| 0 <= b < rest.len() && prev[a].0 == rest[b].0@;
                assert(rest[b] == named[b]);
            } else {
                assert(row[a].0 == named[named.len() - 1].0@);
            }
        }
        assert forall|a: int, c: int| 0 <= a < c < row.len() implies (#[trigger] row[a]).0 != (#[trigger] row[c]).0 by {
            if c < prev.len() {
                assert(row[a] == prev[a] && row[c] == prev[c]);
            } else {
                assert(row[a] == prev[a]);
            }
        }
    }
}

impl BatchVectorStruct {
    /// Each named field occurs once.
    pub open spec fn wf(&self) -> bool {
        match self {
            BatchVectorStruct::Multi(named) => names_unique(named@),
            BatchVectorStruct::Single(_) => true,
        }
    }

    /// Position of the list of the default field among per-field lists.
    fn default_position(named: &Vec<(String, Vec<VectorType>)>) -> (r: usize)
        requires
            exists|k: int| 0 <= k < named@.len() && (#[trigger] named@[k]).0@ == DEFAULT_VECTOR_NAME@,
        ensures
            r < named@.len(),
            named@[r as int].0@ == DEFAULT_VECTOR_NAME@,
    {
        let default_name = DEFAULT_VECTOR_NAME.to_owned();
        let mut i: usize = 0;
        while i < named.len()
            invariant
                0 <= i <= named@.len(),
                default_name@ == DEFAULT_VECTOR_NAME@,
                exists|k: int| i <= k < named@.len() && (#[trigger] named@[k]).0@ == DEFAULT_VECTOR_NAME@,
            decreases named@.len() - i,
        {
            if named[i].0 == default_name {
                return i;
            }
            i += 1;
        }
        unreached()
    }

    /// The vectors of the default field: the single list, or the list that a
    /// per-field batch holds for the default field, which must be present.
    pub fn single(&mut self) -> (r: &mut Vec<VectorType>)
        requires
            match *old(self) {
                BatchVectorStruct::Single(_) => true,
                BatchVectorStruct::Multi(m) => exists|k: int|
                    0 <= k < m@.len() && (#[trigger] m@[k]).0@ == DEFAULT_VECTOR_NAME@,
            },
        ensures
            match *old(self) {
                BatchVectorStruct::Single(v) => *r == v && *final(self) == BatchVectorStruct::Single(*final(r)),
                BatchVectorStruct::Multi(m) => exists|k: int|
                    0 <= k < m@.len() && (#[trigger] m@[k]).0@ == DEFAULT_VECTOR_NAME@ && *r == m@[k].1
                        && *final(self) is Multi && final(self)->Multi_0@ == m@.update(k, (m@[k].0, *final(r))),
            },
    {
        match self {
            BatchVectorStruct::Single(v) => v,
            BatchVectorStruct::Multi(m) => {
                let k = Self::default_position(m);
                &mut m[k].1
            },
        }
    }

    /// The per-field lists; only for per-field batches.
    pub fn multi(&mut self) -> (r: &mut Vec<(String, Vec<VectorType>)>)
        requires
            *old(self) is Multi,
        ensures
            *r == old(self)->Multi_0,
            *final(self) == BatchVectorStruct::Multi(*final(r)),
    {
        match self {
            BatchVectorStruct::Multi(v) => v,
            BatchVectorStruct::Single(_) => unreached(),
        }
    }

    /// One set of named vectors per record. A single list gives each record
    /// its vector under the default field; per-field lists are transposed, and
    /// when there are no fields at all the result is `num_records` empty sets.
    pub fn into_all_vectors(self, num_records: usize) -> (r: Vec<NamedVectors>)
        ensures
            match self {
                BatchVectorStruct::Single(vs) => {
                    &&& r@.len() == vs@.len()
                    &&& forall|i: int|
                        0 <= i < r@.len() ==> named_view((#[trigger] r@[i]).entries@) == seq![
                            (DEFAULT_VECTOR_NAME@, VectorData::Dense(vs@[i]@)),
                        ]
                },
                BatchVectorStruct::Multi(named) => if named@.len() == 0 {
                    &&& r@.len() == num_records
                    &&& forall|i: int| 0 <= i < r@.len() ==> (#[trigger] r@[i]).entries@.len() == 0
                } else {
                    &&& r@.len() == batch_len(named@)
                    &&& forall|i: int|
                        0 <= i < r@.len() ==> named_view((#[trigger] r@[i]).entries@) == batch_row(named@, i)
                },
            },
            self.wf() ==> forall|i: int| 0 <= i < r@.len() ==> (#[trigger] r@[i]).wf(),
    {
        match self {
            BatchVectorStruct::Single(vectors) => {
                let ghost orig = vectors@;
                let mut rest = vectors;
                let mut out: Vec<NamedVectors> = Vec::new();
                while rest.len() > 0
                    invariant
                        out@.len() + rest@.len() == orig.len(),
                        rest@ == orig.skip(out@.len() as int),
                        forall|i: int|
                            0 <= i < out@.len() ==> named_view((#[trigger] out@[i]).entries@) == seq![
                                (DEFAULT_VECTOR_NAME@, VectorData::Dense(orig[i]@)),
                            ],
                    decreases rest@.len(),
                {
                    let ghost k = out@.len() as int;
                    let v = rest.remove(0);
                    assert(v == orig[k]);
                    let nv = default_vector(v);
                    assert(named_view(nv.entries@) =~= seq![(DEFAULT_VECTOR_NAME@, VectorData::Dense(orig[k]@))]);
                    out.push(nv);
                }
                out
            },
            BatchVectorStruct::Multi(named) => {
                let mut out: Vec<NamedVectors> = Vec::new();
                if named.len() == 0 {
                    let mut i: usize = 0;
                    while i < num_records
                        invariant
                            0 <= i <= num_records,
                            out@.len() == i,
                            forall|j: int| 0 <= j < out@.len() ==> (#[trigger] out@[j]).entries@.len() == 0,
                        decreases num_records - i,
                    {
                        out.push(NamedVectors { entries: Vec::new() });
                        i += 1;
                    }
                    return out;
                }
                let mut longest: usize = 0;
                let mut k: usize = 0;
                while k < named.len()
                    invariant
                        0 <= k <= named@.len(),
                        longest == batch_len(named@.take(k as int)),
                    decreases named@.len() - k,
                {
                    assert(named@.take(k + 1).drop_last() =~= named@.take(k as int));
                    if named[k].1.len() > longest {
                        longest = named[k].1.len();
                    }
                    k += 1;
                }
                assert(named@.take(named@.len() as int) =~= named@);
                let mut i: usize = 0;
                while i < longest
                    invariant
                        0 <= i <= longest,
                        longest == batch_len(named@),
                        out@.len() == i,
                        forall|j: int|
                            0 <= j < out@.len() ==> named_view((#[trigger] out@[j]).entries@) == batch_row(named@, j),
                    decreases longest - i,
                {
                    out.push(batch_record(&named, i));
                    i += 1;
                }
                proof {
                    if names_unique(named@) {
                        assert forall|j: int| 0 <= j < out@.len() implies (#[trigger] out@[j]).wf() by {
                            let row = batch_row(named@, j);
                            lemma_batch_row_names(named@, j);
                            let e = out@[j].entries@;
                            assert forall|a: int, c: int| 0 <= a < c < e.len() implies (#[trigger] e[a]).0@ != (#[trigger] e[c]).0@ by {
                                assert(named_view(e)[a].0 == e[a].0@ && named_view(e)[c].0 == e[c].0@);
                                assert(row[a].0 != row[c].0);
                            }
                        }
                    }
                }
                out
            },
        }
    }
}

/// Decides whether a point passes a filter.
pub trait FilterContext {
    fn check(&self, point_id: PointOffsetType) -> bool;
}

/// A filter that every point passes.
pub struct FakeFilterContext {}

impl FilterContext for FakeFilterContext {
    fn check(&self, _point_id: PointOffsetType) -> (r: bool) {
        true
    }
}

} // verus!
