use vstd::prelude::*;

use std::sync::atomic::{AtomicBool, Ordering};

use crate::types::{names_unique, OperationError, SegmentConfig, VectorDataConfig};
use crate::vectors::{NamedVectors, QueryVector, VectorData, VectorOrSparse, VectorOrSparseRef};

verus! {

/// The outcome of a cancellation check that observed `stopped`.
pub fn cancelled_if(stopped: bool) -> (r: Result<(), OperationError>)
    ensures
        r is Err <==> stopped,
        r matches Err(e) ==> (e matches OperationError::Cancelled { description } && description@
            == "Operation is stopped externally"@),
{
    if stopped {
        Err(OperationError::Cancelled { description: "Operation is stopped externally".to_owned() })
    } else {
        Ok(())
    }
}

/// Fails with `Cancelled` when the shared stop flag is set at the moment it is
/// read. Another thread may change the flag at any time, so all that holds of
/// every outcome is the kind of the error.
pub fn check_stopped(is_stopped: &AtomicBool) -> (r: Result<(), OperationError>)
    ensures
        r matches Err(e) ==> (e matches OperationError::Cancelled { description } && description@
            == "Operation is stopped externally"@),
{
    cancelled_if(is_stopped.load(Ordering::Relaxed))
}

/// The configuration that `entries` give to the field `name`: the last entry
/// of that name, or `None` when there is none.
pub open spec fn lookup_config(entries: Seq<(String, VectorDataConfig)>, name: Seq<char>) -> Option<VectorDataConfig>
    decreases entries.len(),
{
    if entries.len() == 0 {
        None
    } else if entries.last().0@ == name {
        Some(entries.last().1)
    } else {
        lookup_config(entries.drop_last(), name)
    }
}

/// With unique names, the configuration found for the name of an entry is that
/// entry's configuration.
pub proof fn lemma_lookup_unique(entries: Seq<(String, VectorDataConfig)>, i: int)
    requires
        names_unique(entries),
        0 <= i < entries.len(),
    ensures
        lookup_config(entries, entries[i].0@) == Some(entries[i].1),
    decreases entries.len(),
{
    if i < entries.len() - 1 {
        let rest = entries.drop_last();
        assert(entries[i].0@ != entries[entries.len() - 1].0@);
        assert(rest[i] == entries[i]);
        assert(names_unique(rest)) by {
            assert forall|a: int, b: int| 0 <= a < b < rest.len() implies (#[trigger] rest[a]).0@ != (#[trigger] rest[b]).0@ by {
                assert(rest[a] == entries[a] && rest[b] == entries[b]);
            }
        }
        lemma_lookup_unique(rest, i);
    }
}

/// The error a vector meets against a field configuration, if any: its
/// logical length must equal the declared size.
pub open spec fn vector_check(v: VectorData, config: VectorDataConfig) -> Option<OperationError> {
    if v.len() == config.size {
        None
    } else {
        Some(OperationError::WrongVector { expected_dim: config.size, received_dim: v.len() as usize })
    }
}

/// Every vector of `vs` fits `config`.
pub open spec fn all_fit(vs: Seq<VectorData>, config: VectorDataConfig) -> bool {
    forall|i: int| 0 <= i < vs.len() ==> vector_check(#[trigger] vs[i], config) is None
}

/// `e` is the error of the first vector of `vs` that does not fit `config`.
pub open spec fn first_misfit(vs: Seq<VectorData>, config: VectorDataConfig, e: OperationError) -> bool {
    exists|k: int|
        0 <= k < vs.len() && all_fit(vs.take(k), config) && vector_check(#[trigger] vs[k], config) == Some(e)
}

/// The outcome of checking the vectors `vs` against `config`: `Ok` when all
/// fit, else the error of the first that does not.
pub open spec fn fit_outcome(r: Result<(), OperationError>, vs: Seq<VectorData>, config: VectorDataConfig) -> bool {
    match r {
        Ok(()) => all_fit(vs, config),
        Err(e) => !all_fit(vs, config) && first_misfit(vs, config, e),
    }
}

/// The vectors of a query, in the order they are checked: the target, or the
/// positives followed by the negatives.
pub open spec fn query_data(q: QueryVector) -> Seq<VectorData> {
    match q {
        QueryVector::Nearest(v) => seq![v@],
        QueryVector::Recommend(rq) => Seq::new(
            rq.positives@.len() + rq.negatives@.len(),
            |i: int|
                if i < rq.positives@.len() {
                    rq.positives@[i]@
                } else {
                    rq.negatives@[i - rq.positives@.len()]@
                },
        ),
    }
}

/// `r` reports that the field `name` is not declared.
pub open spec fn is_name_error(r: Result<(), OperationError>, name: Seq<char>) -> bool {
    r matches Err(OperationError::VectorNameNotExists { received_name }) && received_name@ == name
}

/// Check that the given vector name is part of the segment config.
pub fn check_vector_name(vector_name: &str, segment_config: &SegmentConfig) -> (r: Result<(), OperationError>)
    requires
        segment_config.wf(),
    ensures
        match lookup_config(segment_config.vector_data@, vector_name@) {
            None => is_name_error(r, vector_name@),
            Some(_) => r is Ok,
        },
{
    match get_vector_config_or_error(vector_name, segment_config) {
        Ok(_) => Ok(()),
        Err(e) => Err(e),
    }
}

/// The configuration of the field `vector_name`, or `VectorNameNotExists`.
fn get_vector_config_or_error<'a>(vector_name: &str, segment_config: &'a SegmentConfig) -> (r: Result<&'a VectorDataConfig, OperationError>)
    ensures
        match lookup_config(segment_config.vector_data@, vector_name@) {
            None => r matches Err(OperationError::VectorNameNotExists { received_name }) && received_name@ == vector_name@,
            Some(c) => r matches Ok(rc) && *rc == c,
        },
{
    let entries = &segment_config.vector_data;
    let name = vector_name.to_owned();
    let mut i: usize = entries.len();
    assert(entries@.take(i as int) =~= entries@);
    while i > 0
        invariant
            i <= entries@.len(),
            entries@ == segment_config.vector_data@,
            name@ == vector_name@,
            lookup_config(entries@, vector_name@) == lookup_config(entries@.take(i as int), vector_name@),
        decreases i,
    {
        i -= 1;
        let entry = &entries[i];
        assert(entries@.take(i + 1).drop_last() =~= entries@.take(i as int));
        assert(entries@.take(i + 1).last() == entries@[i as int]);
        if entry.0 == name {
            assert(entry.0@ == vector_name@);
            assert(lookup_config(entries@.take(i + 1), vector_name@) == Some(entry.1));
            return Ok(&entry.1);
        }
    }
    Err(OperationError::VectorNameNotExists { received_name: name })
}

/// Check that a vector's length equals the configured dimensionality.
fn check_vector_against_config(vector: VectorOrSparseRef, vector_config: &VectorDataConfig) -> (r: Result<(), OperationError>)
    ensures
        match vector_check(vector@, *vector_config) {
            None => r is Ok,
            Some(e) => r == Err::<(), OperationError>(e),
        },
{
    let dim = vector_config.size;
    if vector.len() != dim {
        return Err(OperationError::WrongVector { expected_dim: dim, received_dim: vector.len() });
    }
    Ok(())
}

/// Check every vector of a query against a field configuration, stopping at
/// the first that does not fit.
fn _check_query_vector(query_vector: &QueryVector, vector_config: &VectorDataConfig) -> (r: Result<(), OperationError>)
    ensures
        fit_outcome(r, query_data(*query_vector), *vector_config),
{
    let ghost data = query_data(*query_vector);
    match query_vector {
        QueryVector::Nearest(vector) => {
            let r = check_vector_against_config(vector.as_vec_ref(), vector_config);
            assert(data.take(0) =~= Seq::<VectorData>::empty());
            assert(data[0] == vector@);
            r
        },
        QueryVector::Recommend(reco_query) => {
            let all = reco_query.iter_all();
            let mut i: usize = 0;
            while i < all.len()
                invariant
                    0 <= i <= all@.len(),
                    data == query_data(*query_vector),
                    data.len() == all@.len(),
                    forall|j: int| 0 <= j < all@.len() ==> data[j] == (*all@[j])@,
                    all_fit(data.take(i as int), *vector_config),
                decreases all@.len() - i,
            {
                let vector = all[i];
                match check_vector_against_config(vector.as_vec_ref(), vector_config) {
                    Ok(()) => {},
                    Err(e) => {
                        assert(first_misfit(data, *vector_config, e)) by {
                            assert(vector_check(data[i as int], *vector_config) == Some(e));
                        }
                        return Err(e);
                    },
                }
                assert(data.take(i + 1) =~= data.take(i as int).push(data[i as int]));
                i += 1;
            }
            assert(data.take(all@.len() as int) =~= data);
            Ok(())
        },
    }
}

/// Check that the given vector name and query are compatible with the given
/// segment config.
pub fn check_vector(vector_name: &str, query_vector: &QueryVector, segment_config: &SegmentConfig) -> (r: Result<(), OperationError>)
    requires
        segment_config.wf(),
    ensures
        match lookup_config(segment_config.vector_data@, vector_name@) {
            None => is_name_error(r, vector_name@),
            Some(c) => fit_outcome(r, query_data(*query_vector), c),
        },
{
    let vector_config = match get_vector_config_or_error(vector_name, segment_config) {
        Ok(c) => c,
        Err(e) => {
            return Err(e);
        },
    };
    _check_query_vector(query_vector, vector_config)
}

/// Every query of `qs` fits `config`.
pub open spec fn all_queries_fit(qs: Seq<&QueryVector>, config: VectorDataConfig) -> bool {
    forall|i: int| 0 <= i < qs.len() ==> all_fit(query_data(*#[trigger] qs[i]), config)
}

/// Check that the given vector name and queries are compatible with the given
/// segment config, stopping at the first query that does not fit.
pub fn check_query_vectors(vector_name: &str, query_vectors: &[&QueryVector], segment_config: &SegmentConfig) -> (r: Result<(), OperationError>)
    requires
        segment_config.wf(),
    ensures
        match lookup_config(segment_config.vector_data@, vector_name@) {
            None => is_name_error(r, vector_name@),
            Some(c) => match r {
                Ok(()) => all_queries_fit(query_vectors@, c),
                Err(e) => exists|k: int|
                    0 <= k < query_vectors@.len() && all_queries_fit(query_vectors@.take(k), c)
                        && fit_outcome(r, query_data(*#[trigger] query_vectors@[k]), c),
            },
        },
{
    let vector_config = match get_vector_config_or_error(vector_name, segment_config) {
        Ok(c) => c,
        Err(e) => {
            return Err(e);
        },
    };
    let mut i: usize = 0;
    while i < query_vectors.len()
        invariant
            0 <= i <= query_vectors@.len(),
            lookup_config(segment_config.vector_data@, vector_name@) == Some(*vector_config),
            all_queries_fit(query_vectors@.take(i as int), *vector_config),
        decreases query_vectors@.len() - i,
    {
        let r = _check_query_vector(query_vectors[i], vector_config);
        if r.is_err() {
            return r;
        }
        assert(query_vectors@.take(i + 1) =~= query_vectors@.take(i as int).push(query_vectors@[i as int]));
        i += 1;
    }
    assert(query_vectors@.take(query_vectors@.len() as int) =~= query_vectors@);
    Ok(())
}

/// The field of entry `i` of `named` is declared and its vector fits.
pub open spec fn named_entry_fits(named: Seq<(String, VectorOrSparse)>, i: int, entries: Seq<(String, VectorDataConfig)>) -> bool {
    match lookup_config(entries, named[i].0@) {
        None => false,
        Some(c) => vector_check(named[i].1@, c) is None,
    }
}

/// `r` is the error that entry `i` of `named` meets.
pub open spec fn named_entry_error(r: Result<(), OperationError>, named: Seq<(String, VectorOrSparse)>, i: int, entries: Seq<(String, VectorDataConfig)>) -> bool {
    match lookup_config(entries, named[i].0@) {
        None => is_name_error(r, named[i].0@),
        Some(c) => r == Err::<(), OperationError>(vector_check(named[i].1@, c)->Some_0),
    }
}

/// Check that the given named vectors are compatible with the given segment
/// config, stopping at the first entry that is not.
pub fn check_named_vectors(vectors: &NamedVectors, segment_config: &SegmentConfig) -> (r: Result<(), OperationError>)
    requires
        segment_config.wf(),
    ensures
        match r {
            Ok(()) => forall|i: int|
                0 <= i < vectors.entries@.len() ==> named_entry_fits(vectors.entries@, i, segment_config.vector_data@),
            Err(_) => exists|k: int|
                0 <= k < vectors.entries@.len() && (forall|j: int|
                    0 <= j < k ==> named_entry_fits(vectors.entries@, j, segment_config.vector_data@))
                    && !named_entry_fits(vectors.entries@, k, segment_config.vector_data@)
                    && named_entry_error(r, vectors.entries@, k, segment_config.vector_data@),
        },
{
    let entries = &vectors.entries;
    let mut i: usize = 0;
    while i < entries.len()
        invariant
            0 <= i <= entries@.len(),
            entries == &vectors.entries,
            forall|j: int| 0 <= j < i ==> named_entry_fits(entries@, j, segment_config.vector_data@),
        decreases entries@.len() - i,
    {
        let entry = &entries[i];
        let vector_config = match get_vector_config_or_error(entry.0.as_str(), segment_config) {
            Ok(c) => c,
            Err(e) => {
                let r = Err(e);
                assert(named_entry_error(r, entries@, i as int, segment_config.vector_data@));
                assert(!named_entry_fits(entries@, i as int, segment_config.vector_data@));
                return r;
            },
        };
        match check_vector_against_config(entry.1.as_vec_ref(), vector_config) {
            Ok(()) => {},
            Err(e) => {
                let r = Err(e);
                assert(named_entry_error(r, entries@, i as int, segment_config.vector_data@));
                assert(!named_entry_fits(entries@, i as int, segment_config.vector_data@));
                return r;
            },
        }
        i += 1;
    }
    Ok(())
}

/// A query holding a vector whose length differs from the declared size never
/// passes the check: the outcome is a `WrongVector` error that names the
/// declared size, whatever the offending length (zero or oversized alike).
/// For a single target vector the error also names that vector's length.
pub proof fn lemma_dimension_mismatch_rejected(
    r: Result<(), OperationError>,
    q: QueryVector,
    config: VectorDataConfig,
    i: int,
)
    requires
        0 <= i < query_data(q).len(),
        query_data(q)[i].len() != config.size,
        fit_outcome(r, query_data(q), config),
    ensures
        r matches Err(OperationError::WrongVector { expected_dim, received_dim }) && expected_dim == config.size,
        q is Nearest ==> r == Err::<(), OperationError>(
            OperationError::WrongVector { expected_dim: config.size, received_dim: q->Nearest_0@.len() as usize },
        ),
{
    let data = query_data(q);
    assert(vector_check(data[i], config) is Some);
    let e = r->Err_0;
    let k = choose|k: int|
        0 <= k < data.len() && all_fit(data.take(k), config) && vector_check(#[trigger] data[k], config) == Some(e);
    if q is Nearest {
        assert(k == 0);
    }
}

} // verus!
