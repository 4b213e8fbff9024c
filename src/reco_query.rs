use vstd::prelude::*;

use crate::types::ScoreType;

verus! {

/// A recommendation query: vectors to move towards and vectors to move away from.
#[derive(Debug, Clone)]
pub struct RecoQuery<T> {
    pub positives: Vec<T>,
    pub negatives: Vec<T>,
}

/// The folded score of a recommendation query: a finite integer, or negative
/// infinity when the query holds no vector at all.
#[derive(Clone, Copy, Debug, PartialEq, Eq, Structural)]
pub enum RecoScore {
    NegInfinity,
    Value(i64),
}

impl View for RecoScore {
    /// `None` stands for negative infinity.
    type V = Option<int>;

    open spec fn view(&self) -> Option<int> {
        match self {
            RecoScore::NegInfinity => None,
            RecoScore::Value(v) => Some(*v as int),
        }
    }
}

/// The largest element of `s`, or `None` when `s` is empty.
pub open spec fn max_of(s: Seq<ScoreType>) -> Option<int>
    decreases s.len(),
{
    if s.len() == 0 {
        None
    } else {
        let last = s.last() as int;
        match max_of(s.drop_last()) {
            None => Some(last),
            Some(m) => Some(if m >= last { m } else { last }),
        }
    }
}

/// The score of a query whose positives have similarities `pos` and whose
/// negatives have similarities `neg`: the best positive when it beats the best
/// negative, otherwise the negated square of the best negative. An absent side
/// counts as negative infinity; `None` is negative infinity.
pub open spec fn fold_similarities(pos: Seq<ScoreType>, neg: Seq<ScoreType>) -> Option<int> {
    match (max_of(pos), max_of(neg)) {
        (Some(p), Some(n)) => if p > n { Some(p) } else { Some(-(n * n)) },
        (Some(p), None) => Some(p),
        (None, Some(n)) => Some(-(n * n)),
        (None, None) => None,
    }
}

pub open spec fn opt_int(o: Option<ScoreType>) -> Option<int> {
    match o {
        None => None,
        Some(v) => Some(v as int),
    }
}

/// The largest element of a non-empty sequence is one of its elements and
/// bounds all of them.
pub proof fn lemma_max_of(s: Seq<ScoreType>)
    ensures
        s.len() == 0 <==> max_of(s) is None,
        s.len() > 0 ==> (exists|i: int| 0 <= i < s.len() && max_of(s) == Some(s[i] as int)),
        forall|i: int| 0 <= i < s.len() ==> s[i] <= max_of(s)->Some_0,
    decreases s.len(),
{
    if s.len() > 0 {
        let t = s.drop_last();
        lemma_max_of(t);
        assert forall|i: int| 0 <= i < s.len() implies s[i] <= max_of(s)->Some_0 by {
            if i < s.len() - 1 {
                assert(s[i] == t[i]);
            }
        }
        if t.len() > 0 && max_of(t)->Some_0 >= s.last() {
            let j = choose|j: int| 0 <= j < t.len() && max_of(t) == Some(t[j] as int);
            assert(s[j] == t[j]);
        } else {
            assert(max_of(s) == Some(s[s.len() - 1] as int));
        }
    }
}

/// With no negatives, the score of a query with at least one positive is the
/// largest similarity to a positive.
pub proof fn lemma_positives_only(pos: Seq<ScoreType>, neg: Seq<ScoreType>)
    requires
        neg.len() == 0,
        pos.len() > 0,
    ensures
        fold_similarities(pos, neg) == max_of(pos),
        exists|i: int| 0 <= i < pos.len() && fold_similarities(pos, neg) == Some(pos[i] as int),
        forall|i: int| 0 <= i < pos.len() ==> pos[i] <= fold_similarities(pos, neg)->Some_0,
{
    lemma_max_of(pos);
    lemma_max_of(neg);
}

/// With no positives, the score of a query with at least one negative is the
/// negated square of the largest similarity to a negative.
pub proof fn lemma_negatives_only(pos: Seq<ScoreType>, neg: Seq<ScoreType>)
    requires
        pos.len() == 0,
        neg.len() > 0,
    ensures
        fold_similarities(pos, neg) == Some(-(max_of(neg)->Some_0 * max_of(neg)->Some_0)),
        exists|i: int|
            0 <= i < neg.len() && fold_similarities(pos, neg) == Some(-(neg[i] * neg[i])),
        forall|i: int| 0 <= i < neg.len() ==> neg[i] <= max_of(neg)->Some_0,
{
    lemma_max_of(pos);
    lemma_max_of(neg);
}

/// A query without positives and without negatives scores negative infinity.
pub proof fn lemma_empty_query(pos: Seq<ScoreType>, neg: Seq<ScoreType>)
    requires
        pos.len() == 0,
        neg.len() == 0,
    ensures
        fold_similarities(pos, neg) is None,
{
    lemma_max_of(pos);
    lemma_max_of(neg);
}

/// When the best positive and the best negative are equally similar, the
/// negative side decides: the score is the negated square of that similarity.
pub proof fn lemma_tie_goes_to_negatives(pos: Seq<ScoreType>, neg: Seq<ScoreType>)
    requires
        pos.len() > 0,
        neg.len() > 0,
        max_of(pos) == max_of(neg),
    ensures
        fold_similarities(pos, neg) == Some(-(max_of(neg)->Some_0 * max_of(neg)->Some_0)),
{
    lemma_max_of(pos);
    lemma_max_of(neg);
}

fn max_similarity(s: &Vec<ScoreType>) -> (r: Option<ScoreType>)
    ensures
        opt_int(r) == max_of(s@),
{
    let mut best: Option<ScoreType> = None;
    let mut i: usize = 0;
    while i < s.len()
        invariant
            0 <= i <= s@.len(),
            opt_int(best) == max_of(s@.take(i as int)),
        decreases s@.len() - i,
    {
        let x = s[i];
        assert(s@.take(i + 1).drop_last() == s@.take(i as int));
        best = match best {
            None => Some(x),
            Some(b) => if b >= x { Some(b) } else { Some(x) },
        };
        i += 1;
    }
    assert(s@.take(s@.len() as int) == s@);
    best
}

/// Folds the similarities to the positives and to the negatives of a query
/// into one score.
pub fn merge_similarities(positives: &Vec<ScoreType>, negatives: &Vec<ScoreType>) -> (r: RecoScore)
    ensures
        r@ == fold_similarities(positives@, negatives@),
{
    let max_positive = max_similarity(positives);
    let max_negative = max_similarity(negatives);
    match (max_positive, max_negative) {
        (Some(p), Some(n)) => {
            if p > n {
                RecoScore::Value(p as i64)
            } else {
                RecoScore::Value(negated_square(n))
            }
        },
        (Some(p), None) => RecoScore::Value(p as i64),
        (None, Some(n)) => RecoScore::Value(negated_square(n)),
        (None, None) => RecoScore::NegInfinity,
    }
}

fn negated_square(n: ScoreType) -> (r: i64)
    ensures
        r == -(n * n),
{
    let w = n as i64;
    assert(0 <= w * w <= 0x4000_0000_0000_0000) by (nonlinear_arith)
        requires
            -0x8000_0000 <= w <= 0x7fff_ffff,
    ;
    -(w * w)
}

/// The similarities of `items`, in order, as computed by `similarity`.
fn similarities<T, F: Fn(&T) -> ScoreType>(items: &Vec<T>, similarity: &F) -> (r: Vec<ScoreType>)
    requires
        forall|x: &T| similarity.requires((x,)),
    ensures
        r@.len() == items@.len(),
        forall|i: int| 0 <= i < items@.len() ==> similarity.ensures((&items@[i],), r@[i]),
{
    let mut out: Vec<ScoreType> = Vec::new();
    let mut i: usize = 0;
    while i < items.len()
        invariant
            0 <= i <= items@.len(),
            out@.len() == i,
            forall|x: &T| similarity.requires((x,)),
            forall|j: int| 0 <= j < i ==> similarity.ensures((&items@[j],), out@[j]),
        decreases items@.len() - i,
    {
        let s = similarity(&items[i]);
        out.push(s);
        i += 1;
    }
    out
}

/// Applies `f` to each element of `v`, in order.
fn map_all<T, U, F: Fn(T) -> U>(v: Vec<T>, f: &F) -> (r: Vec<U>)
    requires
        forall|x: T| f.requires((x,)),
    ensures
        r@.len() == v@.len(),
        forall|i: int| 0 <= i < v@.len() ==> f.ensures((v@[i],), r@[i]),
{
    let ghost orig = v@;
    let mut rest = v;
    let mut out: Vec<U> = Vec::new();
    while rest.len() > 0
        invariant
            forall|x: T| f.requires((x,)),
            out@.len() + rest@.len() == orig.len(),
            rest@ == orig.skip(out@.len() as int),
            forall|j: int| 0 <= j < out@.len() ==> f.ensures((orig[j],), out@[j]),
        decreases rest@.len(),
    {
        let x = rest.remove(0);
        let y = f(x);
        out.push(y);
    }
    out
}

impl<T> RecoQuery<T> {
    pub fn new(positives: Vec<T>, negatives: Vec<T>) -> (r: Self)
        ensures
            r.positives@ == positives@,
            r.negatives@ == negatives@,
    {
        Self { positives, negatives }
    }

    /// All vectors of the query: the positives, then the negatives, each in
    /// insertion order.
    pub fn iter_all(&self) -> (r: Vec<&T>)
        ensures
            r@.len() == self.positives@.len() + self.negatives@.len(),
            forall|i: int| 0 <= i < self.positives@.len() ==> *r@[i] == self.positives@[i],
            forall|i: int|
                0 <= i < self.negatives@.len() ==> *r@[self.positives@.len() + i]
                    == self.negatives@[i],
    {
        let mut out: Vec<&T> = Vec::new();
        let mut i: usize = 0;
        while i < self.positives.len()
            invariant
                0 <= i <= self.positives@.len(),
                out@.len() == i,
                forall|j: int| 0 <= j < i ==> *out@[j] == self.positives@[j],
            decreases self.positives@.len() - i,
        {
            out.push(&self.positives[i]);
            i += 1;
        }
        let mut k: usize = 0;
        while k < self.negatives.len()
            invariant
                0 <= k <= self.negatives@.len(),
                out@.len() == self.positives@.len() + k,
                forall|j: int| 0 <= j < self.positives@.len() ==> *out@[j] == self.positives@[j],
                forall|j: int|
                    0 <= j < k ==> *out@[self.positives@.len() + j] == self.negatives@[j],
            decreases self.negatives@.len() - k,
        {
            out.push(&self.negatives[k]);
            k += 1;
        }
        out
    }

    /// Maps every positive and every negative through `f`, keeping both lists
    /// and their order.
    pub fn transform<U, F: Fn(T) -> U>(self, f: F) -> (r: RecoQuery<U>)
        requires
            forall|x: T| f.requires((x,)),
        ensures
            r.positives@.len() == self.positives@.len(),
            r.negatives@.len() == self.negatives@.len(),
            forall|i: int|
                0 <= i < self.positives@.len() ==> f.ensures((self.positives@[i],), r.positives@[i]),
            forall|i: int|
                0 <= i < self.negatives@.len() ==> f.ensures((self.negatives@[i],), r.negatives@[i]),
    {
        let positives = map_all(self.positives, &f);
        let negatives = map_all(self.negatives, &f);
        RecoQuery::new(positives, negatives)
    }

    /// Compares every vector of the query with one target through `similarity`
    /// and folds the similarities into a single score.
    pub fn score_by<F: Fn(&T) -> ScoreType>(&self, similarity: F) -> (r: RecoScore)
        requires
            forall|x: &T| similarity.requires((x,)),
        ensures
            exists|ps: Seq<ScoreType>, ns: Seq<ScoreType>|
                ps.len() == self.positives@.len() && ns.len() == self.negatives@.len() && (forall|
                    i: int,
                | 0 <= i < ps.len() ==> similarity.ensures((&self.positives@[i],), ps[i])) && (
                forall|i: int|
                    0 <= i < ns.len() ==> similarity.ensures((&self.negatives@[i],), ns[i]))
                    && r@ == fold_similarities(ps, ns),
    {
        let positive_similarities = similarities(&self.positives, &similarity);
        let negative_similarities = similarities(&self.negatives, &similarity);
        merge_similarities(&positive_similarities, &negative_similarities)
    }
}

} // verus!
