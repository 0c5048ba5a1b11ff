use vstd::prelude::*;
use crate::short_path::{short_path, short_path_of};

verus! {

/// What became of one discovered file.
#[derive(Debug)]
pub enum Outcome {
    /// The file was converted; `name` is its short identifier.
    Converted { name: String },
    /// The file could not be opened or converted, or has no short identifier.
    Failed,
}

/// The outcome of the unit of work for the file at `path`, given whether its
/// conversion succeeded.
pub open spec fn outcome_of(path: Seq<char>, converted: bool) -> Option<Seq<char>> {
    if converted {
        short_path_of(path)
    } else {
        None
    }
}

/// The outcome for the file at `path`: converted under its short identifier
/// where the conversion succeeded and the path has one, failed otherwise.
pub fn conversion_outcome(path: &str, converted: bool) -> (r: Outcome)
    ensures
        match (r, outcome_of(path@, converted)) {
            (Outcome::Converted { name }, Some(u)) => name@ == u,
            (Outcome::Failed, None) => true,
            _ => false,
        },
{
    if !converted {
        return Outcome::Failed;
    }
    match short_path(path) {
        Some(name) => Outcome::Converted { name },
        None => Outcome::Failed,
    }
}

/// The short identifiers of the converted files, in the order of `o`.
pub open spec fn successes(o: Seq<Outcome>) -> Seq<Seq<char>>
    decreases o.len(),
{
    if o.len() == 0 {
        Seq::empty()
    } else {
        let s = successes(o.drop_last());
        match o.last() {
            Outcome::Converted { name } => s.push(name@),
            Outcome::Failed => s,
        }
    }
}

/// The views of a list of strings.
pub open spec fn views(v: Seq<String>) -> Seq<Seq<char>> {
    v.map_values(|s: String| s@)
}

/// The identifiers to report, one for each converted file, in the order in
/// which the outcomes were collected; failed files are left out.
pub fn converted_names(outcomes: &Vec<Outcome>) -> (r: Vec<String>)
    ensures
        views(r@) == successes(outcomes@),
{
    let mut r: Vec<String> = Vec::new();
    let mut i: usize = 0;
    while i < outcomes.len()
        invariant
            i <= outcomes@.len(),
            views(r@) == successes(outcomes@.take(i as int)),
        decreases outcomes@.len() - i,
    {
        proof {
            assert(outcomes@.take(i + 1).drop_last() =~= outcomes@.take(i as int));
        }
        match &outcomes[i] {
            Outcome::Converted { name } => {
                r.push(name.clone());
                assert(views(r@) =~= successes(outcomes@.take(i as int)).push(name@));
            },
            Outcome::Failed => {},
        }
        i = i + 1;
    }
    assert(outcomes@.take(i as int) =~= outcomes@);
    r
}

/// The report of a batch made of two parts is the report of the first
/// followed by the report of the second.
pub proof fn successes_of_concat(a: Seq<Outcome>, b: Seq<Outcome>)
    ensures
        successes(a + b) == successes(a) + successes(b),
    decreases b.len(),
{
    if b.len() == 0 {
        assert(a + b =~= a);
        assert(successes(a) + successes(b) =~= successes(a));
    } else {
        successes_of_concat(a, b.drop_last());
        assert((a + b).drop_last() =~= a + b.drop_last());
        match b.last() {
            Outcome::Converted { name } => {
                assert(successes(a) + successes(b) =~= (successes(a) + successes(b.drop_last())).push(name@));
            },
            Outcome::Failed => {},
        }
    }
}

/// Where every file was converted, the report holds one identifier per file,
/// each file's own, in the order of the outcomes.
pub proof fn all_converted_all_reported(o: Seq<Outcome>)
    requires
        forall|i: int| 0 <= i < o.len() ==> (#[trigger] o[i]) is Converted,
    ensures
        successes(o).len() == o.len(),
        forall|i: int| 0 <= i < o.len() ==>
            ((#[trigger] o[i]) matches Outcome::Converted { name } && successes(o)[i] == name@),
    decreases o.len(),
{
    if o.len() > 0 {
        let p = o.drop_last();
        assert forall|i: int| 0 <= i < p.len() implies (#[trigger] p[i]) is Converted by {
            assert(p[i] == o[i]);
        }
        all_converted_all_reported(p);
        assert(o.last() == o[o.len() - 1]);
        assert forall|i: int| 0 <= i < o.len() implies
            ((#[trigger] o[i]) matches Outcome::Converted { name } && successes(o)[i] == name@) by {
            if i < p.len() {
                assert(p[i] == o[i]);
            }
        }
    }
}

/// One failed file does not keep the others from being reported: the report
/// is that of the batch without the failed outcome, one identifier per other
/// file.
pub proof fn one_failure_reports_the_rest(o: Seq<Outcome>, k: int)
    requires
        0 <= k < o.len(),
        o[k] is Failed,
        forall|i: int| 0 <= i < o.len() && i != k ==> (#[trigger] o[i]) is Converted,
    ensures
        successes(o) == successes(o.remove(k)),
        successes(o).len() == o.len() - 1,
{
    let a = o.take(k);
    let b = o.skip(k + 1);
    assert(o =~= a + seq![o[k]] + b);
    assert(o.remove(k) =~= a + b);
    successes_of_concat(a + seq![o[k]], b);
    successes_of_concat(a, seq![o[k]]);
    successes_of_concat(a, b);
    assert(seq![o[k]].drop_last() =~= Seq::<Outcome>::empty());
    assert(seq![o[k]].last() == o[k]);
    assert(successes(Seq::<Outcome>::empty()) =~= Seq::<Seq<char>>::empty());
    assert(successes(seq![o[k]]) =~= Seq::<Seq<char>>::empty());
    let r = o.remove(k);
    assert forall|i: int| 0 <= i < r.len() implies (#[trigger] r[i]) is Converted by {
        if i < k {
            assert(r[i] == o[i]);
        } else {
            assert(r[i] == o[i + 1]);
        }
    }
    all_converted_all_reported(r);
}

} // verus!
