//! Collecting discovered budget directories: cleaning a directory stem
//! into a display name and keeping each path once, in first-seen order.
//! Walking the file system stays outside the crate; candidates arrive as
//! plain (stem, path) pairs.

use vstd::prelude::*;

use crate::seqs::find_index;
use crate::seqs::lemma_find_index;
use vstd::string::StrSliceExecFns;

verus! {

/// A discovered budget: its display name and its directory path.
pub struct BudgetInfo {
    pub name: String,
    pub path: String,
}

impl View for BudgetInfo {
    type V = (Seq<char>, Seq<char>);

    open spec fn view(&self) -> (Seq<char>, Seq<char>) {
        (self.name@, self.path@)
    }
}

/// The view of a budget list.
pub open spec fn budgets_model(v: Seq<BudgetInfo>) -> Seq<(Seq<char>, Seq<char>)> {
    v.map_values(|b: BudgetInfo| b@)
}

/// The display name of a budget directory: its stem with everything from
/// the first `~` (a sync suffix) removed.
pub open spec fn clean_name_chars(s: Seq<char>) -> Seq<char> {
    match find_index(s, '~') {
        Some(i) => s.take(i),
        None => s,
    }
}

/// Strips the `~`-suffix from a budget directory stem.
pub fn clean_budget_name(name: &str) -> (r: String)
    ensures
        r@ == clean_name_chars(name@),
{
    let n = name.unicode_len();
    let mut i: usize = 0;
    while i < n
        invariant
            n == name@.len(),
            0 <= i <= n,
            forall|j: int| 0 <= j < i ==> name@[j] != '~',
        decreases n - i,
    {
        if name.get_char(i) == '~' {
            proof {
                lemma_find_index(name@, '~');
            }
            return name.substring_char(0, i).to_owned();
        }
        i = i + 1;
    }
    proof {
        lemma_find_index(name@, '~');
    }
    name.to_owned()
}

/// Whether a path already occurs in the list.
pub open spec fn has_path(acc: Seq<(Seq<char>, Seq<char>)>, path: Seq<char>) -> bool {
    exists|i: int| 0 <= i < acc.len() && (#[trigger] acc[i]).1 == path
}

/// Folds one candidate into the list: its cleaned name is kept under its
/// path, unless that path is already present.
pub open spec fn fold_budget(
    acc: Seq<(Seq<char>, Seq<char>)>,
    c: (Seq<char>, Seq<char>),
) -> Seq<(Seq<char>, Seq<char>)> {
    if has_path(acc, c.1) {
        acc
    } else {
        acc.push((clean_name_chars(c.0), c.1))
    }
}

/// The list obtained by folding the candidates left to right.
pub open spec fn collect_model(cands: Seq<(Seq<char>, Seq<char>)>) -> Seq<(Seq<char>, Seq<char>)>
    decreases cands.len(),
{
    if cands.len() == 0 {
        Seq::empty()
    } else {
        fold_budget(collect_model(cands.drop_last()), cands.last())
    }
}

/// Collected lists never hold a path twice.
pub proof fn lemma_collect_paths_distinct(cands: Seq<(Seq<char>, Seq<char>)>)
    ensures
        forall|i: int, j: int|
            0 <= i < j < collect_model(cands).len() ==> (#[trigger] collect_model(cands)[i]).1 != (
            #[trigger] collect_model(cands)[j]).1,
    decreases cands.len(),
{
    if cands.len() != 0 {
        lemma_collect_paths_distinct(cands.drop_last());
        let acc = collect_model(cands.drop_last());
        let c = cands.last();
        let m = collect_model(cands);
        if !has_path(acc, c.1) {
            assert forall|i: int, j: int| 0 <= i < j < m.len() implies (#[trigger] m[i]).1 != (
            #[trigger] m[j]).1 by {
                if j < acc.len() {
                    assert((acc[i]).1 != (acc[j]).1);
                } else {
                    assert(m[j] == (clean_name_chars(c.0), c.1));
                    assert((acc[i]).1 != c.1);
                }
            }
        }
    }
}

fn contains_path(v: &Vec<BudgetInfo>, path: &String) -> (r: bool)
    ensures
        r == has_path(budgets_model(v@), path@),
{
    let mut i: usize = 0;
    while i < v.len()
        invariant
            0 <= i <= v@.len(),
            forall|j: int| 0 <= j < i ==> (#[trigger] budgets_model(v@)[j]).1 != path@,
        decreases v@.len() - i,
    {
        if v[i].path.eq(path) {
            proof {
                assert((budgets_model(v@)[i as int]).1 == path@);
            }
            return true;
        }
        i = i + 1;
    }
    false
}

/// Collects budgets from raw (stem, path) candidates in order: each name
/// is cleaned, and a path already listed is not added again.
pub fn collect_budgets(candidates: &Vec<BudgetInfo>) -> (r: Vec<BudgetInfo>)
    ensures
        budgets_model(r@) == collect_model(budgets_model(candidates@)),
{
    let ghost cmodel = budgets_model(candidates@);
    let mut r: Vec<BudgetInfo> = Vec::new();
    let mut i: usize = 0;
    while i < candidates.len()
        invariant
            cmodel == budgets_model(candidates@),
            0 <= i <= candidates@.len(),
            budgets_model(r@) == collect_model(cmodel.take(i as int)),
        decreases candidates@.len() - i,
    {
        let c = &candidates[i];
        proof {
            assert(cmodel.take(i + 1).drop_last() =~= cmodel.take(i as int));
            assert(cmodel.take(i + 1).last() == c@);
        }
        if !contains_path(&r, &c.path) {
            let name = clean_budget_name(c.name.as_str());
            let path = c.path.clone();
            r.push(BudgetInfo { name, path });
            proof {
                assert(budgets_model(r@) =~= collect_model(cmodel.take(i as int)).push(
                    (clean_name_chars(c@.0), c@.1),
                ));
            }
        }
        i = i + 1;
    }
    proof {
        assert(cmodel.take(candidates@.len() as int) =~= cmodel);
    }
    r
}

} // verus!
