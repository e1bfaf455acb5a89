//! Lookups in a backend's catalog of models.

use vstd::prelude::*;
use crate::lookup::{first_matching, lemma_first_matching, lemma_first_matching_step, lemma_only_match};
use crate::model::{ModelInfo, ModelSpec};
use crate::text::str_eq;

verus! {

/// The entries of a catalog as mathematical values.
pub open spec fn model_specs(models: Seq<ModelInfo>) -> Seq<ModelSpec> {
    Seq::new(models.len(), |i: int| models[i]@)
}

/// The first entry of the catalog with the given id.
pub open spec fn find_id(catalog: Seq<ModelSpec>, id: i32) -> Option<ModelSpec> {
    first_matching(catalog, |m: ModelSpec| m.id == id)
}

/// The first entry of the catalog with the given name.
pub open spec fn find_name(catalog: Seq<ModelSpec>, name: Seq<char>) -> Option<ModelSpec> {
    first_matching(catalog, |m: ModelSpec| m.name == name)
}

/// Whether no two entries of the catalog share an id.
pub open spec fn has_unique_ids(catalog: Seq<ModelSpec>) -> bool {
    forall|i: int, j: int|
        0 <= i < catalog.len() && 0 <= j < catalog.len() && i != j ==> catalog[i].id
            != catalog[j].id
}

/// In a catalog without a repeated id, looking an entry up by its own id
/// finds that entry.
pub proof fn lemma_find_id_of_member(catalog: Seq<ModelSpec>, m: ModelSpec)
    requires
        has_unique_ids(catalog),
        catalog.contains(m),
    ensures
        find_id(catalog, m.id) == Some(m),
{
    let wanted = |x: ModelSpec| x.id == m.id;
    let k = choose|k: int| 0 <= k < catalog.len() && catalog[k] == m;
    assert forall|i: int| 0 <= i < catalog.len() && wanted(#[trigger] catalog[i]) implies catalog[i]
        == m by {
        assert(i == k);
    }
    lemma_only_match(catalog, wanted, m);
}

/// An entry that a lookup by name finds stands in the catalog.
pub proof fn lemma_find_name_is_member(catalog: Seq<ModelSpec>, name: Seq<char>)
    ensures
        find_name(catalog, name) matches Some(m) ==> m.name == name && catalog.contains(m),
{
    lemma_first_matching(catalog, |m: ModelSpec| m.name == name);
}

/// The first model of the catalog with the given id.
pub fn find_by_id(models: &Vec<ModelInfo>, id: i32) -> (found: Option<ModelInfo>)
    ensures
        match found {
            Some(m) => find_id(model_specs(models@), id) == Some(m@),
            None => find_id(model_specs(models@), id) is None,
        },
{
    let ghost catalog = model_specs(models@);
    let ghost wanted = |m: ModelSpec| m.id == id;
    let n: usize = models.len();
    let mut i: usize = 0;
    assert(catalog.skip(0) =~= catalog);
    while i < n
        invariant
            n == models@.len(),
            i <= n,
            catalog == model_specs(models@),
            wanted == |m: ModelSpec| m.id == id,
            first_matching(catalog, wanted) == first_matching(catalog.skip(i as int), wanted),
        decreases n - i,
    {
        let m = models[i];
        proof {
            lemma_first_matching_step(catalog, wanted, i as int);
        }
        if m.id == id {
            return Some(m);
        }
        i += 1;
    }
    None
}

/// The first model of the catalog with the given name.
pub fn find_by_name(models: &Vec<ModelInfo>, name: &str) -> (found: Option<ModelInfo>)
    ensures
        match found {
            Some(m) => find_name(model_specs(models@), name@) == Some(m@),
            None => find_name(model_specs(models@), name@) is None,
        },
{
    let ghost catalog = model_specs(models@);
    let ghost wanted = |m: ModelSpec| m.name == name@;
    let n: usize = models.len();
    let mut i: usize = 0;
    assert(catalog.skip(0) =~= catalog);
    while i < n
        invariant
            n == models@.len(),
            i <= n,
            catalog == model_specs(models@),
            wanted == |m: ModelSpec| m.name == name@,
            first_matching(catalog, wanted) == first_matching(catalog.skip(i as int), wanted),
        decreases n - i,
    {
        let m = models[i];
        proof {
            lemma_first_matching_step(catalog, wanted, i as int);
        }
        if str_eq(m.name, name) {
            return Some(m);
        }
        i += 1;
    }
    None
}

} // verus!
