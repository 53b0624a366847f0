//! Which parameters of a query are embedded before the query is sent.
use vstd::prelude::*;

use crate::gateway::introspection::EmbeddingConfig;

verus! {

/// The text of the first parameter named `key`, where that parameter is a string;
/// `None` where there is no such parameter or it is not a string.
pub open spec fn param_text(params: Seq<(String, Option<String>)>, key: Seq<char>) -> Option<Seq<char>> {
    if exists|i: int| 0 <= i < params.len() && (#[trigger] params[i]).0@ == key {
        let i = choose|i: int|
            0 <= i < params.len() && (#[trigger] params[i]).0@ == key && forall|j: int|
                0 <= j < i ==> (#[trigger] params[j]).0@ != key;
        match params[i].1 {
            Some(t) => Some(t@),
            None => None,
        }
    } else {
        None
    }
}

/// The (variable, text) pairs to embed: each embedded variable, in order, whose
/// parameter is a string.
pub open spec fn texts_for(vars: Seq<String>, params: Seq<(String, Option<String>)>) -> Seq<
    (Seq<char>, Seq<char>),
>
    decreases vars.len(),
{
    if vars.len() == 0 {
        Seq::empty()
    } else {
        let rest = texts_for(vars.drop_last(), params);
        match param_text(params, vars.last()@) {
            Some(t) => rest.push((vars.last()@, t)),
            None => rest,
        }
    }
}

pub open spec fn pairs_view(v: Seq<(String, String)>) -> Seq<(Seq<char>, Seq<char>)> {
    v.map_values(|p: (String, String)| (p.0@, p.1@))
}

/// Proves that some index names `key` and none before it does, given that some index names it.
proof fn lemma_first_match_exists(params: Seq<(String, Option<String>)>, key: Seq<char>, k: int)
    requires
        0 <= k < params.len(),
        params[k].0@ == key,
    ensures
        exists|i: int|
            0 <= i < params.len() && (#[trigger] params[i]).0@ == key && forall|j: int|
                0 <= j < i ==> (#[trigger] params[j]).0@ != key,
    decreases k,
{
    if exists|j: int| 0 <= j < k && (#[trigger] params[j]).0@ == key {
        let j = choose|j: int| 0 <= j < k && (#[trigger] params[j]).0@ == key;
        lemma_first_match_exists(params, key, j);
    } else {
        assert(forall|j: int| 0 <= j < k ==> (#[trigger] params[j]).0@ != key);
    }
}

/// The text of the first parameter named `key`, where it is a string.
fn lookup_text(params: &Vec<(String, Option<String>)>, key: &String) -> (r: Option<String>)
    ensures
        match r {
            Some(t) => param_text(params@, key@) == Some(t@),
            None => param_text(params@, key@).is_none(),
        },
{
    let mut i: usize = 0;
    while i < params.len()
        invariant
            i <= params@.len(),
            forall|j: int| 0 <= j < i ==> (#[trigger] params@[j]).0@ != key@,
        decreases params@.len() - i,
    {
        if params[i].0 == *key {
            proof {
                lemma_first_match_exists(params@, key@, i as int);
                let c = choose|c: int|
                    0 <= c < params@.len() && (#[trigger] params@[c]).0@ == key@ && forall|j: int|
                        0 <= j < c ==> (#[trigger] params@[j]).0@ != key@;
                if c < i {
                } else if c > i {
                    assert(params@[i as int].0@ != key@);
                }
                assert(c == i);
            }
            return match &params[i].1 {
                Some(t) => Some(t.clone()),
                None => None,
            };
        }
        i = i + 1;
    }
    None
}

/// Collects the texts to embed for a query: for each embedded variable, in order, the
/// text of the parameter of that name where the parameter is a string.
pub fn texts_to_embed(config: &EmbeddingConfig, params: &Vec<(String, Option<String>)>) -> (r: Vec<
    (String, String),
>)
    ensures
        pairs_view(r@) == texts_for(config.embedded_variables@, params@),
{
    let vars = &config.embedded_variables;
    let mut out: Vec<(String, String)> = Vec::new();
    let mut i: usize = 0;
    while i < vars.len()
        invariant
            i <= vars@.len(),
            vars == &config.embedded_variables,
            pairs_view(out@) == texts_for(vars@.take(i as int), params@),
        decreases vars@.len() - i,
    {
        let ghost prev = out@;
        let key = &vars[i];
        assert(vars@.take(i + 1).drop_last() =~= vars@.take(i as int));
        assert(vars@.take(i + 1).last() == vars@[i as int]);
        match lookup_text(params, key) {
            Some(t) => {
                out.push((key.clone(), t));
                assert(pairs_view(out@) =~= pairs_view(prev).push((key@, t@)));
            },
            None => {},
        }
        i = i + 1;
    }
    assert(vars@.take(vars@.len() as int) =~= vars@);
    out
}

} // verus!
