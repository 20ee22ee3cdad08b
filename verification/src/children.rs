//! Which named children a parent component takes: a parent that accepts only
//! some components refuses the first child of another, and a parent that
//! consumes some children as entries keeps the others as its content.

use vstd::prelude::*;
use crate::text::{str_equal, strings_view};

verus! {

/// Whether `name` is one of `accepted`.
pub open spec fn is_accepted(accepted: Seq<Seq<char>>, name: Seq<char>) -> bool {
    accepted.contains(name)
}

/// The index of the first child whose name is not accepted.
pub open spec fn first_refused(names: Seq<Seq<char>>, accepted: Seq<Seq<char>>) -> Option<int>
    decreases names.len(),
{
    if names.len() == 0 {
        None
    } else {
        match first_refused(names.drop_last(), accepted) {
            Some(i) => Some(i),
            None => if is_accepted(accepted, names.last()) {
                None
            } else {
                Some(names.len() - 1)
            },
        }
    }
}

fn accepts(accepted: &Vec<&str>, name: &str) -> (b: bool)
    ensures
        b == is_accepted(accepted@.map_values(|a: &str| a@), name@),
{
    let ghost view = accepted@.map_values(|a: &str| a@);
    let n = accepted.len();
    let mut i: usize = 0;
    while i < n
        invariant
            n == accepted@.len(),
            view == accepted@.map_values(|a: &str| a@),
            i <= n,
            forall|j: int| 0 <= j < i ==> view[j] != name@,
        decreases n - i,
    {
        if str_equal(accepted[i], name) {
            proof {
                assert(view[i as int] == name@);
            }
            return true;
        }
        i = i + 1;
    }
    false
}

/// Checks that every child is one the parent accepts; the first child that is
/// not is refused with `message` followed by its name.
pub fn accept_only(names: &Vec<String>, accepted: &Vec<&str>, message: &str) -> (r: Result<
    (),
    String,
>)
    ensures
        match first_refused(strings_view(names@), accepted@.map_values(|a: &str| a@)) {
            Some(i) => r matches Err(m) && m@ == message@ + strings_view(names@)[i],
            None => r is Ok,
        },
{
    let ghost v = strings_view(names@);
    let ghost acc = accepted@.map_values(|a: &str| a@);
    let n = names.len();
    let mut i: usize = 0;
    proof {
        assert(v.take(0) =~= Seq::<Seq<char>>::empty());
    }
    while i < n
        invariant
            n == names@.len(),
            v == strings_view(names@),
            acc == accepted@.map_values(|a: &str| a@),
            i <= n,
            first_refused(v.take(i as int), acc) is None,
        decreases n - i,
    {
        proof {
            assert(v.take(i + 1).drop_last() =~= v.take(i as int));
            assert(v.take(i + 1).last() == names@[i as int]@);
        }
        if !accepts(accepted, names[i].as_str()) {
            let m = String::from_str(message).concat(names[i].as_str());
            proof {
                assert(first_refused(v.take(i + 1), acc) == Some(i as int));
                lemma_first_refused_prefix(v, acc, i as int + 1);
                assert(m@ =~= message@ + v[i as int]);
            }
            return Err(m);
        }
        i = i + 1;
    }
    proof {
        assert(v.take(n as int) =~= v);
    }
    Ok(())
}

/// A parent refuses exactly the lists with a child it does not accept, and it
/// refuses the first such child: every child before it is accepted.
pub proof fn lemma_first_refused_is_the_first_unaccepted(
    names: Seq<Seq<char>>,
    accepted: Seq<Seq<char>>,
)
    ensures
        (exists|i: int| 0 <= i < names.len() && !accepted.contains(#[trigger] names[i]))
            <==> first_refused(names, accepted) is Some,
        first_refused(names, accepted) matches Some(i) ==> {
            &&& 0 <= i < names.len()
            &&& !accepted.contains(names[i])
            &&& forall|j: int| 0 <= j < i ==> accepted.contains(#[trigger] names[j])
        },
        first_refused(names, accepted) is None ==> forall|j: int|
            0 <= j < names.len() ==> accepted.contains(#[trigger] names[j]),
    decreases names.len(),
{
    if names.len() > 0 {
        let init = names.drop_last();
        lemma_first_refused_is_the_first_unaccepted(init, accepted);
        assert forall|j: int| 0 <= j < init.len() implies #[trigger] init[j] == names[j] by {}
        match first_refused(init, accepted) {
            Some(i) => {
                assert(names[i] == init[i]);
                assert forall|j: int| 0 <= j < i implies accepted.contains(#[trigger] names[j]) by {
                    assert(init[j] == names[j]);
                }
            },
            None => {
                assert forall|j: int| 0 <= j < init.len() implies accepted.contains(
                    #[trigger] names[j],
                ) by {
                    assert(init[j] == names[j]);
                }
                if !is_accepted(accepted, names.last()) {
                    assert(names[names.len() - 1] == names.last());
                } else {
                    assert forall|j: int| 0 <= j < names.len() implies accepted.contains(
                        #[trigger] names[j],
                    ) by {
                        if j < init.len() {
                            assert(init[j] == names[j]);
                        }
                    }
                }
            },
        }
    }
}

/// A refusal found in a prefix is the refusal of the whole list.
proof fn lemma_first_refused_prefix(names: Seq<Seq<char>>, accepted: Seq<Seq<char>>, k: int)
    requires
        0 <= k <= names.len(),
        first_refused(names.take(k), accepted) is Some,
    ensures
        first_refused(names, accepted) == first_refused(names.take(k), accepted),
    decreases names.len() - k,
{
    if k < names.len() {
        assert(names.take(k + 1).drop_last() =~= names.take(k));
        lemma_first_refused_prefix(names, accepted, k + 1);
    } else {
        assert(names.take(k) =~= names);
    }
}

/// The positions of the children named as `entries`, in order, and of the
/// others, in order.
pub open spec fn split_of(names: Seq<Seq<char>>, entries: Seq<Seq<char>>) -> (Seq<int>, Seq<int>)
    decreases names.len(),
{
    if names.len() == 0 {
        (Seq::empty(), Seq::empty())
    } else {
        let (e, t) = split_of(names.drop_last(), entries);
        let last = names.len() - 1;
        if is_accepted(entries, names.last()) {
            (e.push(last), t)
        } else {
            (e, t.push(last))
        }
    }
}

/// The split puts every child in exactly one place: the entries are the
/// positions of the children named in `entries` and the content the positions
/// of the others, each list in child order.
pub proof fn lemma_split_partitions(names: Seq<Seq<char>>, entries: Seq<Seq<char>>)
    ensures
        ({
            let (taken, kept) = split_of(names, entries);
            &&& taken.len() + kept.len() == names.len()
            &&& forall|k: int|
                0 <= k < taken.len() ==> 0 <= #[trigger] taken[k] < names.len() && entries.contains(
                    names[taken[k]],
                )
            &&& forall|k: int|
                0 <= k < kept.len() ==> 0 <= #[trigger] kept[k] < names.len() && !entries.contains(
                    names[kept[k]],
                )
            &&& forall|k: int, l: int| 0 <= k < l < taken.len() ==> taken[k] < taken[l]
            &&& forall|k: int, l: int| 0 <= k < l < kept.len() ==> kept[k] < kept[l]
        }),
    decreases names.len(),
{
    if names.len() > 0 {
        let init = names.drop_last();
        lemma_split_partitions(init, entries);
        let (t0, k0) = split_of(init, entries);
        let (taken, kept) = split_of(names, entries);
        let last = names.len() - 1;
        assert forall|j: int| 0 <= j < init.len() implies #[trigger] init[j] == names[j] by {}
        assert forall|k: int| 0 <= k < t0.len() implies names[t0[k]] == init[t0[k]] by {}
        assert forall|k: int| 0 <= k < k0.len() implies names[k0[k]] == init[k0[k]] by {}
        assert(names[last] == names.last());
    }
}

/// Splits the children into the entries a parent consumes (those named in
/// `entries`) and the content it keeps, each as positions in child order.
pub fn split_children(names: &Vec<String>, entries: &Vec<&str>) -> (split: (Vec<usize>, Vec<usize>))
    ensures
        split.0@.map_values(|i: usize| i as int) == split_of(
            strings_view(names@),
            entries@.map_values(|a: &str| a@),
        ).0,
        split.1@.map_values(|i: usize| i as int) == split_of(
            strings_view(names@),
            entries@.map_values(|a: &str| a@),
        ).1,
{
    let ghost v = strings_view(names@);
    let ghost acc = entries@.map_values(|a: &str| a@);
    let mut taken: Vec<usize> = Vec::new();
    let mut kept: Vec<usize> = Vec::new();
    let n = names.len();
    let mut i: usize = 0;
    proof {
        assert(v.take(0) =~= Seq::<Seq<char>>::empty());
        assert(taken@.map_values(|i: usize| i as int) =~= Seq::<int>::empty());
        assert(kept@.map_values(|i: usize| i as int) =~= Seq::<int>::empty());
    }
    while i < n
        invariant
            n == names@.len(),
            v == strings_view(names@),
            acc == entries@.map_values(|a: &str| a@),
            i <= n,
            taken@.map_values(|i: usize| i as int) == split_of(v.take(i as int), acc).0,
            kept@.map_values(|i: usize| i as int) == split_of(v.take(i as int), acc).1,
        decreases n - i,
    {
        proof {
            assert(v.take(i + 1).drop_last() =~= v.take(i as int));
            assert(v.take(i + 1).last() == names@[i as int]@);
        }
        let ghost before_taken = taken@.map_values(|i: usize| i as int);
        let ghost before_kept = kept@.map_values(|i: usize| i as int);
        if accepts(entries, names[i].as_str()) {
            taken.push(i);
            proof {
                assert(taken@.map_values(|i: usize| i as int) =~= before_taken.push(i as int));
            }
        } else {
            kept.push(i);
            proof {
                assert(kept@.map_values(|i: usize| i as int) =~= before_kept.push(i as int));
            }
        }
        i = i + 1;
    }
    proof {
        assert(v.take(n as int) =~= v);
    }
    (taken, kept)
}

} // verus!
