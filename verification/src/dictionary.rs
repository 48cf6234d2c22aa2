//! Ordered mappings of dynamic values: the foreign-ABI container
//! instantiated at key–value pairs, with the host's construction rule
//! — entries whose value converts to absence are dropped.

use vstd::prelude::*;

use crate::array::IntoObject;
use crate::collection::Collection;
use crate::non_owning::NonOwning;
use crate::object::{dict_view, lemma_dict_view_push, Object, ObjectView};

verus! {

/// An ordered mapping from dynamic values to dynamic values, stored as
/// a contiguous sequence of pairs in the shape the foreign ABI
/// expects.
pub type Dictionary = Collection<(Object, Object)>;

/// Keeps only the entries whose value is not absence.
pub open spec fn non_nil_entries(s: Seq<(ObjectView, ObjectView)>) -> Seq<
    (ObjectView, ObjectView),
> {
    s.filter(|e: (ObjectView, ObjectView)| !(e.1 is Nil))
}

impl Dictionary {
    /// Builds a mapping from native key–value pairs, converting each
    /// side and dropping entries whose value converts to absence — the
    /// host's mapping construction semantics.
    pub fn from_pairs<K: IntoObject, V: IntoObject>(pairs: Vec<(K, V)>) -> (r: Dictionary)
        ensures
            dict_view(r@) == non_nil_entries(
                pairs@.map_values(|p: (K, V)| (p.0.object_view(), p.1.object_view())),
            ),
    {
        let ghost source: Seq<(K, V)> = pairs@;
        let mut pairs = pairs;
        let mut out: Dictionary = Collection::new();
        let ghost mut done: int = 0;
        proof {
            assert(pairs@ =~= source.skip(0));
            assert(source.take(0).map_values(|p: (K, V)| (p.0.object_view(), p.1.object_view()))
                =~= Seq::<(ObjectView, ObjectView)>::empty());
            reveal(Seq::filter);
        }
        while pairs.len() != 0
            invariant
                0 <= done <= source.len(),
                pairs@ == source.skip(done),
                dict_view(out@) == non_nil_entries(
                    source.take(done).map_values(
                        |p: (K, V)| (p.0.object_view(), p.1.object_view()),
                    ),
                ),
            decreases pairs@.len(),
        {
            let ghost taken_before: Seq<(ObjectView, ObjectView)> = source.take(done).map_values(
                |p: (K, V)| (p.0.object_view(), p.1.object_view()),
            );
            let pair = pairs.remove(0);
            proof {
                assert(pair == source[done]);
                assert(pairs@ =~= source.skip(done + 1));
            }
            let key = pair.0.into_object();
            let value = pair.1.into_object();
            let ghost out_before: Seq<(Object, Object)> = out@;
            let ghost image: (ObjectView, ObjectView) = (key@, value@);
            if value.is_some() {
                out.push((key, value));
                proof {
                    lemma_dict_view_push(out_before, (key, value));
                }
            }
            proof {
                let taken_after = source.take(done + 1).map_values(
                    |p: (K, V)| (p.0.object_view(), p.1.object_view()),
                );
                assert(source.take(done + 1) =~= source.take(done).push(source[done]));
                assert(taken_after =~= taken_before.push(image));
                lemma_non_nil_entries_push(taken_before, image);
                done = done + 1;
            }
        }
        proof {
            assert(source.take(done) =~= source);
        }
        out
    }

    /// Make a non-owning version of this `Dictionary`.
    pub fn non_owning<'a>(&'a self) -> (r: NonOwning<'a, Dictionary>)
        ensures
            r@ == self@,
    {
        NonOwning::new(self)
    }
}

/// Filtering one more entry keeps it exactly when its value is not
/// absence.
pub proof fn lemma_non_nil_entries_push(
    s: Seq<(ObjectView, ObjectView)>,
    e: (ObjectView, ObjectView),
)
    ensures
        !(e.1 is Nil) ==> non_nil_entries(s.push(e)) == non_nil_entries(s).push(e),
        e.1 is Nil ==> non_nil_entries(s.push(e)) == non_nil_entries(s),
{
    reveal(Seq::filter);
    assert(s.push(e).drop_last() =~= s);
    assert(s.push(e).last() == e);
}

} // verus!
