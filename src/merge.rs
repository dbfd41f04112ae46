use vstd::prelude::*;

use crate::std_path::{self, components_of, joined, path_separator, texts};

verus! {

/// Whether a component of the appended path is kept by a merge: it must
/// have a first character, and that character must not be a separator.
pub open spec fn keeps(c: Seq<char>) -> bool {
    c.len() > 0 && !path_separator(c[0])
}

/// The components that a merge keeps, in order.
pub open spec fn kept(cs: Seq<Seq<char>>) -> Seq<Seq<char>>
    decreases cs.len(),
{
    if cs.len() == 0 {
        Seq::empty()
    } else if keeps(cs.last()) {
        kept(cs.drop_last()).push(cs.last())
    } else {
        kept(cs.drop_last())
    }
}

/// The text of `base` merged with `append`: the components of `base`, then
/// those of `append` that `keeps` accepts, joined into one path.
pub open spec fn merged(base: Seq<char>, append: Seq<char>) -> Seq<char> {
    joined(components_of(base) + kept(components_of(append)))
}

/// A sequence whose components are all kept is kept whole.
pub proof fn lemma_kept_all(cs: Seq<Seq<char>>)
    requires
        forall|i: int| 0 <= i < cs.len() ==> keeps(cs[i]),
    ensures
        kept(cs) == cs,
    decreases cs.len(),
{
    if cs.len() > 0 {
        lemma_kept_all(cs.drop_last());
        assert(kept(cs.drop_last()).push(cs.last()) =~= cs);
    }
}

/// A sequence whose first component alone is left out loses just that one.
pub proof fn lemma_kept_skips_first(cs: Seq<Seq<char>>)
    requires
        cs.len() > 0,
        !keeps(cs[0]),
        forall|i: int| 1 <= i < cs.len() ==> keeps(cs[i]),
    ensures
        kept(cs) == cs.drop_first(),
    decreases cs.len(),
{
    if cs.len() == 1 {
        assert(cs.drop_last() =~= Seq::<Seq<char>>::empty());
        assert(cs.drop_first() =~= Seq::<Seq<char>>::empty());
        assert(!keeps(cs.last()));
        assert(kept(cs.drop_last()) =~= Seq::<Seq<char>>::empty());
        assert(kept(cs) == kept(cs.drop_last()));
    } else {
        assert(keeps(cs[cs.len() - 1]));
        assert(cs.drop_last()[0] == cs[0]);
        lemma_kept_skips_first(cs.drop_last());
        assert(cs.drop_last().drop_first().push(cs.last()) =~= cs.drop_first());
        assert(kept(cs) == kept(cs.drop_last()).push(cs.last()));
    }
}

/// Where the first component of `append` begins with a separator and every
/// other one is a name that does not, the merge is `base`'s components
/// followed by `append`'s without that leading marker.
pub proof fn law_merge_drops_leading_marker(base: Seq<char>, append: Seq<char>)
    requires
        components_of(append).len() > 0,
        components_of(append)[0].len() > 0,
        path_separator(components_of(append)[0][0]),
        forall|i: int| 1 <= i < components_of(append).len() ==> keeps(components_of(append)[i]),
    ensures
        merged(base, append) == joined(components_of(base) + components_of(append).drop_first()),
{
    lemma_kept_skips_first(components_of(append));
}

/// Where no component of `append` is empty or begins with a separator, the
/// merge is `base`'s components followed by all of `append`'s.
pub proof fn law_merge_concatenates(base: Seq<char>, append: Seq<char>)
    requires
        forall|i: int| 0 <= i < components_of(append).len() ==> keeps(components_of(append)[i]),
    ensures
        merged(base, append) == joined(components_of(base) + components_of(append)),
{
    lemma_kept_all(components_of(append));
}

/// Merges path `base` with path `append` (see `merged`).
pub fn merge_paths(base: &str, append: &str) -> (r: String)
    ensures
        r@ == merged(base@, append@),
{
    let mut parts = std_path::components(base);
    let tail = std_path::components(append);
    let ghost base_parts = texts(parts@);
    let ghost tail_parts = texts(tail@);
    let mut i: usize = 0;
    while i < tail.len()
        invariant
            i <= tail.len(),
            tail_parts == texts(tail@),
            base_parts == components_of(base@),
            tail_parts == components_of(append@),
            texts(parts@) == base_parts + kept(tail_parts.take(i as int)),
        decreases tail.len() - i,
    {
        let c = tail[i].as_str();
        let keep = if c.unicode_len() > 0 {
            !std::path::is_separator(c.get_char(0))
        } else {
            false
        };
        proof {
            assert(tail_parts.take(i + 1).drop_last() =~= tail_parts.take(i as int));
            assert(tail_parts.take(i + 1).last() == tail@[i as int]@);
        }
        if keep {
            let ghost before = parts@;
            parts.push(tail[i].clone());
            proof {
                assert(texts(parts@) =~= texts(before).push(tail@[i as int]@));
                assert(texts(parts@) =~= base_parts + kept(tail_parts.take(i + 1)));
            }
        }
        i = i + 1;
    }
    proof {
        assert(tail_parts.take(tail.len() as int) =~= tail_parts);
    }
    std_path::join(&parts)
}

} // verus!
