//! What holds of merging, for any layers whatsoever.
//!
//! Everything here is stated over [`Mergable::merged`], which is what
//! [`Mergable::merge`] returns.

use crate::isolate::IsolateConfigDto;
use crate::mergable::{overlaid, Mergable};
use vstd::prelude::*;

verus! {

/// Overriding with a layer that specifies nothing changes nothing.
pub proof fn lemma_unspecified_override(a: IsolateConfigDto)
    ensures
        a.merged(&IsolateConfigDto::unspecified()) == a,
{
}

/// Laid on a base that specifies nothing, a layer comes out as it went in.
pub proof fn lemma_unspecified_base(a: IsolateConfigDto)
    ensures
        IsolateConfigDto::unspecified().merged(&a) == a,
{
}

/// Each setting of a merge is the overriding layer's where that layer
/// specifies it, and the base's otherwise.
pub proof fn lemma_override_wins(a: IsolateConfigDto, b: IsolateConfigDto)
    ensures
        b.exclude_submodules is Some ==> a.merged(&b).exclude_submodules == b.exclude_submodules,
        b.exclude_submodules is None ==> a.merged(&b).exclude_submodules == a.exclude_submodules,
        b.include_untracked is Some ==> a.merged(&b).include_untracked == b.include_untracked,
        b.include_untracked is None ==> a.merged(&b).include_untracked == a.include_untracked,
{
}

/// Merging a layer with itself gives that layer.
pub proof fn lemma_idempotent(a: IsolateConfigDto)
    ensures
        a.merged(&a) == a,
{
}

/// Merging does not depend on how the layers are grouped, only on their order.
pub proof fn lemma_associative(a: IsolateConfigDto, b: IsolateConfigDto, c: IsolateConfigDto)
    ensures
        a.merged(&b).merged(&c) == a.merged(&b.merged(&c)),
{
}

/// Of three layers merged in order, each setting comes from the last layer
/// that specifies it, and is unspecified if none does.
pub proof fn lemma_chain_of_three(a: IsolateConfigDto, b: IsolateConfigDto, c: IsolateConfigDto)
    ensures
        a.merged(&b).merged(&c).exclude_submodules == (if c.exclude_submodules is Some {
            c.exclude_submodules
        } else if b.exclude_submodules is Some {
            b.exclude_submodules
        } else {
            a.exclude_submodules
        }),
        a.merged(&b).merged(&c).include_untracked == (if c.include_untracked is Some {
            c.include_untracked
        } else if b.include_untracked is Some {
            b.include_untracked
        } else {
            a.include_untracked
        }),
{
}

/// The configuration in force once `layers` have been merged one after the
/// other, first to last, onto a base that specifies nothing.
pub open spec fn effective(layers: Seq<IsolateConfigDto>) -> IsolateConfigDto
    decreases layers.len(),
{
    if layers.len() == 0 {
        IsolateConfigDto::unspecified()
    } else {
        effective(layers.drop_last()).merged(&layers.last())
    }
}

/// Whether no entry of `stated` after position `i` specifies a value.
pub open spec fn unspecified_after(stated: Seq<Option<bool>>, i: int) -> bool {
    forall|j: int| 0 <= j && i < j < stated.len() ==> stated[j] is None
}

/// Whether `setting` is what the last entry of `stated` that specifies a
/// value says, or is unspecified because no entry specifies one.
pub open spec fn last_specified(stated: Seq<Option<bool>>, setting: Option<bool>) -> bool {
    &&& (forall|i: int| 0 <= i < stated.len() ==> stated[i] is None) ==> setting is None
    &&& forall|i: int|
        0 <= i < stated.len() && stated[i] is Some && #[trigger] unspecified_after(stated, i)
            ==> setting == stated[i]
}

/// What each of `layers` says about submodules, in order.
pub open spec fn stated_exclude_submodules(layers: Seq<IsolateConfigDto>) -> Seq<Option<bool>> {
    Seq::new(layers.len(), |i: int| layers[i].exclude_submodules)
}

/// What each of `layers` says about untracked files, in order.
pub open spec fn stated_include_untracked(layers: Seq<IsolateConfigDto>) -> Seq<Option<bool>> {
    Seq::new(layers.len(), |i: int| layers[i].include_untracked)
}

/// However many layers are merged in order, each setting of the outcome is
/// the one from the last layer that specifies it, and it is unspecified if no
/// layer specifies it.
pub proof fn lemma_effective_last_specified(layers: Seq<IsolateConfigDto>)
    ensures
        last_specified(stated_exclude_submodules(layers), effective(layers).exclude_submodules),
        last_specified(stated_include_untracked(layers), effective(layers).include_untracked),
    decreases layers.len(),
{
    if layers.len() > 0 {
        let front = layers.drop_last();
        let last = layers.last();
        lemma_effective_last_specified(front);
        lemma_last_specified_push(
            stated_exclude_submodules(front),
            effective(front).exclude_submodules,
            last.exclude_submodules,
        );
        lemma_last_specified_push(
            stated_include_untracked(front),
            effective(front).include_untracked,
            last.include_untracked,
        );
        assert(stated_exclude_submodules(front).push(last.exclude_submodules)
            == stated_exclude_submodules(layers));
        assert(stated_include_untracked(front).push(last.include_untracked)
            == stated_include_untracked(layers));
    }
}

/// Layers may be merged in groups first: merging the outcome of a later group
/// onto that of an earlier one gives what merging all of them in order gives.
pub proof fn lemma_effective_in_groups(earlier: Seq<IsolateConfigDto>, later: Seq<IsolateConfigDto>)
    ensures
        effective(earlier + later) == effective(earlier).merged(&effective(later)),
    decreases later.len(),
{
    if later.len() == 0 {
        assert(earlier + later == earlier);
    } else {
        lemma_effective_in_groups(earlier, later.drop_last());
        assert((earlier + later).drop_last() == earlier + later.drop_last());
    }
}

/// A sequence of stated values decides one setting and no other.
pub proof fn lemma_last_specified_unique(
    stated: Seq<Option<bool>>,
    first: Option<bool>,
    second: Option<bool>,
)
    requires
        last_specified(stated, first),
        last_specified(stated, second),
    ensures
        first == second,
    decreases stated.len(),
{
    if stated.len() == 0 {
    } else if stated.last() is Some {
        assert(unspecified_after(stated, stated.len() - 1));
    } else {
        let front = stated.drop_last();
        assert forall|i: int|
            0 <= i < front.len() && front[i] is Some && #[trigger] unspecified_after(
                front,
                i,
            ) implies first == front[i] && second == front[i] by {
            assert(stated[i] == front[i]);
            assert(unspecified_after(stated, i)) by {
                assert forall|j: int| 0 <= j && i < j < stated.len() implies stated[j] is None by {
                    if j < front.len() {
                        assert(front[j] == stated[j]);
                    }
                }
            }
        }
        if forall|i: int| 0 <= i < front.len() ==> front[i] is None {
            assert forall|i: int| 0 <= i < stated.len() implies stated[i] is None by {
                if i < front.len() {
                    assert(front[i] is None);
                }
            }
        }
        lemma_last_specified_unique(front, first, second);
    }
}

/// One more layer on top: if `setting` was decided by `stated`, then after
/// `next` it is `next` overlaid on `setting`.
proof fn lemma_last_specified_push(stated: Seq<Option<bool>>, setting: Option<bool>, next: Option<bool>)
    requires
        last_specified(stated, setting),
    ensures
        last_specified(stated.push(next), overlaid(setting, next)),
{
    let longer = stated.push(next);
    let outcome = overlaid(setting, next);
    if forall|i: int| 0 <= i < longer.len() ==> longer[i] is None {
        assert(longer[stated.len() as int] is None);
        assert forall|i: int| 0 <= i < stated.len() implies stated[i] is None by {
            assert(longer[i] is None);
        }
    }
    assert forall|i: int|
        0 <= i < longer.len() && longer[i] is Some && #[trigger] unspecified_after(
            longer,
            i,
        ) implies outcome == longer[i] by {
        if i < stated.len() {
            assert(longer[stated.len() as int] is None);
            assert(stated[i] == longer[i]);
            assert(unspecified_after(stated, i)) by {
                assert forall|j: int| 0 <= j && i < j < stated.len() implies stated[j] is None by {
                    assert(longer[j] is None);
                }
            }
        }
    }
}

} // verus!
