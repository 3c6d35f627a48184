//! What a walk gives on chains of a known shape.

use vstd::prelude::*;

use crate::fallback::{run, ActionView, ResolverView, WalkStateView};
use crate::pattern::{NodeHandle, PatternView, ResolvedPattern};

verus! {

/// The walk after `n` handles were released.
pub open spec fn release(walk: ResolverView, n: nat) -> ResolverView
    decreases n,
{
    if n == 0 {
        walk
    } else {
        release(walk.released(), (n - 1) as nat)
    }
}

/// `p` overlaid on the patterns of `chain`, one after the other.
pub open spec fn merge_chain(p: PatternView, chain: Seq<PatternView>) -> PatternView
    decreases chain.len(),
{
    if chain.len() == 0 {
        p
    } else {
        merge_chain(p.overlay(chain[0]), chain.drop_first())
    }
}

/// The answers of a source that finds each pattern of `chain`, and hands
/// out the handle at the same place in `handles`.
pub open spec fn found(handles: Seq<NodeHandle>, chain: Seq<PatternView>) -> Seq<
    Option<(NodeHandle, PatternView)>,
> {
    Seq::new(chain.len(), |i: int| Some((handles[i], chain[i])))
}

/// The patterns of `chain` go by `names`, none of which occurs twice, and
/// each names the next as its fallback; the last names `end`.
pub open spec fn is_chain(
    names: Seq<Seq<char>>,
    chain: Seq<PatternView>,
    end: Option<Seq<char>>,
) -> bool {
    &&& names.len() == chain.len()
    &&& names.no_duplicates()
    &&& forall|i: int|
        0 <= i < chain.len() ==> (#[trigger] chain[i]).fallback == (if i + 1 < names.len() {
            Some(names[i + 1])
        } else {
            end
        })
}

/// The fallback that starts a chain: the first of `names`, or `end` where
/// there is none.
pub open spec fn head(names: Seq<Seq<char>>, end: Option<Seq<char>>) -> Option<Seq<char>> {
    if names.len() > 0 {
        Some(names[0])
    } else {
        end
    }
}

/// The two patterns differ in the name of their fallback at most.
pub open spec fn same_attributes(p: PatternView, q: PatternView) -> bool {
    p.without_fallback() == q.without_fallback()
}

/// What is merged onto a pattern does not depend on the fallback it
/// names, and a pattern that is resolved takes nothing from a fallback.
pub proof fn lemma_merge(p: PatternView, q: PatternView, chain: Seq<PatternView>)
    requires
        same_attributes(p, q),
    ensures
        merge_chain(p, chain).resolved() == merge_chain(q, chain).resolved(),
        merge_chain(p, chain).is_resolved() == merge_chain(q, chain).is_resolved(),
        p.is_resolved() ==> merge_chain(p, chain).is_resolved() && merge_chain(
            p,
            chain,
        ).resolved() == p.resolved(),
    decreases chain.len(),
{
    if chain.len() > 0 {
        lemma_merge(p.overlay(chain[0]), q.overlay(chain[0]), chain.drop_first());
    }
}

/// A walk that is over takes no notice of answers.
pub proof fn lemma_run_when_decided(
    walk: ResolverView,
    answers: Seq<Option<(NodeHandle, PatternView)>>,
)
    requires
        walk.state is Decided,
    ensures
        run(walk, answers) == walk,
    decreases answers.len(),
{
    if answers.len() > 0 {
        lemma_run_when_decided(walk, answers.drop_first());
    }
}

/// The rest of a chain is a chain, and its names are none of those that
/// were visited once the first is.
proof fn lemma_rest_of_chain(
    names: Seq<Seq<char>>,
    chain: Seq<PatternView>,
    handles: Seq<NodeHandle>,
    end: Option<Seq<char>>,
    visited: Seq<Seq<char>>,
)
    requires
        is_chain(names, chain, end),
        names.len() > 0,
        handles.len() == chain.len(),
        forall|i: int| 0 <= i < names.len() ==> !visited.contains(#[trigger] names[i]),
    ensures
        is_chain(names.drop_first(), chain.drop_first(), end),
        forall|i: int|
            0 <= i < names.len() - 1 ==> !visited.push(names[0]).contains(
                #[trigger] names.drop_first()[i],
            ),
        chain[0].fallback == head(names.drop_first(), end),
        found(handles, chain).drop_first() == found(handles.drop_first(), chain.drop_first()),
        found(handles, chain)[0] == Some((handles[0], chain[0])),
{
    let rest_names = names.drop_first();
    let rest = chain.drop_first();
    assert forall|i: int| 0 <= i < rest.len() implies (#[trigger] rest[i]).fallback == (if i + 1
        < rest_names.len() {
        Some(rest_names[i + 1])
    } else {
        end
    }) by {
        assert(rest[i] == chain[i + 1]);
        if i + 1 < rest_names.len() {
            assert(rest_names[i + 1] == names[i + 2]);
        }
    }
    assert forall|i: int| 0 <= i < names.len() - 1 implies !visited.push(names[0]).contains(
        #[trigger] rest_names[i],
    ) by {
        assert(rest_names[i] == names[i + 1]);
        let passed = visited.push(names[0]);
        if passed.contains(rest_names[i]) {
            let k = choose|k: int| 0 <= k < passed.len() && passed[k] == rest_names[i];
            if k < visited.len() {
                assert(visited[k] == names[i + 1]);
            }
        }
    }
    if rest_names.len() > 0 {
        assert(rest_names[0] == names[1]);
    }
    assert(found(handles, chain).drop_first() == found(handles.drop_first(), rest));
}

/// Along a chain of fallbacks that ends in a pattern without one, a walk
/// gives the merge of the patterns from left to right, with the defaults
/// for what none of them sets.
pub proof fn lemma_chain_resolves_to_merge(
    p: PatternView,
    names: Seq<Seq<char>>,
    chain: Seq<PatternView>,
    handles: Seq<NodeHandle>,
    visited: Seq<Seq<char>>,
    acquired: Seq<NodeHandle>,
)
    requires
        is_chain(names, chain, None),
        handles.len() == chain.len(),
        forall|i: int| 0 <= i < names.len() ==> !visited.contains(#[trigger] names[i]),
        p.fallback == head(names, None),
    ensures
        run(ResolverView::settle(p, visited, acquired), found(handles, chain)).state
            == WalkStateView::Decided(Ok(merge_chain(p, chain).resolved())),
    decreases chain.len(),
{
    let walk = ResolverView::settle(p, visited, acquired);
    let answers = found(handles, chain);
    if p.is_resolved() {
        lemma_merge(p, p, chain);
        lemma_run_when_decided(walk, answers);
    } else if names.len() == 0 {
    } else {
        let next = p.without_fallback().overlay(chain[0]);
        lemma_rest_of_chain(names, chain, handles, None, visited);
        assert(next.fallback == chain[0].fallback);
        lemma_chain_resolves_to_merge(
            next,
            names.drop_first(),
            chain.drop_first(),
            handles.drop_first(),
            visited.push(names[0]),
            acquired.push(handles[0]),
        );
        lemma_merge(next, p.overlay(chain[0]), chain.drop_first());
    }
}

/// Three patterns in a row: `a` falls back on `b`, `b` on `c`, and `c` on
/// nothing. A walk for `a` that finds `b` and then `c` gives `a` overlaid
/// on `b` overlaid on `c`, with the defaults for what none of the three
/// sets.
pub proof fn lemma_chain_of_three(
    a: PatternView,
    b: PatternView,
    c: PatternView,
    name_b: Seq<char>,
    name_c: Seq<char>,
    handle_b: NodeHandle,
    handle_c: NodeHandle,
)
    requires
        name_b != name_c,
        a.fallback == Some(name_b),
        b.fallback == Some(name_c),
        c.fallback is None,
    ensures
        ResolverView::start(a).answer(Some((handle_b, b))).answer(Some((handle_c, c))).state
            == WalkStateView::Decided(Ok(a.overlay(b).overlay(c).resolved())),
        a.overlay(b).overlay(c).with_defaults().is_populated(),
        a.overlay(b).overlay(c).with_defaults().resolved() == a.overlay(b).overlay(c).resolved(),
{
    let names = seq![name_b, name_c];
    let chain = seq![b, c];
    let handles = seq![handle_b, handle_c];
    let answers = found(handles, chain);
    let empty = Seq::<Seq<char>>::empty();
    lemma_chain_resolves_to_merge(a, names, chain, handles, empty, Seq::empty());
    let first = ResolverView::start(a).answer(answers[0]);
    let second = first.answer(answers[1]);
    assert(answers.drop_first().drop_first().len() == 0);
    assert(answers.drop_first()[0] == answers[1]);
    assert(run(ResolverView::start(a), answers) == second) by {
        assert(run(second, answers.drop_first().drop_first()) == second);
        assert(run(first, answers.drop_first()) == run(
            first.answer(answers.drop_first()[0]),
            answers.drop_first().drop_first(),
        ));
    }
    assert(chain.drop_first() == seq![c]);
    assert(seq![c].drop_first() == Seq::<PatternView>::empty());
    assert(merge_chain(a, chain) == a.overlay(b).overlay(c)) by {
        assert(merge_chain(a.overlay(b).overlay(c), Seq::<PatternView>::empty()) == a.overlay(
            b,
        ).overlay(c));
        assert(merge_chain(a.overlay(b), seq![c]) == merge_chain(
            a.overlay(b).overlay(seq![c][0]),
            seq![c].drop_first(),
        ));
    }
}

/// A chain of fallbacks that leads back to a name that was looked up:
/// unless the patterns on the way are resolved together, the walk reports
/// that name.
pub proof fn lemma_chain_back_is_reported(
    p: PatternView,
    names: Seq<Seq<char>>,
    chain: Seq<PatternView>,
    handles: Seq<NodeHandle>,
    visited: Seq<Seq<char>>,
    acquired: Seq<NodeHandle>,
    back: Seq<char>,
)
    requires
        is_chain(names, chain, Some(back)),
        handles.len() == chain.len(),
        forall|i: int| 0 <= i < names.len() ==> !visited.contains(#[trigger] names[i]),
        visited.contains(back) || names.contains(back),
        p.fallback == head(names, Some(back)),
        !merge_chain(p, chain).is_resolved(),
    ensures
        run(ResolverView::settle(p, visited, acquired), found(handles, chain)).state
            == WalkStateView::Decided(Err::<ResolvedPattern, _>(back)),
    decreases chain.len(),
{
    lemma_merge(p, p, chain);
    if names.len() > 0 {
        let next = p.without_fallback().overlay(chain[0]);
        let passed = visited.push(names[0]);
        lemma_rest_of_chain(names, chain, handles, Some(back), visited);
        assert(next.fallback == chain[0].fallback);
        assert(passed.contains(back) || names.drop_first().contains(back)) by {
            if visited.contains(back) {
                let k = choose|k: int| 0 <= k < visited.len() && visited[k] == back;
                assert(passed[k] == back);
            } else {
                let k = choose|k: int| 0 <= k < names.len() && names[k] == back;
                if k == 0 {
                    assert(passed[visited.len() as int] == back);
                } else {
                    assert(names.drop_first()[k - 1] == back);
                }
            }
        }
        lemma_merge(next, p.overlay(chain[0]), chain.drop_first());
        lemma_chain_back_is_reported(
            next,
            names.drop_first(),
            chain.drop_first(),
            handles.drop_first(),
            passed,
            acquired.push(handles[0]),
            back,
        );
    }
}

/// A cycle of fallbacks of any length, one included: `p` names the first
/// pattern of `chain`, each pattern names the next, and the last names
/// one of the cycle again. Unless `p` and the patterns of the cycle are
/// resolved together, the walk reports that name.
pub proof fn lemma_cycle_is_reported(
    p: PatternView,
    names: Seq<Seq<char>>,
    chain: Seq<PatternView>,
    handles: Seq<NodeHandle>,
    back: Seq<char>,
)
    requires
        is_chain(names, chain, Some(back)),
        handles.len() == chain.len(),
        names.contains(back),
        p.fallback == Some(names[0]),
        !merge_chain(p, chain).is_resolved(),
    ensures
        run(ResolverView::start(p), found(handles, chain)).state == WalkStateView::Decided(
            Err::<ResolvedPattern, _>(back),
        ),
{
    lemma_chain_back_is_reported(
        p,
        names,
        chain,
        handles,
        Seq::<Seq<char>>::empty(),
        Seq::empty(),
        back,
    );
}

/// A walk that is over asks for the handles it holds one by one, the one
/// acquired last first, and then gives its result.
pub proof fn lemma_releases_last_first(walk: ResolverView, k: nat)
    requires
        walk.state matches WalkStateView::Decided(_),
        k <= walk.acquired.len(),
    ensures
        release(walk, k).state == walk.state,
        release(walk, k).working == walk.working,
        release(walk, k).acquired == walk.acquired.take(walk.acquired.len() - k),
        k < walk.acquired.len() ==> release(walk, k).action() == ActionView::Release(
            walk.acquired[walk.acquired.len() - 1 - k],
        ),
        k == walk.acquired.len() ==> release(walk, k).action() == ActionView::Done(
            walk.state->Decided_0,
        ),
    decreases k,
{
    if k == 0 {
        assert(walk.acquired.take(walk.acquired.len() as int) == walk.acquired);
    } else {
        let next = walk.released();
        lemma_releases_last_first(next, (k - 1) as nat);
        assert(next.acquired.take(next.acquired.len() - (k - 1)) == walk.acquired.take(
            walk.acquired.len() - k,
        ));
    }
}

} // verus!
