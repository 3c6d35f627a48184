//! Resolving a pattern along its chain of fallbacks.
//!
//! The walk along the chain is a machine that is told what each lookup
//! found and says what is to be done next. `resolve_pattern` runs it
//! against a source of patterns.

use vstd::prelude::*;

use crate::pattern::{NodeHandle, Pattern, PatternView, ResolvedPattern};
use crate::words::text_is;

verus! {

/// The chain of fallbacks came back to a name that it had passed already.
#[derive(Debug, Clone, PartialEq, Eq)]
pub struct CyclicFallbackError {
    /// The name that was met for the second time.
    pub name: String,
}

/// Where the patterns that a fallback names are found.
pub trait FallbackSource {
    /// The pattern of the given name and a handle to its node, or `None`
    /// where there is no such pattern. The handle is held until it is
    /// released.
    fn lookup(&mut self, name: &str) -> Option<(NodeHandle, Pattern)>;

    /// Takes back a handle that a lookup handed out.
    fn release(&mut self, handle: NodeHandle);
}

/// What the walk is waiting for.
pub enum WalkState {
    /// The pattern of this name is to be looked up.
    Asking(String),
    /// The walk is over, with this result.
    Decided(Result<ResolvedPattern, CyclicFallbackError>),
}

/// A walk along a chain of fallbacks.
pub struct Resolver {
    working: Pattern,
    visited: Vec<String>,
    acquired: Vec<NodeHandle>,
    state: WalkState,
}

/// What is to be done next.
#[derive(Debug, PartialEq, Eq)]
pub enum Action {
    /// Look this name up, and tell the walk what was found.
    Lookup(String),
    /// Release this handle, and tell the walk that it is released.
    Release(NodeHandle),
    /// Nothing: this is the result, and no handle is held.
    Done(Result<ResolvedPattern, CyclicFallbackError>),
}

/// `WalkState` as specifications see it. An error is the name that was met
/// twice.
pub enum WalkStateView {
    Asking(Seq<char>),
    Decided(Result<ResolvedPattern, Seq<char>>),
}

/// `Action` as specifications see it.
pub enum ActionView {
    Lookup(Seq<char>),
    Release(NodeHandle),
    Done(Result<ResolvedPattern, Seq<char>>),
}

/// A walk as specifications see it.
pub struct ResolverView {
    /// The pattern, overlaid on the fallbacks found so far.
    pub working: PatternView,
    /// The names looked up so far, in order.
    pub visited: Seq<Seq<char>>,
    /// The handles that are held, oldest first.
    pub acquired: Seq<NodeHandle>,
    pub state: WalkStateView,
}

/// What a lookup found, as specifications see it.
pub open spec fn answer_view(found: Option<(NodeHandle, Pattern)>) -> Option<
    (NodeHandle, PatternView),
> {
    match found {
        Some((handle, pattern)) => Some((handle, pattern@)),
        None => None,
    }
}

/// A result as specifications see it.
pub open spec fn result_view(r: Result<ResolvedPattern, CyclicFallbackError>) -> Result<
    ResolvedPattern,
    Seq<char>,
> {
    match r {
        Ok(resolved) => Ok(resolved),
        Err(e) => Err(e.name@),
    }
}

impl View for WalkState {
    type V = WalkStateView;

    open spec fn view(&self) -> WalkStateView {
        match self {
            WalkState::Asking(name) => WalkStateView::Asking(name@),
            WalkState::Decided(r) => WalkStateView::Decided(result_view(*r)),
        }
    }
}

impl View for Action {
    type V = ActionView;

    open spec fn view(&self) -> ActionView {
        match self {
            Action::Lookup(name) => ActionView::Lookup(name@),
            Action::Release(handle) => ActionView::Release(*handle),
            Action::Done(r) => ActionView::Done(result_view(*r)),
        }
    }
}

/// The views of the strings in `names`, in order.
pub open spec fn name_views(names: Seq<String>) -> Seq<Seq<char>> {
    Seq::new(names.len(), |i: int| names[i]@)
}

impl View for Resolver {
    type V = ResolverView;

    closed spec fn view(&self) -> ResolverView {
        ResolverView {
            working: self.working@,
            visited: name_views(self.visited@),
            acquired: self.acquired@,
            state: self.state@,
        }
    }
}

impl ResolverView {
    /// Where a walk stands that has `working` in hand: it is over where
    /// `working` is resolved or names no fallback, with the attributes of
    /// `working`, each at its value or its default; it is over with an
    /// error where the fallback was looked up before; else the fallback
    /// is to be looked up.
    pub open spec fn settle(
        working: PatternView,
        visited: Seq<Seq<char>>,
        acquired: Seq<NodeHandle>,
    ) -> ResolverView {
        let state = if working.is_resolved() {
            WalkStateView::Decided(Ok(working.resolved()))
        } else {
            match working.fallback {
                None => WalkStateView::Decided(Ok(working.resolved())),
                Some(name) => if visited.contains(name) {
                    WalkStateView::Decided(Err(name))
                } else {
                    WalkStateView::Asking(name)
                },
            }
        };
        ResolverView { working, visited, acquired, state }
    }

    /// The walk for `pattern`, before any lookup.
    pub open spec fn start(pattern: PatternView) -> ResolverView {
        ResolverView::settle(pattern, Seq::empty(), Seq::empty())
    }

    /// The walk after it was told what the lookup found. Where nothing was
    /// found the walk is over, and what is unset gets its default. Where a
    /// pattern was found its handle is held, and the walk goes on with
    /// `working` overlaid on that pattern, whose own fallback is the next
    /// to follow. A walk that asked for nothing stays as it is.
    pub open spec fn answer(self, found: Option<(NodeHandle, PatternView)>) -> ResolverView {
        match self.state {
            WalkStateView::Asking(name) => match found {
                None => ResolverView {
                    visited: self.visited.push(name),
                    state: WalkStateView::Decided(Ok(self.working.resolved())),
                    ..self
                },
                Some((handle, fallback)) => ResolverView::settle(
                    self.working.without_fallback().overlay(fallback),
                    self.visited.push(name),
                    self.acquired.push(handle),
                ),
            },
            WalkStateView::Decided(_) => self,
        }
    }

    /// What is to be done next: a lookup while the walk goes on; then the
    /// release of the handle that was acquired last, as long as one is
    /// held; then nothing.
    pub open spec fn action(self) -> ActionView {
        match self.state {
            WalkStateView::Asking(name) => ActionView::Lookup(name),
            WalkStateView::Decided(r) => if self.acquired.len() > 0 {
                ActionView::Release(self.acquired.last())
            } else {
                ActionView::Done(r)
            },
        }
    }

    /// The walk after the handle that `action` named was released. A walk
    /// that asked for no release stays as it is.
    pub open spec fn released(self) -> ResolverView {
        if self.state is Decided && self.acquired.len() > 0 {
            ResolverView { acquired: self.acquired.drop_last(), ..self }
        } else {
            self
        }
    }
}

/// The walk after it was told each of `answers` in turn.
pub open spec fn run(
    walk: ResolverView,
    answers: Seq<Option<(NodeHandle, PatternView)>>,
) -> ResolverView
    decreases answers.len(),
{
    if answers.len() == 0 {
        walk
    } else {
        run(walk.answer(answers[0]), answers.drop_first())
    }
}

/// Telling a walk one more answer is telling it the answers before, and
/// then that one.
pub proof fn lemma_run_push(
    walk: ResolverView,
    answers: Seq<Option<(NodeHandle, PatternView)>>,
    last: Option<(NodeHandle, PatternView)>,
)
    ensures
        run(walk, answers.push(last)) == run(walk, answers).answer(last),
    decreases answers.len(),
{
    let all = answers.push(last);
    if answers.len() == 0 {
        assert(all.drop_first().len() == 0);
        assert(run(walk.answer(all[0]), all.drop_first()) == walk.answer(last));
    } else {
        assert(all.drop_first() == answers.drop_first().push(last));
        lemma_run_push(walk.answer(answers[0]), answers.drop_first(), last);
    }
}

/// Whether `name` is among `names`.
fn is_visited(names: &Vec<String>, name: &str) -> (r: bool)
    ensures
        r == name_views(names@).contains(name@),
{
    let mut i: usize = 0;
    while i < names.len()
        invariant
            i <= names@.len(),
            forall|k: int| 0 <= k < i ==> name_views(names@)[k] != name@,
        decreases names@.len() - i,
    {
        if text_is(names[i].as_str(), name) {
            assert(name_views(names@)[i as int] == name@);
            return true;
        }
        i = i + 1;
    }
    false
}

impl Resolver {
    /// Sets the state by the pattern in hand.
    fn settle(&mut self)
        ensures
            final(self)@ == ResolverView::settle(
                old(self)@.working,
                old(self)@.visited,
                old(self)@.acquired,
            ),
    {
        if self.working.is_resolved() {
            self.state = WalkState::Decided(Ok(self.working.resolved()));
            return ;
        }
        match &self.working.fallback {
            None => {
                self.state = WalkState::Decided(Ok(self.working.resolved()));
            },
            Some(name) => {
                if is_visited(&self.visited, name.as_str()) {
                    self.state = WalkState::Decided(
                        Err(CyclicFallbackError { name: name.clone() }),
                    );
                } else {
                    self.state = WalkState::Asking(name.clone());
                }
            },
        }
    }

    /// A walk for `pattern`, which is left as it is.
    pub fn new(pattern: &Pattern) -> (r: Resolver)
        ensures
            r@ == ResolverView::start(pattern@),
    {
        let working = pattern.clone();
        let resolved = working.resolved();
        let mut resolver = Resolver {
            working,
            visited: Vec::new(),
            acquired: Vec::new(),
            state: WalkState::Decided(Ok(resolved)),
        };
        assert(name_views(resolver.visited@) == Seq::<Seq<char>>::empty());
        resolver.settle();
        resolver
    }

    /// What is to be done next.
    pub fn action(&self) -> (r: Action)
        ensures
            r@ == self@.action(),
    {
        match &self.state {
            WalkState::Asking(name) => Action::Lookup(name.clone()),
            WalkState::Decided(r) => {
                let n = self.acquired.len();
                if n > 0 {
                    Action::Release(self.acquired[n - 1])
                } else {
                    match r {
                        Ok(resolved) => Action::Done(Ok(*resolved)),
                        Err(e) => Action::Done(Err(CyclicFallbackError { name: e.name.clone() })),
                    }
                }
            },
        }
    }

    /// Tells the walk what the lookup found.
    pub fn answer(&mut self, found: Option<(NodeHandle, Pattern)>)
        ensures
            final(self)@ == old(self)@.answer(answer_view(found)),
            final(self)@.visited.len() <= usize::MAX,
    {
        let ghost names = self.visited@;
        let name = match &self.state {
            WalkState::Asking(name) => name.clone(),
            WalkState::Decided(_) => {
                let _ = self.visited.len();
                return ;
            },
        };
        self.visited.push(name);
        let _ = self.visited.len();
        assert(name_views(self.visited@) == name_views(names).push(name@));
        match found {
            None => {
                self.state = WalkState::Decided(Ok(self.working.resolved()));
            },
            Some((handle, fallback)) => {
                self.acquired.push(handle);
                self.working.fallback = None;
                self.working.resolve_from_fallback(&fallback);
                self.settle();
            },
        }
    }

    /// Tells the walk that the handle it named was released.
    pub fn released(&mut self)
        ensures
            final(self)@ == old(self)@.released(),
    {
        match &self.state {
            WalkState::Asking(_) => {},
            WalkState::Decided(_) => {
                let ghost held = self.acquired@;
                if self.acquired.len() > 0 {
                    self.acquired.pop();
                    assert(self.acquired@ == held.drop_last());
                }
            },
        }
    }
}

/// `resolved` has every attribute that `pattern` sets at the value that
/// `pattern` gives it, and the content of `pattern` where it has some.
pub open spec fn keeps(resolved: ResolvedPattern, pattern: PatternView) -> bool {
    &&& pattern.obj_bbox matches Some(v) ==> resolved.obj_bbox == v
    &&& pattern.obj_cbbox matches Some(v) ==> resolved.obj_cbbox == v
    &&& pattern.vbox matches Some(v) ==> resolved.vbox == v
    &&& pattern.preserve_aspect_ratio matches Some(v) ==> resolved.preserve_aspect_ratio == v
    &&& pattern.affine matches Some(v) ==> resolved.affine == v
    &&& pattern.x matches Some(v) ==> resolved.x == v
    &&& pattern.y matches Some(v) ==> resolved.y == v
    &&& pattern.width matches Some(v) ==> resolved.width == v
    &&& pattern.height matches Some(v) ==> resolved.height == v
    &&& pattern.has_visible_content ==> resolved.has_visible_content && resolved.c_node
        == pattern.c_node
}

/// `working` sets every attribute that `pattern` sets, to the same value,
/// and has the content of `pattern` where that has some.
spec fn extends(working: PatternView, pattern: PatternView) -> bool {
    &&& pattern.obj_bbox is Some ==> working.obj_bbox == pattern.obj_bbox
    &&& pattern.obj_cbbox is Some ==> working.obj_cbbox == pattern.obj_cbbox
    &&& pattern.vbox is Some ==> working.vbox == pattern.vbox
    &&& pattern.preserve_aspect_ratio is Some ==> working.preserve_aspect_ratio
        == pattern.preserve_aspect_ratio
    &&& pattern.affine is Some ==> working.affine == pattern.affine
    &&& pattern.x is Some ==> working.x == pattern.x
    &&& pattern.y is Some ==> working.y == pattern.y
    &&& pattern.width is Some ==> working.width == pattern.width
    &&& pattern.height is Some ==> working.height == pattern.height
    &&& pattern.has_visible_content ==> working.has_visible_content && working.c_node
        == pattern.c_node
}

/// What the walk is sure of, whatever the lookups find: a result that is
/// there belongs to the pattern in hand, which keeps what `pattern` sets.
spec fn on_course(walk: ResolverView, pattern: PatternView) -> bool {
    &&& extends(walk.working, pattern)
    &&& walk.state matches WalkStateView::Decided(Ok(resolved)) ==> resolved
        == walk.working.resolved()
    &&& walk.state matches WalkStateView::Decided(Err(_)) ==> !pattern.is_resolved()
        && pattern.fallback is Some
}

/// Resolves `pattern` along its chain of fallbacks.
///
/// The pattern itself is left as it is. Its unset fields are taken from
/// the pattern its fallback names, then from that pattern's fallback, and
/// so on, until nothing is unset and there is content to draw, or until no
/// further pattern is found: then what is still unset gets its default.
/// A chain that comes back to a name it has passed gives an error.
///
/// The lookups are those that a `Resolver` asks for, answered by
/// `fallback_source`; the handles they hand out are released before this
/// returns, the last one first. Where the pattern is resolved, or names no
/// fallback, nothing is looked up. What the source answers decides the
/// rest: the result is what a walk gives that is told those answers, and
/// whatever they are it keeps every value that `pattern` sets.
pub fn resolve_pattern<S: FallbackSource>(pattern: &Pattern, fallback_source: &mut S) -> (r: Result<
    ResolvedPattern,
    CyclicFallbackError,
>)
    ensures
        pattern@.is_resolved() || pattern@.fallback is None ==> r == Ok::<
            ResolvedPattern,
            CyclicFallbackError,
        >(pattern@.resolved()),
        r matches Ok(resolved) ==> keeps(resolved, pattern@),
        r is Err ==> !pattern@.is_resolved() && pattern@.fallback is Some,
        exists|answers: Seq<Option<(NodeHandle, PatternView)>>|
            (#[trigger] run(ResolverView::start(pattern@), answers)).state
                == WalkStateView::Decided(result_view(r)),
{
    let mut resolver = Resolver::new(pattern);
    let ghost mut answers = Seq::<Option<(NodeHandle, PatternView)>>::empty();
    loop
        invariant
            on_course(resolver@, pattern@),
            resolver@.state == run(ResolverView::start(pattern@), answers).state,
            resolver@.working == run(ResolverView::start(pattern@), answers).working,
            resolver@.visited == run(ResolverView::start(pattern@), answers).visited,
            resolver@.visited.len() <= usize::MAX,
            pattern@.is_resolved() || pattern@.fallback is None ==> resolver@.state
                == WalkStateView::Decided(Ok(pattern@.resolved())) && resolver@.acquired.len()
                == 0,
        decreases
                (if resolver@.state is Asking {
                    1int
                } else {
                    0int
                }),
                usize::MAX - resolver@.visited.len(),
                resolver@.acquired.len(),
    {
        match resolver.action() {
            Action::Lookup(name) => {
                let found = fallback_source.lookup(name.as_str());
                proof {
                    lemma_run_push(ResolverView::start(pattern@), answers, answer_view(found));
                    answers = answers.push(answer_view(found));
                }
                resolver.answer(found);
            },
            Action::Release(handle) => {
                fallback_source.release(handle);
                resolver.released();
            },
            Action::Done(r) => {
                return r;
            },
        }
    }
}

} // verus!
