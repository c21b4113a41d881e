use vstd::prelude::*;

use crate::ringbuf::{action_of, advance, BuildAction, BuildEvent, BuildProgress};

verus! {

/// The progress after the events `es`, each one answering the action owed
/// just before it.
pub open spec fn run(fds: Seq<i32>, p: BuildProgress, es: Seq<BuildEvent>) -> BuildProgress
    decreases es.len(),
{
    if es.len() == 0 {
        p
    } else {
        run(fds, advance(p, action_of(fds, p), es[0]), es.drop_first())
    }
}

/// How many merged objects come into being along the events `es`: each
/// creation that was asked for and reported done.
pub open spec fn creations(fds: Seq<i32>, p: BuildProgress, es: Seq<BuildEvent>) -> nat
    decreases es.len(),
{
    if es.len() == 0 {
        0
    } else {
        let a = action_of(fds, p);
        let here: nat = if a is Create && es[0] is Created && es[0]->Created_0 is Ok {
            1
        } else {
            0
        };
        here + creations(fds, advance(p, a, es[0]), es.drop_first())
    }
}

/// Progress that a build of the channels `fds` can be in.
pub open spec fn reachable(fds: Seq<i32>, p: BuildProgress) -> bool {
    &&& fds.len() >= 1
    &&& p.attached <= fds.len()
    &&& p.handle is Some <==> p.attached >= 1
    &&& p.failed is Some ==> p.attached < fds.len()
}

/// The events of a build in which every foreign call succeeds: creation gives
/// `h`, and each of the `n - 1` further channels is added.
pub open spec fn all_succeed(h: usize, n: nat) -> Seq<BuildEvent> {
    seq![BuildEvent::Created(Ok(h))] + Seq::new(
        (n - 1) as nat,
        |i: int| BuildEvent::Added(0),
    )
}

proof fn lemma_step_reachable(fds: Seq<i32>, p: BuildProgress, e: BuildEvent)
    requires
        reachable(fds, p),
    ensures
        reachable(fds, advance(p, action_of(fds, p), e)),
        p.handle is Some ==> advance(p, action_of(fds, p), e).handle == p.handle,
        p.handle is Some ==> !(action_of(fds, p) is Create),
{
}

proof fn lemma_handle_kept(fds: Seq<i32>, p: BuildProgress, es: Seq<BuildEvent>)
    requires
        reachable(fds, p),
        p.handle is Some,
    ensures
        creations(fds, p, es) == 0,
        run(fds, p, es).handle == p.handle,
    decreases es.len(),
{
    if es.len() > 0 {
        lemma_step_reachable(fds, p, es[0]);
        lemma_handle_kept(fds, advance(p, action_of(fds, p), es[0]), es.drop_first());
    }
}

proof fn lemma_at_most_one_from(fds: Seq<i32>, p: BuildProgress, es: Seq<BuildEvent>)
    requires
        reachable(fds, p),
    ensures
        creations(fds, p, es) <= 1,
        p.handle is Some ==> run(fds, p, es).handle == p.handle,
    decreases es.len(),
{
    if es.len() > 0 {
        let q = advance(p, action_of(fds, p), es[0]);
        lemma_step_reachable(fds, p, es[0]);
        if q.handle is Some {
            lemma_handle_kept(fds, q, es.drop_first());
        } else {
            lemma_at_most_one_from(fds, q, es.drop_first());
        }
        if p.handle is Some {
            lemma_handle_kept(fds, p, es);
        }
    }
}

/// However the foreign calls turn out, one build brings at most one merged
/// polling object into being: it is created for the first channel, and from
/// then on only extended, its handle never replaced.
pub proof fn lemma_one_merged_object(fds: Seq<i32>, es: Seq<BuildEvent>, k: int)
    requires
        fds.len() >= 1,
        0 <= k <= es.len(),
    ensures
        creations(fds, BuildProgress::start(), es) <= 1,
        run(fds, BuildProgress::start(), es.take(k)).handle is Some ==> run(
            fds,
            BuildProgress::start(),
            es,
        ).handle == run(fds, BuildProgress::start(), es.take(k)).handle,
{
    lemma_at_most_one_from(fds, BuildProgress::start(), es);
    lemma_run_split(fds, BuildProgress::start(), es, k);
    let mid = run(fds, BuildProgress::start(), es.take(k));
    lemma_run_reachable(fds, BuildProgress::start(), es.take(k));
    if mid.handle is Some {
        lemma_handle_kept(fds, mid, es.skip(k));
    }
}

proof fn lemma_run_reachable(fds: Seq<i32>, p: BuildProgress, es: Seq<BuildEvent>)
    requires
        reachable(fds, p),
    ensures
        reachable(fds, run(fds, p, es)),
    decreases es.len(),
{
    if es.len() > 0 {
        lemma_step_reachable(fds, p, es[0]);
        lemma_run_reachable(fds, advance(p, action_of(fds, p), es[0]), es.drop_first());
    }
}

proof fn lemma_run_split(fds: Seq<i32>, p: BuildProgress, es: Seq<BuildEvent>, k: int)
    requires
        0 <= k <= es.len(),
    ensures
        run(fds, p, es) == run(fds, run(fds, p, es.take(k)), es.skip(k)),
    decreases k,
{
    if k == 0 {
        assert(es.take(0) =~= Seq::<BuildEvent>::empty());
        assert(es.skip(0) =~= es);
    } else {
        let q = advance(p, action_of(fds, p), es[0]);
        lemma_run_split(fds, q, es.drop_first(), k - 1);
        assert(es.take(k).drop_first() =~= es.drop_first().take(k - 1));
        assert(es.take(k)[0] == es[0]);
        assert(es.skip(k) =~= es.drop_first().skip(k - 1));
    }
}

proof fn lemma_adds_succeed(fds: Seq<i32>, p: BuildProgress, m: nat)
    requires
        reachable(fds, p),
        p.attached >= 1,
        p.failed is None,
        p.attached + m == fds.len(),
    ensures
        ({
            let es = Seq::new(m, |i: int| BuildEvent::Added(0));
            let q = run(fds, p, es);
            &&& q.attached == fds.len()
            &&& q.handle == p.handle
            &&& q.failed is None
            &&& creations(fds, p, es) == 0
        }),
    decreases m,
{
    let es = Seq::new(m, |i: int| BuildEvent::Added(0));
    if m > 0 {
        let q = advance(p, action_of(fds, p), es[0]);
        assert(es.drop_first() =~= Seq::new((m - 1) as nat, |i: int| BuildEvent::Added(0)));
        lemma_adds_succeed(fds, q, (m - 1) as nat);
    }
}

/// Building `n >= 1` channels whose foreign calls all succeed finishes: every
/// channel is attached to exactly one merged object, the one that creation
/// gave.
pub proof fn lemma_build_succeeds(fds: Seq<i32>, h: usize)
    requires
        fds.len() >= 1,
    ensures
        ({
            let es = all_succeed(h, fds.len());
            let p = run(fds, BuildProgress::start(), es);
            &&& action_of(fds, p) is Finish
            &&& p.handle == Some(h)
            &&& p.attached == fds.len()
            &&& creations(fds, BuildProgress::start(), es) == 1
        }),
{
    let es = all_succeed(h, fds.len());
    let s = BuildProgress::start();
    let q = advance(s, action_of(fds, s), es[0]);
    assert(es.drop_first() =~= Seq::new((fds.len() - 1) as nat, |i: int| BuildEvent::Added(0)));
    lemma_adds_succeed(fds, q, (fds.len() - 1) as nat);
}

} // verus!
