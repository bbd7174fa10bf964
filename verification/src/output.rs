//! What a procedure returns, and how the future that produces it is driven.
use vstd::prelude::*;

verus! {

/// A procedure's result that is a stream: `G` yields values, then completes
/// with a last one.
pub struct SSE<G>(pub G);

/// A procedure's result that is sent back as one value.
pub struct Return<T>(pub T);

/// The stage a procedure's call is at: its inputs are still to be decoded and
/// the procedure called (`Init`), or the future it returned is being polled
/// (`Poll`), or it failed to start (`Done`).
pub enum FutState<Start, Fut> {
    Init(Start),
    Poll(Fut),
    Done,
}

/// What one poll of a `FutState` gave.
pub enum Step<E, R> {
    /// The inputs could not be decoded: the procedure was not called.
    DecodeFailed(E),
    /// The future was polled and gave this.
    Polled(R),
}

/// Over a run of polls of one call, made at the stage `Init`, each poll doing
/// what `FutState::poll` ensures: the procedure is started only by the first
/// poll, and every later poll hands its callback the very future that the
/// previous poll's callback left, and keeps what it leaves.
pub proof fn law_started_once<Start, Fut, E, R, S, C>(
    starts: Seq<S>,
    cbs: Seq<C>,
    stages: Seq<FutState<Start, Fut>>,
    results: Seq<Step<E, R>>,
) where S: FnOnce(Start) -> Result<Fut, E>, C: FnOnce(&mut Fut) -> R
    requires
        starts.len() == cbs.len(),
        results.len() == cbs.len(),
        stages.len() == cbs.len() + 1,
        stages[0] is Init,
        forall|i: int|
            #![trigger stages[i]]
            0 <= i < cbs.len() ==> match stages[i] {
                FutState::Init(s) => exists|res: Result<Fut, E>|
                    call_ensures(starts[i], (s,), res) && match res {
                        Ok(fut) => stages[i + 1] is Poll && results[i] is Polled && exists|f: &mut Fut|
                            *f == fut && call_ensures(cbs[i], (f,), results[i]->Polled_0)
                                && *final(f) == stages[i + 1]->Poll_0,
                        Err(e) => stages[i + 1] is Done && results[i] == Step::<E, R>::DecodeFailed(e),
                    },
                FutState::Poll(fut) => stages[i + 1] is Poll && results[i] is Polled && exists|f: &mut Fut|
                    *f == fut && call_ensures(cbs[i], (f,), results[i]->Polled_0)
                        && *final(f) == stages[i + 1]->Poll_0,
                FutState::Done => false,
            },
    ensures
        forall|i: int| 1 <= i < stages.len() ==> !(#[trigger] stages[i] is Init),
        forall|i: int|
            1 <= i < cbs.len() ==> {
                &&& #[trigger] stages[i] is Poll
                &&& results[i] is Polled
                &&& exists|f: &mut Fut|
                    *f == stages[i]->Poll_0 && call_ensures(cbs[i], (f,), results[i]->Polled_0)
                        && *final(f) == stages[i + 1]->Poll_0
            },
{
    assert forall|i: int| 1 <= i < stages.len() implies !(#[trigger] stages[i] is Init) by {
        let p = stages[i - 1];
    }
    assert forall|i: int| 1 <= i < cbs.len() implies {
        &&& #[trigger] stages[i] is Poll
        &&& results[i] is Polled
        &&& exists|f: &mut Fut|
            *f == stages[i]->Poll_0 && call_ensures(cbs[i], (f,), results[i]->Polled_0)
                && *final(f) == stages[i + 1]->Poll_0
    } by {
        let p = stages[i - 1];
        let q = stages[i];
    }
}

impl<Start, Fut> FutState<Start, Fut> {
    /// A call whose inputs are still to be decoded.
    pub fn new(start: Start) -> (r: Self)
        ensures
            r == FutState::<Start, Fut>::Init(start),
    {
        FutState::Init(start)
    }

    /// Polls the call: at the first poll the inputs are decoded and the
    /// procedure called by `start`, once; if that fails the call is over and
    /// the error is handed back. Then `cb` polls the future. A call is not
    /// polled again once it failed to start.
    pub fn poll<E, R, S, C>(&mut self, start: S, cb: C) -> (r: Step<E, R>) where
        S: FnOnce(Start) -> Result<Fut, E>,
        C: FnOnce(&mut Fut) -> R,
        requires
            !(*old(self) is Done),
            *old(self) matches FutState::Init(s) ==> call_requires(start, (s,)),
            forall|f: &mut Fut| call_requires(cb, (f,)),
        ensures
            match *old(self) {
                FutState::Init(s) => exists|res: Result<Fut, E>|
                    call_ensures(start, (s,), res) && match res {
                        Ok(fut) => *final(self) is Poll && r is Polled && exists|f: &mut Fut|
                            *f == fut && call_ensures(cb, (f,), r->Polled_0) && *final(f) == final(self)->Poll_0,
                        Err(e) => *final(self) is Done && r == Step::<E, R>::DecodeFailed(e),
                    },
                FutState::Poll(fut) => *final(self) is Poll && r is Polled && exists|f: &mut Fut|
                    *f == fut && call_ensures(cb, (f,), r->Polled_0) && *final(f) == final(self)->Poll_0,
                FutState::Done => true,
            },
    {
        let mut cur = FutState::Done;
        std::mem::swap(&mut cur, self);
        let ghost mut started: Result<Fut, E> = arbitrary();
        let mut fut = match cur {
            FutState::Init(s) => {
                let res = start(s);
                proof {
                    started = res;
                }
                match res {
                    Ok(fut) => fut,
                    Err(e) => return Step::DecodeFailed(e),
                }
            },
            FutState::Poll(fut) => fut,
            FutState::Done => vstd::pervasive::unreached(),
        };
        let ghost fut0 = fut;
        let out = cb(&mut fut);
        *self = FutState::Poll(fut);
        assert(*old(self) matches FutState::Init(s0) ==> call_ensures(start, (s0,), started) && started is Ok);
        let r = Step::Polled(out);
        assert(exists|f: &mut Fut| *f == fut0 && call_ensures(cb, (f,), r->Polled_0) && *final(f) == self->Poll_0);
        r
    }
}

} // verus!
