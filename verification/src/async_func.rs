//! Host callables that may suspend, and what a scheduler sees of a call to
//! one.
//!
//! A suspending callable is polled: each time it is entered it answers
//! either that it waits or that it is done, with its results or its failure.
//! It is told at each poll how many times the call has yielded so far, so
//! that it can pick up where it left off.

use vstd::prelude::*;
use crate::async_state::{AsyncEvent, AsyncStateView};
use crate::error::{ExecError, HostFuncError};
use crate::executor::{CallingFrame, Executor, ModuleId};
use crate::func::{borrowed, delivered, returned, settled, FuncType, FuncTypeView};
use crate::value::{host_seq, marshal, unmarshal, RawValue, WasmValue};

verus! {

/// How far something has come: it waits, or it is done with a result.
#[derive(Debug, PartialEq, Eq)]
pub enum Progress<R> {
    Pending,
    Ready(R),
}

/// What a suspending callable answers to a poll.
pub type HostAnswer = Progress<Result<Vec<WasmValue>, HostFuncError>>;

/// What a poll of a suspendable call gives its caller.
pub type CallProgress = Progress<Result<Vec<WasmValue>, ExecError>>;

/// What a poll of a function object gives the engine.
pub type RawProgress = Progress<Result<Vec<RawValue>, ExecError>>;

/// What a poll gives its caller for what the callable answered: to wait,
/// where the callable waits; else what `settled` makes of what it returned.
pub open spec fn answered(sig: FuncTypeView, answer: HostAnswer) -> Progress<
    Result<Seq<WasmValue>, ExecError>,
> {
    match answer {
        Progress::Pending => Progress::Pending,
        Progress::Ready(ret) => Progress::Ready(settled(sig, ret)),
    }
}

/// What a poll of the function object hands to the engine for what the
/// callable answered: as `answered`, with values in their guest
/// representation.
pub open spec fn answered_raw(sig: FuncTypeView, answer: HostAnswer) -> Progress<
    Result<Seq<RawValue>, ExecError>,
> {
    match answer {
        Progress::Pending => Progress::Pending,
        Progress::Ready(ret) => Progress::Ready(delivered(sig, ret)),
    }
}

/// The progress of a call, with the values as a sequence.
pub open spec fn progress_of(p: CallProgress) -> Progress<Result<Seq<WasmValue>, ExecError>> {
    match p {
        Progress::Pending => Progress::Pending,
        Progress::Ready(Ok(values)) => Progress::Ready(Ok(values@)),
        Progress::Ready(Err(e)) => Progress::Ready(Err(e)),
    }
}

/// The progress of a function object, with the guest representations as a
/// sequence.
pub open spec fn raw_progress_of(p: RawProgress) -> Progress<Result<Seq<RawValue>, ExecError>> {
    match p {
        Progress::Pending => Progress::Pending,
        Progress::Ready(Ok(raws)) => Progress::Ready(Ok(raws@)),
        Progress::Ready(Err(e)) => Progress::Ready(Err(e)),
    }
}

/// The event that the progress of a poll is for the state of the call.
pub open spec fn event_of(p: Progress<Result<Seq<WasmValue>, ExecError>>) -> AsyncEvent {
    match p {
        Progress::Pending => AsyncEvent::Suspend,
        Progress::Ready(Ok(_)) => AsyncEvent::Finish(None),
        Progress::Ready(Err(e)) => AsyncEvent::Finish(Some(e)),
    }
}

impl FuncType {
    /// Turns what a suspending callable answered into what its function
    /// object hands to the engine.
    pub fn deliver_answer(&self, answer: HostAnswer) -> (out: RawProgress)
        ensures
            raw_progress_of(out) == answered_raw(self@, answer),
    {
        match answer {
            Progress::Pending => Progress::Pending,
            Progress::Ready(ret) => Progress::Ready(self.deliver(ret)),
        }
    }
}

/// A suspending host callable wrapped into a function object.
///
/// Like [`crate::func::Func`], it owns the host-data payload that it was
/// wrapped with and lends it to the callable at each poll.
pub struct AsyncFunc<P, D> where
    P: for <'x, 'a, 'd>Fn(CallingFrame<'x, 'a>, Vec<WasmValue>, Option<&'d D>, u64) -> Progress<
        Result<Vec<WasmValue>, HostFuncError>,
    >,
 {
    ty: FuncType,
    poller: P,
    data: Option<D>,
    cost: u64,
    module: Option<ModuleId>,
}

impl<P, D> AsyncFunc<P, D> where
    P: for <'x, 'a, 'd>Fn(CallingFrame<'x, 'a>, Vec<WasmValue>, Option<&'d D>, u64) -> Progress<
        Result<Vec<WasmValue>, HostFuncError>,
    >,
 {
    /// The signature fits a function object, and the callable can be polled
    /// on every argument sequence that the signature accepts.
    #[verifier::type_invariant]
    spec fn inv(self) -> bool {
        &&& self.ty@.fits()
        &&& forall|frame: CallingFrame, args: Vec<WasmValue>, resumed: u64|
            self.ty@.accepts(args@) ==> call_requires(
                self.poller,
                (frame, args, borrowed(&self.data), resumed),
            )
    }

    /// The declared signature.
    pub closed spec fn sig(&self) -> FuncTypeView {
        self.ty@
    }

    /// The cost metered for each call.
    pub closed spec fn spec_cost(&self) -> u64 {
        self.cost
    }

    /// The module instance that the function belongs to, where it belongs to
    /// one.
    pub closed spec fn home(&self) -> Option<ModuleId> {
        self.module
    }

    /// The host-data payload that the function object owns.
    pub closed spec fn payload(&self) -> Option<D> {
        self.data
    }

    /// Whether the callable, polled with this frame, these arguments and the
    /// payload of this function object after `resumed` suspensions, may
    /// answer `answer`.
    pub closed spec fn may_answer(
        &self,
        frame: CallingFrame,
        args: Vec<WasmValue>,
        resumed: u64,
        answer: HostAnswer,
    ) -> bool {
        call_ensures(self.poller, (frame, args, borrowed(&self.data), resumed), answer)
    }

    /// Whether the callable, polled for a call with these arguments that
    /// `host` runs, after `resumed` suspensions of the call, may answer
    /// `answer`.
    pub open spec fn may_answer_call(
        &self,
        host: Executor,
        params: Seq<WasmValue>,
        resumed: u64,
        answer: HostAnswer,
    ) -> bool {
        exists|frame: CallingFrame, args: Vec<WasmValue>| #[trigger]
            self.may_answer(frame, args, resumed, answer) && args@ == params && frame.module()
                == self.home() && frame.host() == host
    }

    /// Whether the callable waits at each of the `n` polls of such a call
    /// from the one after `base` suspensions on, and at the poll after those
    /// is done and returns `ret`.
    pub open spec fn waits_then_returns(
        &self,
        host: Executor,
        params: Seq<WasmValue>,
        base: u64,
        n: u64,
        ret: Result<Seq<WasmValue>, HostFuncError>,
    ) -> bool {
        forall|resumed: u64, answer: HostAnswer| #[trigger]
            self.may_answer_call(host, params, resumed, answer) ==> (base <= resumed < base + n
                ==> answer is Pending) && (resumed == base + n ==> (answer matches Progress::Ready(
                r,
            ) && returned(r) == ret))
    }

    /// Wraps a suspending host callable, with its payload and the cost of a
    /// call, into a function object of the given signature.
    ///
    /// Fails with `SignatureMismatch` where the signature has more parameters
    /// or more results than a function object can carry.
    pub fn wrap_async(ty: FuncType, poller: P, data: Option<D>, cost: u64) -> (r: Result<
        AsyncFunc<P, D>,
        ExecError,
    >)
        requires
            forall|frame: CallingFrame, args: Vec<WasmValue>, resumed: u64|
                ty@.accepts(args@) ==> call_requires(
                    poller,
                    (frame, args, borrowed(&data), resumed),
                ),
        ensures
            !ty@.fits() ==> (r matches Err(e) && e == ExecError::SignatureMismatch),
            ty@.fits() ==> (r matches Ok(f) && f.sig() == ty@ && f.cost() == cost && f.home()
                == None::<ModuleId> && f.payload() == data && forall|
                frame: CallingFrame,
                args: Vec<WasmValue>,
                resumed: u64,
                answer: HostAnswer,
            | #[trigger]
                f.may_answer(frame, args, resumed, answer) == call_ensures(
                    poller,
                    (frame, args, borrowed(&data), resumed),
                    answer,
                )),
    {
        if !ty.fits() {
            return Err(ExecError::SignatureMismatch);
        }
        Ok(AsyncFunc { ty, poller, data, cost, module: None })
    }

    /// The declared signature.
    pub fn ty(&self) -> (ty: &FuncType)
        ensures
            ty@ == self.sig(),
    {
        &self.ty
    }

    /// The cost metered for each call.
    #[verifier::when_used_as_spec(spec_cost)]
    pub fn cost(&self) -> (cost: u64)
        ensures
            cost == self.spec_cost(),
    {
        self.cost
    }

    /// The host-data payload, borrowed.
    pub fn data(&self) -> (data: Option<&D>)
        ensures
            data == borrowed(&self.payload()),
    {
        self.data.as_ref()
    }

    /// The module instance that the function belongs to, where it belongs to
    /// one.
    pub fn module(&self) -> (module: Option<ModuleId>)
        ensures
            module == self.home(),
    {
        self.module
    }

    /// This function object as a function of the given module instance.
    pub fn in_module(self, module: ModuleId) -> (f: AsyncFunc<P, D>)
        ensures
            f.home() == Some(module),
            f.sig() == self.sig(),
            f.cost() == self.cost(),
            f.payload() == self.payload(),
            forall|frame: CallingFrame, args: Vec<WasmValue>, resumed: u64, answer: HostAnswer| #[trigger]
                f.may_answer(frame, args, resumed, answer) == self.may_answer(
                    frame,
                    args,
                    resumed,
                    answer,
                ),
    {
        proof {
            use_type_invariant(&self);
        }
        AsyncFunc {
            ty: self.ty,
            poller: self.poller,
            data: self.data,
            cost: self.cost,
            module: Some(module),
        }
    }

    /// Polls the function object with raw arguments, as an engine does, after
    /// `resumed` suspensions of the call.
    ///
    /// Raw arguments that do not carry the kind tags of the parameters are
    /// refused with `SignatureMismatch` before the callable is entered.
    /// Otherwise the callable is polled once, on the host values of the
    /// arguments, and its answer is handed back as `answered_raw` says.
    pub fn poll(&self, frame: CallingFrame<'_, '_>, raw_args: &Vec<RawValue>, resumed: u64) -> (out:
        RawProgress)
        ensures
            !self.sig().accepts_raw(raw_args@) ==> raw_progress_of(out) == Progress::Ready(
                Err::<Seq<RawValue>, ExecError>(ExecError::SignatureMismatch),
            ),
            self.sig().accepts_raw(raw_args@) ==> exists|args: Vec<WasmValue>, answer: HostAnswer|
                args@ == host_seq(raw_args@) && #[trigger] self.may_answer(
                    frame,
                    args,
                    resumed,
                    answer,
                ) && raw_progress_of(out) == answered_raw(self.sig(), answer),
    {
        proof {
            use_type_invariant(self);
        }
        if !self.ty.accepts_raw(raw_args) {
            return Progress::Ready(Err(ExecError::SignatureMismatch));
        }
        let args = unmarshal(raw_args);
        let ghost handed = args;
        let answer = (self.poller)(frame, args, self.data.as_ref(), resumed);
        let ghost given = answer;
        let out = self.ty.deliver_answer(answer);
        assert(self.may_answer(frame, handed, resumed, given));
        out
    }
}

/// What a scheduler has seen of a call once it was driven as far as the
/// answers reach.
pub struct Driven {
    /// How many times the call yielded to the scheduler.
    pub yields: nat,
    /// What the call resolved with, where it has resolved.
    pub resolved: Option<Result<Seq<WasmValue>, ExecError>>,
    /// The state of the call.
    pub state: AsyncStateView,
}

/// Drives a running call: polls it, and wakes and polls it again each time it
/// yields, while the callable answers `answers[0]`, `answers[1]` and so on.
pub open spec fn drive(state: AsyncStateView, sig: FuncTypeView, answers: Seq<HostAnswer>) -> Driven
    decreases answers.len(),
{
    if answers.len() == 0 || !(state.status is Running) {
        Driven { yields: 0, resolved: None, state }
    } else {
        let progress = answered(sig, answers[0]);
        let polled = state.next(event_of(progress));
        match progress {
            Progress::Pending => {
                let rest = drive(polled.next(AsyncEvent::Resume), sig, answers.skip(1));
                Driven { yields: rest.yields + 1, resolved: rest.resolved, state: rest.state }
            },
            Progress::Ready(result) => Driven { yields: 0, resolved: Some(result), state: polled },
        }
    }
}

/// The answers of a callable that waits `n` times and then returns `ret`.
pub open spec fn waits_then(n: nat, ret: Result<Vec<WasmValue>, HostFuncError>) -> Seq<HostAnswer> {
    Seq::new(n, |i: int| Progress::<Result<Vec<WasmValue>, HostFuncError>>::Pending).push(
        Progress::Ready(ret),
    )
}

/// A call whose callable waits `n` times and then returns yields to the
/// scheduler exactly `n` times, and then resolves with what `settled` makes
/// of what the callable returned: completed where that is a success, failed
/// with its error where it is not.
pub proof fn lemma_yields_once_per_wait(
    state: AsyncStateView,
    sig: FuncTypeView,
    n: nat,
    ret: Result<Vec<WasmValue>, HostFuncError>,
)
    requires
        state.status is Running,
        state.suspensions + n <= u64::MAX,
    ensures
        drive(state, sig, waits_then(n, ret)).yields == n,
        drive(state, sig, waits_then(n, ret)).resolved == Some(settled(sig, ret)),
        drive(state, sig, waits_then(n, ret)).state.suspensions == state.suspensions + n,
        drive(state, sig, waits_then(n, ret)).state.status == match settled(sig, ret) {
            Ok(_) => crate::async_state::AsyncStatus::Completed,
            Err(e) => crate::async_state::AsyncStatus::Failed(e),
        },
    decreases n,
{
    let answers = waits_then(n, ret);
    if n == 0 {
        assert(answers[0] == Progress::<Result<Vec<WasmValue>, HostFuncError>>::Ready(ret));
    } else {
        assert(answers[0] == Progress::<Result<Vec<WasmValue>, HostFuncError>>::Pending);
        assert(answers.skip(1) =~= waits_then((n - 1) as nat, ret));
        let woken = state.next(AsyncEvent::Suspend).next(AsyncEvent::Resume);
        lemma_yields_once_per_wait(woken, sig, (n - 1) as nat, ret);
    }
}

} // verus!
