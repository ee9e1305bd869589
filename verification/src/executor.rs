//! The executor: where functions are invoked.
//!
//! An [`Executor`] is made with a configuration and, where the caller wants
//! invocations metered, bound to a statistics sink. `run_func` then takes a
//! function object and host values, checks the values against the
//! signature, meters the call, carries the values to the function object in
//! their guest representation and carries the results back.

use vstd::prelude::*;
use crate::async_func::{
    answered, answered_raw, event_of, progress_of, raw_progress_of, AsyncFunc, CallProgress,
    HostAnswer, Progress,
};
use crate::async_state::{AsyncEvent, AsyncState, AsyncStateView, AsyncStatus};
use crate::config::Config;
use crate::error::{ExecError, HostFuncError, Trap};
use crate::func::{
    delivered, raws_of, returned, settled, settled_values, values_of, Func, FuncRef, FuncType,
    FuncTypeView,
};
use crate::statistics::{saturated, Statistics, StatisticsView};
use crate::value::{
    guest_seq, host_seq, kinds_of, lemma_seq_round_trip, marshal, unmarshal, RawValue,
    WasmValue,
};

verus! {

/// The identity of a module instance.
#[derive(Clone, Copy, Debug, PartialEq, Eq, Structural)]
pub struct ModuleId(pub u32);

/// The place where functions are invoked, bound for its whole life to one
/// configuration and to at most one statistics sink.
///
/// The sink is borrowed mutably: while the executor lives, nothing else can
/// reach it, and it cannot go before the executor does.
///
/// Calls take the executor by mutable reference, so two calls on one
/// executor never run at the same time: callers on several threads share an
/// executor behind a lock of their own. Each call is metered in full before
/// it returns, and a call that fails leaves the executor fit for the next.
#[derive(Debug)]
pub struct Executor<'a> {
    config: Config,
    stats: Option<&'a mut Statistics>,
}

/// What a host function sees of the call it runs in: the executor, and the
/// module instance of the function, where it has one. A frame is made for
/// one call and borrows the executor for that call only.
pub struct CallingFrame<'x, 'a> {
    executor: &'x Executor<'a>,
    module: Option<ModuleId>,
}

impl<'x, 'a> CallingFrame<'x, 'a> {
    /// The executor that runs the call.
    pub closed spec fn host(&self) -> Executor<'a> {
        *self.executor
    }

    /// The module instance of the function called.
    pub closed spec fn spec_module(&self) -> Option<ModuleId> {
        self.module
    }

    /// A frame for a call that `executor` runs.
    pub fn new(executor: &'x Executor<'a>, module: Option<ModuleId>) -> (frame: CallingFrame<
        'x,
        'a,
    >)
        ensures
            frame.host() == *executor,
            frame.module() == module,
    {
        CallingFrame { executor, module }
    }

    /// The executor that runs the call.
    pub fn executor(&self) -> (executor: &'x Executor<'a>)
        ensures
            *executor == self.host(),
    {
        self.executor
    }

    /// The module instance of the function called.
    #[verifier::when_used_as_spec(spec_module)]
    pub fn module(&self) -> (module: Option<ModuleId>)
        ensures
            module == self.spec_module(),
    {
        self.module
    }
}

/// The configuration that an executor gets: the one given, or the standard
/// one.
pub open spec fn chosen(config: Option<&Config>) -> Config {
    match config {
        Some(c) => *c,
        None => Config::standard(),
    }
}

/// The metered cost after a call of cost `delta` was charged against
/// `limit`: the sum, where it stays within the limit; else the limit, so
/// that what could be spent is spent; and no less than before in any case.
pub open spec fn charged(cost: nat, delta: nat, limit: nat) -> nat {
    if cost + delta <= limit {
        cost + delta
    } else if cost <= limit {
        limit
    } else {
        cost
    }
}

/// Whether a call of cost `delta` passes `limit`: with a sink, where the
/// cost metered so far and the cost of the call together are over the limit;
/// without a sink, where no cost is kept from call to call, where the cost of
/// the call alone is over the limit.
pub open spec fn over_limit(metered: Option<StatisticsView>, delta: u64, limit: u64) -> bool {
    match metered {
        Some(s) => s.cost + delta > limit,
        None => delta > limit,
    }
}

/// What the sink holds after a call of cost `delta` was charged.
pub open spec fn after_charge(metered: Option<StatisticsView>, delta: u64, limit: u64) -> Option<
    StatisticsView,
> {
    match metered {
        Some(s) => Some(
            StatisticsView { cost: charged(s.cost, delta as nat, limit as nat), time: s.time },
        ),
        None => None,
    }
}

/// Why a call is refused before the function object is entered, where it
/// is: arguments that do not fit the signature are a type mismatch, and a
/// cost that would pass the limit is a trap.
pub open spec fn refusal(
    metered: Option<StatisticsView>,
    limit: u64,
    sig: FuncTypeView,
    cost: u64,
    args: Seq<WasmValue>,
) -> Option<ExecError> {
    if !sig.accepts(args) {
        Some(ExecError::TypeMismatch)
    } else if over_limit(metered, cost, limit) {
        Some(ExecError::Trap(Trap::ResourceLimitExceeded))
    } else {
        None
    }
}

/// What becomes of a call of a guest function once the engine has run it:
/// where its cost took the metered cost over the limit, the trap
/// `ResourceLimitExceeded`; else the error that the engine reported, where it
/// reported one; else the results as host values, where they carry the kind
/// tags of the result types, and `SignatureMismatch` where they do not.
pub open spec fn concluded(
    metered: Option<StatisticsView>,
    limit: u64,
    sig: FuncTypeView,
    cost: u64,
    outcome: Result<Vec<RawValue>, ExecError>,
) -> Result<Seq<WasmValue>, ExecError> {
    if over_limit(metered, cost, limit) {
        Err(ExecError::Trap(Trap::ResourceLimitExceeded))
    } else {
        match outcome {
            Ok(raws) => if sig.yields_raw(raws@) {
                Ok(host_seq(raws@))
            } else {
                Err(ExecError::SignatureMismatch)
            },
            Err(e) => Err(e),
        }
    }
}

/// What the sink holds after a call: what it held, where the arguments were
/// refused; else what it held with the call charged.
pub open spec fn metered_after(
    metered: Option<StatisticsView>,
    limit: u64,
    sig: FuncTypeView,
    cost: u64,
    args: Seq<WasmValue>,
) -> Option<StatisticsView> {
    if sig.accepts(args) {
        after_charge(metered, cost, limit)
    } else {
        metered
    }
}

impl<'a> Executor<'a> {
    /// The sink that the executor is bound to, where it is bound to one.
    pub closed spec fn sink(&self) -> Option<&'a mut Statistics> {
        self.stats
    }

    /// The configuration that the executor was made with.
    pub closed spec fn spec_config(&self) -> Config {
        self.config
    }

    /// What the bound sink holds now.
    pub open spec fn metered(&self) -> Option<StatisticsView> {
        match self.sink() {
            Some(s) => Some(s@),
            None => None,
        }
    }

    /// The ceiling that calls are metered against.
    pub open spec fn limit(&self) -> u64 {
        self.config().limit()
    }

    /// Makes an executor with the given configuration, or the standard one,
    /// and binds it to the given sink, where there is one. The sink is left
    /// as it is, whether an executor is made or not.
    ///
    /// Fails with `EngineInit` where the configuration is not valid; no
    /// executor is made then, and the sink is not bound.
    pub fn new(config: Option<&Config>, stat: Option<&'a mut Statistics>) -> (r: Result<
        Executor<'a>,
        ExecError,
    >)
        ensures
            (config matches Some(c) && !c.valid()) ==> (r matches Err(e) && e
                == ExecError::EngineInit),
            (config matches Some(c) ==> c.valid()) ==> (r matches Ok(executor)
                && executor.config() == chosen(config) && executor.sink() == stat),
            config is None ==> (r matches Ok(executor) && executor.limit() == u64::MAX),
            r is Err ==> match stat {
                Some(s) => *final(s) == *s,
                None => true,
            },
    {
        proof {
            Config::lemma_standard();
        }
        let config = match config {
            Some(c) => *c,
            None => Config::default(),
        };
        if !config.is_valid() {
            return Err(ExecError::EngineInit);
        }
        Ok(Executor { config, stats: stat })
    }

    /// The configuration that the executor was made with.
    #[verifier::when_used_as_spec(spec_config)]
    pub fn config(&self) -> (config: Config)
        ensures
            config == self.spec_config(),
    {
        self.config
    }

    /// The cost that the bound sink holds now.
    pub fn cost(&self) -> (cost: Option<u64>)
        ensures
            cost is Some <==> self.metered() is Some,
            cost matches Some(c) ==> c == self.metered()->0.cost,
    {
        match &self.stats {
            Some(s) => Some(s.cost()),
            None => None,
        }
    }

    /// Adds `delta` nanoseconds to the time that the bound sink holds. The
    /// caller measures the time of a call and reports it here; without a sink
    /// nothing is recorded.
    pub fn record_time(&mut self, delta: u64)
        ensures
            final(self).config() == old(self).config(),
            match (old(self).sink(), final(self).sink()) {
                (Some(before), Some(after)) => *final(before) == *final(after),
                (None, None) => true,
                _ => false,
            },
            final(self).metered() == match old(self).metered() {
                Some(s) => Some(
                    StatisticsView { cost: s.cost, time: saturated(s.time, delta as nat) },
                ),
                None => None,
            },
    {
        match &mut self.stats {
            Some(s) => {
                s.record_time(delta);
            },
            None => {},
        }
    }

    /// An executor that is done with is done with its sink: once nothing can
    /// change the executor any more, the sink holds its final value, which is
    /// what the caller finds in it after the executor is gone.
    pub proof fn lemma_sink_resolves(executor: Executor<'a>)
        requires
            has_resolved(executor),
        ensures
            executor.sink() matches Some(s) ==> has_resolved(s),
    {
    }

    /// Ends the executor and hands the sink back.
    pub fn release(self) -> (sink: Option<&'a mut Statistics>)
        ensures
            sink == self.sink(),
    {
        self.stats
    }

    /// Charges a call of cost `delta` to the sink, where there is one, and
    /// says whether the call stays within the limit.
    fn charge(&mut self, delta: u64) -> (within: bool)
        ensures
            final(self).config() == old(self).config(),
            match (old(self).sink(), final(self).sink()) {
                (Some(before), Some(after)) => *final(before) == *final(after),
                (None, None) => true,
                _ => false,
            },
            final(self).metered() == after_charge(old(self).metered(), delta, old(self).limit()),
            within == !over_limit(old(self).metered(), delta, old(self).limit()),
    {
        let limit = self.config.effective_cost_limit();
        match &mut self.stats {
            Some(s) => {
                let cost = s.cost();
                if cost <= limit {
                    let room = limit - cost;
                    if delta <= room {
                        s.record_cost(delta);
                        true
                    } else {
                        s.record_cost(room);
                        false
                    }
                } else {
                    false
                }
            },
            None => delta <= limit,
        }
    }

    /// Checks the arguments of a call against the signature of the function
    /// and converts them for the engine. Nothing is metered and nothing
    /// changes.
    ///
    /// Fails with `TypeMismatch` where the arguments do not fit the
    /// signature.
    pub fn prepare_call(&self, ty: &FuncType, params: &Vec<WasmValue>) -> (r: Result<
        Vec<RawValue>,
        ExecError,
    >)
        ensures
            !ty@.accepts(params@) ==> (r matches Err(e) && e == ExecError::TypeMismatch),
            ty@.accepts(params@) ==> (r matches Ok(raws) && raws@ == guest_seq(params@)
                && ty@.accepts_raw(raws@) && host_seq(raws@) == params@),
    {
        if !ty.accepts(params) {
            return Err(ExecError::TypeMismatch);
        }
        Ok(marshal(params))
    }

    /// Takes what the engine reports of a call of a guest function that it
    /// ran: the cost of what was executed, and the raw results or the error
    /// that ended the call. The cost is charged to the sink, where there is
    /// one, whatever the outcome, so that a call that trapped is metered as
    /// far as it came; a cost that passes the limit ends the call in the trap
    /// `ResourceLimitExceeded`, with or without a sink; and the call returns
    /// what `concluded` says.
    pub fn conclude_call(
        &mut self,
        ty: &FuncType,
        cost: u64,
        outcome: Result<Vec<RawValue>, ExecError>,
    ) -> (r: Result<Vec<WasmValue>, ExecError>)
        ensures
            final(self).config() == old(self).config(),
            match (old(self).sink(), final(self).sink()) {
                (Some(before), Some(after)) => *final(before) == *final(after),
                (None, None) => true,
                _ => false,
            },
            final(self).metered() == after_charge(old(self).metered(), cost, old(self).limit()),
            values_of(r) == concluded(old(self).metered(), old(self).limit(), ty@, cost, outcome),
            r matches Ok(values) ==> ty@.yields(values@),
    {
        if !self.charge(cost) {
            return Err(ExecError::Trap(Trap::ResourceLimitExceeded));
        }
        match outcome {
            Ok(raws) => {
                if ty.yields_raw(&raws) {
                    Ok(unmarshal(&raws))
                } else {
                    Err(ExecError::SignatureMismatch)
                }
            },
            Err(e) => Err(e),
        }
    }

    /// Runs a function object on the given arguments and returns its
    /// results.
    ///
    /// Arguments that do not fit the signature are refused with
    /// `TypeMismatch`, and nothing else happens. Otherwise the cost of the
    /// call is charged to the sink, where there is one; a call that passes
    /// the limit, as `over_limit` says, ends in the trap
    /// `ResourceLimitExceeded` before the callable is entered, with or
    /// without a sink. Otherwise the callable is called once, and the call
    /// returns what `settled` makes of what the callable returned.
    pub fn run_func<F, D>(&mut self, func: &Func<F, D>, params: Vec<WasmValue>) -> (r: Result<
        Vec<WasmValue>,
        ExecError,
    >) where
        F: for <'x, 'b, 'd>Fn(CallingFrame<'x, 'b>, Vec<WasmValue>, Option<&'d D>) -> Result<
            Vec<WasmValue>,
            HostFuncError,
        >,

        ensures
            final(self).config() == old(self).config(),
            match (old(self).sink(), final(self).sink()) {
                (Some(before), Some(after)) => *final(before) == *final(after),
                (None, None) => true,
                _ => false,
            },
            final(self).metered() == metered_after(
                old(self).metered(),
                old(self).limit(),
                func.sig(),
                func.cost(),
                params@,
            ),
            r matches Ok(values) ==> func.sig().yields(values@),
            refusal(
                old(self).metered(),
                old(self).limit(),
                func.sig(),
                func.cost(),
                params@,
            ) matches Some(e) ==> values_of(r) == Err::<Seq<WasmValue>, ExecError>(e),
            refusal(old(self).metered(), old(self).limit(), func.sig(), func.cost(), params@)
                is None ==> exists|
                frame: CallingFrame,
                args: Vec<WasmValue>,
                ret: Result<Vec<WasmValue>, HostFuncError>,
            | #[trigger]
                func.may_return(frame, args, ret) && args@ == params@ && frame.module()
                    == func.home() && frame.host() == *final(self) && values_of(r) == settled(
                    func.sig(),
                    ret,
                ),
    {
        if !func.ty().accepts(&params) {
            return Err(ExecError::TypeMismatch);
        }
        if !self.charge(func.cost()) {
            return Err(ExecError::Trap(Trap::ResourceLimitExceeded));
        }
        let raw_args = marshal(&params);
        let frame = CallingFrame { executor: &*self, module: func.module() };
        let ghost entered = frame;
        let out = func.invoke(frame, &raw_args);
        proof {
            let (args, ret) = choose|
                args: Vec<WasmValue>,
                ret: Result<Vec<WasmValue>, HostFuncError>,
            |
                args@ == params@ && #[trigger] func.may_return(entered, args, ret) && raws_of(out)
                    == delivered(func.sig(), ret);
            if let Ok(values) = ret {
                lemma_seq_round_trip(values@);
            }
        }
        match out {
            Ok(raws) => Ok(unmarshal(&raws)),
            Err(e) => Err(e),
        }
    }

    /// Runs the function object that a reference refers to, as `run_func`
    /// runs the function object itself.
    pub fn run_func_ref<F, D>(
        &mut self,
        func_ref: &FuncRef<'_, F, D>,
        params: Vec<WasmValue>,
    ) -> (r: Result<Vec<WasmValue>, ExecError>) where
        F: for <'x, 'b, 'd>Fn(CallingFrame<'x, 'b>, Vec<WasmValue>, Option<&'d D>) -> Result<
            Vec<WasmValue>,
            HostFuncError,
        >,

        ensures
            final(self).config() == old(self).config(),
            match (old(self).sink(), final(self).sink()) {
                (Some(before), Some(after)) => *final(before) == *final(after),
                (None, None) => true,
                _ => false,
            },
            final(self).metered() == metered_after(
                old(self).metered(),
                old(self).limit(),
                func_ref.target().sig(),
                func_ref.target().cost(),
                params@,
            ),
            r matches Ok(values) ==> func_ref.target().sig().yields(values@),
            refusal(
                old(self).metered(),
                old(self).limit(),
                func_ref.target().sig(),
                func_ref.target().cost(),
                params@,
            ) matches Some(e) ==> values_of(r) == Err::<Seq<WasmValue>, ExecError>(e),
            refusal(old(self).metered(), old(self).limit(), func_ref.target().sig(), func_ref.target().cost(), params@)
                is None ==> exists|
                frame: CallingFrame,
                args: Vec<WasmValue>,
                ret: Result<Vec<WasmValue>, HostFuncError>,
            | #[trigger]
                func_ref.target().may_return(frame, args, ret) && args@ == params@ && frame.module()
                    == func_ref.target().home() && frame.host() == *final(self) && values_of(r) == settled(
                    func_ref.target().sig(),
                    ret,
                ),
    {
        self.run_func(func_ref.func(), params)
    }

    /// Polls the running call once and moves its state by the answer.
    fn poll_once<P, D>(
        &self,
        state: &mut AsyncState,
        func: &AsyncFunc<P, D>,
        params: &Vec<WasmValue>,
    ) -> (r: CallProgress) where
        P: for <'x, 'b, 'd>Fn(CallingFrame<'x, 'b>, Vec<WasmValue>, Option<&'d D>, u64) -> Progress<
            Result<Vec<WasmValue>, HostFuncError>,
        >,

        requires
            old(state)@.status is Running,
            func.sig().accepts(params@),
        ensures
            exists|frame: CallingFrame, args: Vec<WasmValue>, answer: HostAnswer| #[trigger]
                func.may_answer(frame, args, old(state)@.suspensions, answer) && args@
                    == params@ && frame.module() == func.home() && frame.host() == *self
                    && progress_of(r) == answered(func.sig(), answer) && final(state)@ == old(state)@.next(event_of(answered(func.sig(), answer))),
    {
        let raw_args = marshal(params);
        let frame = CallingFrame { executor: self, module: func.module() };
        let ghost entered = frame;
        let resumed = state.suspensions();
        let out = func.poll(frame, &raw_args, resumed);
        proof {
            let (args, answer) = choose|args: Vec<WasmValue>, answer: HostAnswer|
                args@ == params@ && #[trigger] func.may_answer(entered, args, resumed, answer)
                    && raw_progress_of(out) == answered_raw(func.sig(), answer);
            if let Progress::Ready(Ok(values)) = answer {
                lemma_seq_round_trip(values@);
            }
        }
        match out {
            Progress::Pending => {
                let _ = state.apply(AsyncEvent::Suspend);
                Progress::Pending
            },
            Progress::Ready(Ok(raws)) => {
                let _ = state.apply(AsyncEvent::Finish(None));
                Progress::Ready(Ok(unmarshal(&raws)))
            },
            Progress::Ready(Err(e)) => {
                let _ = state.apply(AsyncEvent::Finish(Some(e)));
                Progress::Ready(Err(e))
            },
        }
    }

    /// Begins a suspendable call on a state of its own and polls it for the
    /// first time.
    ///
    /// A state that is not idle is left alone, and the call is rejected: with
    /// the cause of the failure, where a call on that state has failed, else
    /// with `AsyncMisuse`. On an idle state the call is checked and metered as
    /// `run_func` does; where it is refused, the state fails with the refusal.
    /// Otherwise the callable is polled once: where it waits, the call is
    /// suspended and `Pending` is returned; where it is done, the call ends
    /// and its result is returned.
    pub fn start_func_async<P, D>(
        &mut self,
        state: &mut AsyncState,
        func: &AsyncFunc<P, D>,
        params: &Vec<WasmValue>,
    ) -> (r: CallProgress) where
        P: for <'x, 'b, 'd>Fn(CallingFrame<'x, 'b>, Vec<WasmValue>, Option<&'d D>, u64) -> Progress<
            Result<Vec<WasmValue>, HostFuncError>,
        >,

        ensures
            final(self).config() == old(self).config(),
            match (old(self).sink(), final(self).sink()) {
                (Some(before), Some(after)) => *final(before) == *final(after),
                (None, None) => true,
                _ => false,
            },
            !(old(state)@.status is Idle) ==> final(state)@ == old(state)@ && final(self).metered() == old(self).metered() && progress_of(r) == Progress::Ready(
                Err::<Seq<WasmValue>, ExecError>(old(state)@.rejection()),
            ),
            old(state)@.status is Idle ==> final(self).metered() == metered_after(
                old(self).metered(),
                old(self).limit(),
                func.sig(),
                func.cost(),
                params@,
            ),
            old(state)@.status is Idle ==> (refusal(
                old(self).metered(),
                old(self).limit(),
                func.sig(),
                func.cost(),
                params@,
            ) matches Some(e) ==> final(state)@ == old(state)@.next(AsyncEvent::Begin(Some(e)))
                && progress_of(r) == Progress::Ready(Err::<Seq<WasmValue>, ExecError>(e))),
            (old(state)@.status is Idle && refusal(
                old(self).metered(),
                old(self).limit(),
                func.sig(),
                func.cost(),
                params@,
            ) is None) ==> exists|frame: CallingFrame, args: Vec<WasmValue>, answer: HostAnswer| #[trigger]
                func.may_answer(frame, args, old(state)@.suspensions, answer) && args@
                    == params@ && frame.module() == func.home() && frame.host() == *final(self)
                    && progress_of(r) == answered(func.sig(), answer) && final(state)@ == old(state)@.next(AsyncEvent::Begin(None)).next(event_of(answered(func.sig(), answer))),
    {
        match state.status() {
            AsyncStatus::Idle => {},
            _ => {
                return Progress::Ready(Err(state.rejection()));
            },
        }
        if !func.ty().accepts(params) {
            let _ = state.apply(AsyncEvent::Begin(Some(ExecError::TypeMismatch)));
            return Progress::Ready(Err(ExecError::TypeMismatch));
        }
        if !self.charge(func.cost()) {
            let trap = ExecError::Trap(Trap::ResourceLimitExceeded);
            let _ = state.apply(AsyncEvent::Begin(Some(trap)));
            return Progress::Ready(Err(trap));
        }
        let _ = state.apply(AsyncEvent::Begin(None));
        self.poll_once(state, func, params)
    }

    /// Wakes a suspended call and polls it again.
    ///
    /// A state that holds no suspended call is left alone, and the operation
    /// is rejected: with the cause of the failure, where the call has failed
    /// (`Cancelled`, where it was abandoned), else with `AsyncMisuse`. The
    /// callable is not entered then. Otherwise the callable is polled once:
    /// where it waits, the call is suspended again and `Pending` is returned;
    /// where it is done, the call ends and its result is returned.
    pub fn resume_func_async<P, D>(
        &self,
        state: &mut AsyncState,
        func: &AsyncFunc<P, D>,
        params: &Vec<WasmValue>,
    ) -> (r: CallProgress) where
        P: for <'x, 'b, 'd>Fn(CallingFrame<'x, 'b>, Vec<WasmValue>, Option<&'d D>, u64) -> Progress<
            Result<Vec<WasmValue>, HostFuncError>,
        >,

        ensures
            !(old(state)@.status is Suspended && func.sig().accepts(params@)) ==> final(state)@
                == old(state)@,
            !(old(state)@.status is Suspended) ==> progress_of(r) == Progress::Ready(
                Err::<Seq<WasmValue>, ExecError>(old(state)@.rejection()),
            ),
            (old(state)@.status is Suspended && !func.sig().accepts(params@)) ==> progress_of(r)
                == Progress::Ready(Err::<Seq<WasmValue>, ExecError>(ExecError::TypeMismatch)),
            (old(state)@.status is Suspended && func.sig().accepts(params@)) ==> exists|
                frame: CallingFrame,
                args: Vec<WasmValue>,
                answer: HostAnswer,
            | #[trigger]
                func.may_answer(frame, args, old(state)@.suspensions, answer) && args@
                    == params@ && frame.module() == func.home() && frame.host() == *self
                    && progress_of(r) == answered(func.sig(), answer) && final(state)@ == old(state)@.next(AsyncEvent::Resume).next(event_of(answered(func.sig(), answer))),
    {
        match state.status() {
            AsyncStatus::Suspended => {},
            _ => {
                return Progress::Ready(Err(state.rejection()));
            },
        }
        if !func.ty().accepts(params) {
            return Progress::Ready(Err(ExecError::TypeMismatch));
        }
        let _ = state.apply(AsyncEvent::Resume);
        self.poll_once(state, func, params)
    }

    /// Drives a suspendable call to its end on the calling thread: begins it
    /// as `start_func_async` does, and wakes it as `resume_func_async` does
    /// each time it has yielded, up to `max_yields` times. A call that waits
    /// once more after that is abandoned and resolves with `Cancelled`.
    ///
    /// Returns how many times the call yielded and what it resolved with. A
    /// call whose callable waits `n` times and then returns, with `n` within
    /// `max_yields`, yields exactly `n` times and resolves with what
    /// `settled` makes of what the callable returned.
    #[verifier::loop_isolation(false)]
    pub fn run_func_async<P, D>(
        &mut self,
        state: &mut AsyncState,
        func: &AsyncFunc<P, D>,
        params: &Vec<WasmValue>,
        max_yields: u64,
    ) -> (r: (u64, Result<Vec<WasmValue>, ExecError>)) where
        P: for <'x, 'b, 'd>Fn(CallingFrame<'x, 'b>, Vec<WasmValue>, Option<&'d D>, u64) -> Progress<
            Result<Vec<WasmValue>, HostFuncError>,
        >,

        ensures
            final(self).config() == old(self).config(),
            match (old(self).sink(), final(self).sink()) {
                (Some(before), Some(after)) => *final(before) == *final(after),
                (None, None) => true,
                _ => false,
            },
            !(old(state)@.status is Idle) ==> final(state)@ == old(state)@ && final(self).metered() == old(self).metered() && r.0 == 0 && values_of(r.1) == Err::<
                Seq<WasmValue>,
                ExecError,
            >(old(state)@.rejection()),
            old(state)@.status is Idle ==> final(self).metered() == metered_after(
                old(self).metered(),
                old(self).limit(),
                func.sig(),
                func.cost(),
                params@,
            ),
            old(state)@.status is Idle ==> (refusal(
                old(self).metered(),
                old(self).limit(),
                func.sig(),
                func.cost(),
                params@,
            ) matches Some(e) ==> final(state)@ == old(state)@.next(AsyncEvent::Begin(Some(e)))
                && r.0 == 0 && values_of(r.1) == Err::<Seq<WasmValue>, ExecError>(e)),
            (old(state)@.status is Idle && refusal(
                old(self).metered(),
                old(self).limit(),
                func.sig(),
                func.cost(),
                params@,
            ) is None) ==> {
                let base = old(state)@.suspensions;
                &&& r.0 <= max_yields
                &&& base + r.0 <= u64::MAX
                &&& forall|resumed: u64|
                    base <= resumed < base + r.0 ==> #[trigger] func.may_answer_call(
                        *final(self),
                        params@,
                        resumed,
                        Progress::Pending,
                    )
                &&& {
                    ||| exists|ret: Result<Vec<WasmValue>, HostFuncError>| #[trigger]
                        func.may_answer_call(
                            *final(self),
                            params@,
                            (base + r.0) as u64,
                            Progress::Ready(ret),
                        ) && values_of(r.1) == settled(func.sig(), ret) && final(state)@
                            == (AsyncStateView {
                            status: match settled(func.sig(), ret) {
                                Ok(_) => AsyncStatus::Completed,
                                Err(e) => AsyncStatus::Failed(e),
                            },
                            suspensions: (base + r.0) as u64,
                        })
                    ||| {
                        &&& r.0 == max_yields || base + r.0 + 1 >= u64::MAX
                        &&& func.may_answer_call(
                            *final(self),
                            params@,
                            (base + r.0) as u64,
                            Progress::Pending,
                        )
                        &&& values_of(r.1) == Err::<Seq<WasmValue>, ExecError>(
                            ExecError::Cancelled,
                        )
                        &&& final(state)@.status == AsyncStatus::Failed(ExecError::Cancelled)
                    }
                }
                &&& forall|n: u64, ret: Result<Seq<WasmValue>, HostFuncError>|
                    n <= max_yields && base + n < u64::MAX && #[trigger] func.waits_then_returns(
                        *final(self),
                        params@,
                        base,
                        n,
                        ret,
                    ) ==> r.0 == n && values_of(r.1) == settled_values(func.sig(), ret)
            },
    {
        let ghost base = state@.suspensions;
        let ghost entered = state@.status is Idle && refusal(
            self.metered(),
            self.limit(),
            func.sig(),
            func.cost(),
            params@,
        ) is None;
        let first = self.start_func_async(state, func, params);
        let ghost host = *self;
        proof {
            if entered {
                let (frame, args, answer) = choose|
                    frame: CallingFrame,
                    args: Vec<WasmValue>,
                    answer: HostAnswer,
                | #[trigger]
                    func.may_answer(frame, args, base, answer) && args@ == params@
                        && frame.module() == func.home() && frame.host() == host && progress_of(first) == answered(func.sig(), answer) && state@ == old(state)@.next(
                        AsyncEvent::Begin(None),
                    ).next(event_of(answered(func.sig(), answer)));
                assert(func.may_answer_call(host, params@, base, answer));
                if first is Ready {
                    lemma_driven(func, host, params@, base, 0, max_yields, answer);
                }
            }
        }
        match first {
            Progress::Ready(result) => {
                return (0, result);
            },
            Progress::Pending => {},
        }
        let mut yields: u64 = 0;
        loop
            invariant
                *self == host,
                entered,
                func.sig().accepts(params@),
                yields <= max_yields,
                base + yields <= u64::MAX,
                forall|resumed: u64|
                    base <= resumed < base + yields ==> #[trigger] func.may_answer_call(
                        host,
                        params@,
                        resumed,
                        Progress::Pending,
                    ),
                func.may_answer_call(host, params@, (base + yields) as u64, Progress::Pending),
                state@.status is Suspended,
                state@.suspensions == if base + yields < u64::MAX {
                    (base + yields + 1) as u64
                } else {
                    u64::MAX
                },
            decreases max_yields - yields,
        {
            if yields == max_yields || state.suspensions() == u64::MAX {
                state.cancel();
                proof {
                    lemma_driven(
                        func,
                        host,
                        params@,
                        base,
                        yields,
                        max_yields,
                        Progress::Pending,
                    );
                }
                return (yields, Err(ExecError::Cancelled));
            }
            let ghost before = state@;
            yields = yields + 1;
            let progress = self.resume_func_async(state, func, params);
            proof {
                let (frame, args, answer) = choose|
                    frame: CallingFrame,
                    args: Vec<WasmValue>,
                    answer: HostAnswer,
                | #[trigger]
                    func.may_answer(frame, args, before.suspensions, answer) && args@ == params@
                        && frame.module() == func.home() && frame.host() == host && progress_of(progress) == answered(func.sig(), answer) && state@ == before.next(
                        AsyncEvent::Resume,
                    ).next(event_of(answered(func.sig(), answer)));
                assert(func.may_answer_call(host, params@, (base + yields) as u64, answer));
                if progress is Ready {
                    lemma_driven(func, host, params@, base, yields, max_yields, answer);
                }
            }
            match progress {
                Progress::Ready(result) => {
                    return (yields, result);
                },
                Progress::Pending => {},
            }
        }
    }
}

/// What follows for a driven call from the answers that its callable gave:
/// where the callable waits `n` times and then returns, the call has yielded
/// `n` times when the callable gives its last answer, and that answer is what
/// it returns.
proof fn lemma_driven<P, D>(
    func: &AsyncFunc<P, D>,
    host: Executor,
    params: Seq<WasmValue>,
    base: u64,
    yields: u64,
    max_yields: u64,
    last: HostAnswer,
) where
    P: for <'x, 'b, 'd>Fn(CallingFrame<'x, 'b>, Vec<WasmValue>, Option<&'d D>, u64) -> Progress<
        Result<Vec<WasmValue>, HostFuncError>,
    >,

    requires
        yields <= max_yields,
        base + yields <= u64::MAX,
        forall|resumed: u64|
            base <= resumed < base + yields ==> #[trigger] func.may_answer_call(
                host,
                params,
                resumed,
                Progress::Pending,
            ),
        func.may_answer_call(host, params, (base + yields) as u64, last),
        last is Pending ==> yields == max_yields || base + yields + 1 >= u64::MAX,
    ensures
        forall|n: u64, ret: Result<Seq<WasmValue>, HostFuncError>|
            n <= max_yields && base + n < u64::MAX && #[trigger] func.waits_then_returns(
                host,
                params,
                base,
                n,
                ret,
            ) ==> yields == n && (last matches Progress::Ready(r) && returned(r) == ret),
{
    assert forall|n: u64, ret: Result<Seq<WasmValue>, HostFuncError>|
        n <= max_yields && base + n < u64::MAX && #[trigger] func.waits_then_returns(
            host,
            params,
            base,
            n,
            ret,
        ) implies yields == n && (last matches Progress::Ready(r) && returned(r) == ret) by {
        if n < yields {
            assert(func.may_answer_call(host, params, (base + n) as u64, Progress::Pending));
        }
    }
}

/// On an executor whose metering leaves room for it, a call without
/// arguments of a function without parameters and results, whose callable
/// returns nothing, is not refused and succeeds with no results. With what
/// `Executor::new` states, this holds of every executor made with or without
/// a configuration and with or without a sink.
pub proof fn lemma_trivial_call_succeeds(
    metered: Option<StatisticsView>,
    limit: u64,
    sig: FuncTypeView,
    cost: u64,
    ret: Result<Vec<WasmValue>, HostFuncError>,
)
    requires
        sig.params.len() == 0,
        sig.results.len() == 0,
        ret matches Ok(values) && values@.len() == 0,
        !over_limit(metered, cost, limit),
    ensures
        refusal(metered, limit, sig, cost, Seq::<WasmValue>::empty()) is None,
        settled(sig, ret) == Ok::<Seq<WasmValue>, ExecError>(Seq::<WasmValue>::empty()),
{
    assert(kinds_of(Seq::<WasmValue>::empty()) =~= sig.params);
    assert(kinds_of(ret->Ok_0@) =~= sig.results);
    assert(ret->Ok_0@ =~= Seq::<WasmValue>::empty());
}

/// Whether a call is refused for its cost on an executor that has run no
/// call yet: with a sink that was just made, which holds no cost, and without
/// a sink alike, only where the cost of the function alone is over the limit.
pub proof fn lemma_fresh_executor_leaves_room(
    metered: Option<StatisticsView>,
    limit: u64,
    cost: u64,
)
    requires
        metered matches Some(sink) ==> sink.cost == 0,
    ensures
        over_limit(metered, cost, limit) <==> cost > limit,
{
}

/// A ceiling set in the configuration bounds every call, bound to a sink or
/// not: a call whose arguments fit and whose cost alone is over the limit is
/// refused with the trap `ResourceLimitExceeded`, and a call of a guest
/// function that the engine has run at such a cost ends in that trap.
pub proof fn lemma_limit_holds_without_sink(
    metered: Option<StatisticsView>,
    limit: u64,
    sig: FuncTypeView,
    cost: u64,
    args: Seq<WasmValue>,
    outcome: Result<Vec<RawValue>, ExecError>,
)
    requires
        cost > limit,
    ensures
        over_limit(metered, cost, limit),
        sig.accepts(args) ==> refusal(metered, limit, sig, cost, args) == Some(
            ExecError::Trap(Trap::ResourceLimitExceeded),
        ),
        concluded(metered, limit, sig, cost, outcome) == Err::<Seq<WasmValue>, ExecError>(
            ExecError::Trap(Trap::ResourceLimitExceeded),
        ),
{
}

/// A call never lowers the metered cost and never changes the metered time.
/// A call that is entered raises the cost by exactly the cost of the
/// function: the cost is higher after it than before, and the same only
/// where the function costs nothing.
pub proof fn lemma_cost_grows_by_call(
    metered: Option<StatisticsView>,
    limit: u64,
    sig: FuncTypeView,
    cost: u64,
    args: Seq<WasmValue>,
)
    requires
        metered is Some,
    ensures
        metered_after(metered, limit, sig, cost, args) is Some,
        metered_after(metered, limit, sig, cost, args)->0.cost >= metered->0.cost,
        metered_after(metered, limit, sig, cost, args)->0.time == metered->0.time,
        refusal(metered, limit, sig, cost, args) is None ==> {
            &&& metered_after(metered, limit, sig, cost, args)->0.cost == metered->0.cost + cost
            &&& (metered_after(metered, limit, sig, cost, args)->0.cost == metered->0.cost <==> cost
                == 0)
        },
{
}

/// A call whose arguments do not fit the signature, because there are too
/// few or too many of them or because one is not of the kind of its
/// parameter, is refused with `TypeMismatch` and leaves the sink as it was.
pub proof fn lemma_mismatch_changes_nothing(
    metered: Option<StatisticsView>,
    limit: u64,
    sig: FuncTypeView,
    cost: u64,
    args: Seq<WasmValue>,
)
    requires
        args.len() != sig.params.len() || exists|i: int|
            0 <= i < args.len() && #[trigger] args[i].kind() != sig.params[i],
    ensures
        !sig.accepts(args),
        refusal(metered, limit, sig, cost, args) == Some(ExecError::TypeMismatch),
        metered_after(metered, limit, sig, cost, args) == metered,
{
    if args.len() == sig.params.len() {
        let i = choose|i: int| 0 <= i < args.len() && #[trigger] args[i].kind() != sig.params[i];
        assert(kinds_of(args)[i] == args[i].kind());
    } else {
        assert(kinds_of(args).len() == args.len());
    }
}

} // verus!
