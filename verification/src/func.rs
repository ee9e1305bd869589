//! Function signatures and the adapter that turns a host callable into a
//! function object.

use vstd::prelude::*;
use crate::error::{ExecError, HostFuncError};
use crate::executor::{CallingFrame, ModuleId};
use crate::value::{
    guest_seq, host_seq, kinds_of, marshal, raw_kinds_of, unmarshal,
    RawValue, ValType, WasmValue,
};

verus! {

/// The most parameters, and the most results, that the signature of a
/// function object can have.
pub const MAX_ARITY: usize = 1000;

/// A signature as two sequences of kinds.
pub struct FuncTypeView {
    pub params: Seq<ValType>,
    pub results: Seq<ValType>,
}

impl FuncTypeView {
    /// Whether a function object can carry this signature.
    pub open spec fn fits(self) -> bool {
        self.params.len() <= MAX_ARITY && self.results.len() <= MAX_ARITY
    }

    /// Whether `args` has the number and the kinds of the parameters, in
    /// order.
    pub open spec fn accepts(self, args: Seq<WasmValue>) -> bool {
        kinds_of(args) == self.params
    }

    /// Whether `results` has the number and the kinds of the results, in
    /// order.
    pub open spec fn yields(self, results: Seq<WasmValue>) -> bool {
        kinds_of(results) == self.results
    }

    /// Whether raw arguments carry the kind tags of the parameters, in order.
    pub open spec fn accepts_raw(self, raws: Seq<RawValue>) -> bool {
        raw_kinds_of(raws) == self.params
    }

    /// Whether raw results carry the kind tags of the results, in order.
    pub open spec fn yields_raw(self, raws: Seq<RawValue>) -> bool {
        raw_kinds_of(raws) == self.results
    }
}

/// The signature of a function: the kinds of its parameters and of its
/// results, each in declaration order.
#[derive(Debug, PartialEq, Eq)]
pub struct FuncType {
    params: Vec<ValType>,
    results: Vec<ValType>,
}

impl View for FuncType {
    type V = FuncTypeView;

    closed spec fn view(&self) -> FuncTypeView {
        FuncTypeView { params: self.params@, results: self.results@ }
    }
}

fn same_kinds(values: &Vec<WasmValue>, tys: &Vec<ValType>) -> (same: bool)
    ensures
        same == (kinds_of(values@) == tys@),
{
    if values.len() != tys.len() {
        return false;
    }
    let mut i: usize = 0;
    while i < values.len()
        invariant
            i <= values.len(),
            values.len() == tys.len(),
            forall|j: int| 0 <= j < i ==> values@[j].kind() == tys@[j],
        decreases values.len() - i,
    {
        if values[i].ty() != tys[i] {
            assert(kinds_of(values@)[i as int] != tys@[i as int]);
            return false;
        }
        i = i + 1;
    }
    assert(kinds_of(values@) =~= tys@);
    true
}

fn same_raw_kinds(raws: &Vec<RawValue>, tys: &Vec<ValType>) -> (same: bool)
    ensures
        same == (raw_kinds_of(raws@) == tys@),
{
    if raws.len() != tys.len() {
        return false;
    }
    let mut i: usize = 0;
    while i < raws.len()
        invariant
            i <= raws.len(),
            raws.len() == tys.len(),
            forall|j: int| 0 <= j < i ==> raws@[j].ty == tys@[j],
        decreases raws.len() - i,
    {
        if raws[i].ty != tys[i] {
            assert(raw_kinds_of(raws@)[i as int] != tys@[i as int]);
            return false;
        }
        i = i + 1;
    }
    assert(raw_kinds_of(raws@) =~= tys@);
    true
}

impl FuncType {
    /// The signature with these parameter and result kinds.
    pub fn new(params: Vec<ValType>, results: Vec<ValType>) -> (ty: FuncType)
        ensures
            ty@.params == params@,
            ty@.results == results@,
    {
        FuncType { params, results }
    }

    /// The kinds of the parameters.
    pub fn params(&self) -> (params: &Vec<ValType>)
        ensures
            params@ == self@.params,
    {
        &self.params
    }

    /// The kinds of the results.
    pub fn results(&self) -> (results: &Vec<ValType>)
        ensures
            results@ == self@.results,
    {
        &self.results
    }

    /// Whether a function object can carry this signature.
    pub fn fits(&self) -> (ok: bool)
        ensures
            ok == self@.fits(),
    {
        self.params.len() <= MAX_ARITY && self.results.len() <= MAX_ARITY
    }

    /// Whether `args` can be passed to a function of this signature.
    pub fn accepts(&self, args: &Vec<WasmValue>) -> (ok: bool)
        ensures
            ok == self@.accepts(args@),
    {
        same_kinds(args, &self.params)
    }

    /// Whether `results` can be returned by a function of this signature.
    pub fn yields(&self, results: &Vec<WasmValue>) -> (ok: bool)
        ensures
            ok == self@.yields(results@),
    {
        same_kinds(results, &self.results)
    }

    /// Whether raw arguments can be passed to a function of this signature.
    pub fn accepts_raw(&self, raws: &Vec<RawValue>) -> (ok: bool)
        ensures
            ok == self@.accepts_raw(raws@),
    {
        same_raw_kinds(raws, &self.params)
    }

    /// Whether raw results can be returned by a function of this signature.
    pub fn yields_raw(&self, raws: &Vec<RawValue>) -> (ok: bool)
        ensures
            ok == self@.yields_raw(raws@),
    {
        same_raw_kinds(raws, &self.results)
    }
}

/// What a host callable returned, with the values as a sequence.
pub open spec fn returned(ret: Result<Vec<WasmValue>, HostFuncError>) -> Result<
    Seq<WasmValue>,
    HostFuncError,
> {
    match ret {
        Ok(values) => Ok(values@),
        Err(cause) => Err(cause),
    }
}

/// What a call gives its caller for what the host callable returned: the
/// values, where they fit the result types; the callable's own failure as
/// the cause of a host function error; and a host function error of its own
/// where the callable returned values that do not fit.
pub open spec fn settled_values(sig: FuncTypeView, ret: Result<Seq<WasmValue>, HostFuncError>) -> Result<
    Seq<WasmValue>,
    ExecError,
> {
    match ret {
        Ok(values) => if sig.yields(values) {
            Ok(values)
        } else {
            Err(ExecError::HostFunction(HostFuncError::ResultMismatch))
        },
        Err(cause) => Err(ExecError::HostFunction(cause)),
    }
}

/// What a call gives its caller for what the host callable returned: what
/// `settled_values` says of the values and the failure in it.
pub open spec fn settled(sig: FuncTypeView, ret: Result<Vec<WasmValue>, HostFuncError>) -> Result<
    Seq<WasmValue>,
    ExecError,
> {
    settled_values(sig, returned(ret))
}

/// What a function object hands to the guest for what the host callable
/// returned: as `settled`, with the values in their guest representation.
pub open spec fn delivered(sig: FuncTypeView, ret: Result<Vec<WasmValue>, HostFuncError>) -> Result<
    Seq<RawValue>,
    ExecError,
> {
    match settled(sig, ret) {
        Ok(values) => Ok(guest_seq(values)),
        Err(e) => Err(e),
    }
}

/// A result of host values, with the values as a sequence.
pub open spec fn values_of(r: Result<Vec<WasmValue>, ExecError>) -> Result<
    Seq<WasmValue>,
    ExecError,
> {
    match r {
        Ok(values) => Ok(values@),
        Err(e) => Err(e),
    }
}

/// A result of guest representations, with them as a sequence.
pub open spec fn raws_of(r: Result<Vec<RawValue>, ExecError>) -> Result<Seq<RawValue>, ExecError> {
    match r {
        Ok(raws) => Ok(raws@),
        Err(e) => Err(e),
    }
}

/// The host-data payload as a callable gets it: borrowed, where there is one.
pub open spec fn borrowed<D>(data: &Option<D>) -> Option<&D> {
    match data {
        Some(d) => Some(d),
        None => None,
    }
}

impl FuncType {
    /// Turns what a host callable returned into what its function object
    /// hands to the guest.
    pub fn deliver(&self, ret: Result<Vec<WasmValue>, HostFuncError>) -> (out: Result<
        Vec<RawValue>,
        ExecError,
    >)
        ensures
            raws_of(out) == delivered(self@, ret),
    {
        match ret {
            Ok(values) => {
                if self.yields(&values) {
                    Ok(marshal(&values))
                } else {
                    Err(ExecError::HostFunction(HostFuncError::ResultMismatch))
                }
            },
            Err(cause) => Err(ExecError::HostFunction(cause)),
        }
    }
}

/// A host callable wrapped into a function object: something that can be
/// invoked by signature, with raw arguments, like any function of a guest.
///
/// The function object owns the host-data payload that it was wrapped with,
/// and lends it to the callable at each call; the payload goes when the
/// function object goes.
pub struct Func<F, D> where
    F: for <'x, 'a, 'd>Fn(CallingFrame<'x, 'a>, Vec<WasmValue>, Option<&'d D>) -> Result<
        Vec<WasmValue>,
        HostFuncError,
    >,
 {
    ty: FuncType,
    callable: F,
    data: Option<D>,
    cost: u64,
    module: Option<ModuleId>,
}

impl<F, D> Func<F, D> where
    F: for <'x, 'a, 'd>Fn(CallingFrame<'x, 'a>, Vec<WasmValue>, Option<&'d D>) -> Result<
        Vec<WasmValue>,
        HostFuncError,
    >,
 {
    /// The signature fits a function object, and the callable can be called
    /// on every argument sequence that the signature accepts.
    #[verifier::type_invariant]
    spec fn inv(self) -> bool {
        &&& self.ty@.fits()
        &&& forall|frame: CallingFrame, args: Vec<WasmValue>|
            self.ty@.accepts(args@) ==> call_requires(
                self.callable,
                (frame, args, borrowed(&self.data)),
            )
    }

    /// The declared signature.
    pub closed spec fn sig(&self) -> FuncTypeView {
        self.ty@
    }

    /// The cost metered for each call.
    pub closed spec fn spec_cost(&self) -> u64 {
        self.cost
    }

    /// The module instance that the function belongs to, where it belongs to
    /// one.
    pub closed spec fn home(&self) -> Option<ModuleId> {
        self.module
    }

    /// The host-data payload that the function object owns.
    pub closed spec fn payload(&self) -> Option<D> {
        self.data
    }

    /// Whether the callable, called with this frame, these arguments and the
    /// payload of this function object, may return `ret`.
    pub closed spec fn may_return(
        &self,
        frame: CallingFrame,
        args: Vec<WasmValue>,
        ret: Result<Vec<WasmValue>, HostFuncError>,
    ) -> bool {
        call_ensures(self.callable, (frame, args, borrowed(&self.data)), ret)
    }

    /// Wraps a host callable, with its payload and the cost of a call, into a
    /// function object of the given signature.
    ///
    /// Fails with `SignatureMismatch` where the signature has more parameters
    /// or more results than a function object can carry.
    pub fn wrap(ty: FuncType, callable: F, data: Option<D>, cost: u64) -> (r: Result<
        Func<F, D>,
        ExecError,
    >)
        requires
            forall|frame: CallingFrame, args: Vec<WasmValue>|
                ty@.accepts(args@) ==> call_requires(callable, (frame, args, borrowed(&data))),
        ensures
            !ty@.fits() ==> (r matches Err(e) && e == ExecError::SignatureMismatch),
            ty@.fits() ==> (r matches Ok(f) && f.sig() == ty@ && f.cost() == cost && f.home()
                == None::<ModuleId> && f.payload() == data && forall|
                frame: CallingFrame,
                args: Vec<WasmValue>,
                ret: Result<Vec<WasmValue>, HostFuncError>,
            | #[trigger]
                f.may_return(frame, args, ret) == call_ensures(
                    callable,
                    (frame, args, borrowed(&data)),
                    ret,
                )),
    {
        if !ty.fits() {
            return Err(ExecError::SignatureMismatch);
        }
        Ok(Func { ty, callable, data, cost, module: None })
    }

    /// The declared signature.
    pub fn ty(&self) -> (ty: &FuncType)
        ensures
            ty@ == self.sig(),
    {
        &self.ty
    }

    /// The cost metered for each call.
    #[verifier::when_used_as_spec(spec_cost)]
    pub fn cost(&self) -> (cost: u64)
        ensures
            cost == self.spec_cost(),
    {
        self.cost
    }

    /// The host-data payload, borrowed.
    pub fn data(&self) -> (data: Option<&D>)
        ensures
            data == borrowed(&self.payload()),
    {
        self.data.as_ref()
    }

    /// The module instance that the function belongs to, where it belongs to
    /// one.
    pub fn module(&self) -> (module: Option<ModuleId>)
        ensures
            module == self.home(),
    {
        self.module
    }

    /// This function object as a function of the given module instance.
    pub fn in_module(self, module: ModuleId) -> (f: Func<F, D>)
        ensures
            f.home() == Some(module),
            f.sig() == self.sig(),
            f.cost() == self.cost(),
            f.payload() == self.payload(),
            forall|
                frame: CallingFrame,
                args: Vec<WasmValue>,
                ret: Result<Vec<WasmValue>, HostFuncError>,
            | #[trigger]
                f.may_return(frame, args, ret) == self.may_return(frame, args, ret),
    {
        proof {
            use_type_invariant(&self);
        }
        Func {
            ty: self.ty,
            callable: self.callable,
            data: self.data,
            cost: self.cost,
            module: Some(module),
        }
    }

    /// A reference to this function object.
    pub fn func_ref(&self) -> (func_ref: FuncRef<'_, F, D>)
        ensures
            func_ref.target() == *self,
    {
        FuncRef { func: self }
    }

    /// Invokes the function object with raw arguments, as an engine does.
    ///
    /// Raw arguments that do not carry the kind tags of the parameters are
    /// refused with `SignatureMismatch` before the callable is entered.
    /// Otherwise the callable is called once, on the host values of the
    /// arguments, and what it returned is handed back as `delivered` says.
    pub fn invoke(&self, frame: CallingFrame<'_, '_>, raw_args: &Vec<RawValue>) -> (out: Result<
        Vec<RawValue>,
        ExecError,
    >)
        ensures
            !self.sig().accepts_raw(raw_args@) ==> (out matches Err(e) && e
                == ExecError::SignatureMismatch),
            self.sig().accepts_raw(raw_args@) ==> exists|
                args: Vec<WasmValue>,
                ret: Result<Vec<WasmValue>, HostFuncError>,
            |
                args@ == host_seq(raw_args@) && #[trigger] self.may_return(frame, args, ret)
                    && raws_of(out) == delivered(self.sig(), ret),
    {
        proof {
            use_type_invariant(self);
        }
        if !self.ty.accepts_raw(raw_args) {
            return Err(ExecError::SignatureMismatch);
        }
        let args = unmarshal(raw_args);
        let ghost handed = args;
        let ret = (self.callable)(frame, args, self.data.as_ref());
        let ghost returned = ret;
        let out = self.ty.deliver(ret);
        assert(self.may_return(frame, handed, returned));
        out
    }
}

/// A reference to a function object, as one is had from a table element. It
/// borrows the function object and cannot outlive it.
pub struct FuncRef<'f, F, D> where
    F: for <'x, 'a, 'd>Fn(CallingFrame<'x, 'a>, Vec<WasmValue>, Option<&'d D>) -> Result<
        Vec<WasmValue>,
        HostFuncError,
    >,
 {
    func: &'f Func<F, D>,
}

impl<'f, F, D> FuncRef<'f, F, D> where
    F: for <'x, 'a, 'd>Fn(CallingFrame<'x, 'a>, Vec<WasmValue>, Option<&'d D>) -> Result<
        Vec<WasmValue>,
        HostFuncError,
    >,
 {
    /// The function object referred to.
    pub closed spec fn target(&self) -> Func<F, D> {
        *self.func
    }

    /// The function object referred to.
    pub fn func(&self) -> (func: &'f Func<F, D>)
        ensures
            *func == self.target(),
    {
        self.func
    }
}

} // verus!
