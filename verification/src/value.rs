//! Values at the boundary between host and guest.
//!
//! The host works with [`WasmValue`], a tagged union over the seven value
//! kinds. The guest works with [`RawValue`], a 128-bit payload beside a kind
//! tag. [`to_guest`] and [`from_guest`] convert between the two; both are
//! total, and converting a host value to the guest and back gives the value
//! that was put in, bit for bit.

use vstd::prelude::*;

verus! {

/// The kind of a value.
#[derive(Clone, Copy, Debug, PartialEq, Eq, Structural)]
pub enum ValType {
    I32,
    I64,
    F32,
    F64,
    V128,
    FuncRef,
    ExternRef,
}

/// The kind of a reference value.
#[derive(Clone, Copy, Debug, PartialEq, Eq, Structural)]
pub enum RefType {
    FuncRef,
    ExternRef,
}

/// A value as the host sees it.
///
/// The two float kinds hold the IEEE 754 bit pattern of the number, so that
/// no conversion can change a bit of it. A reference holds an opaque handle,
/// or nothing where it is null.
#[derive(Clone, Copy, Debug, PartialEq, Eq)]
pub enum WasmValue {
    I32(i32),
    I64(i64),
    F32(u32),
    F64(u64),
    V128(i128),
    FuncRef(Option<u64>),
    ExternRef(Option<u64>),
}

/// A value as the guest sees it: a payload of 128 bits and the kind that says
/// how to read them.
#[derive(Clone, Copy, Debug, PartialEq, Eq, Structural)]
pub struct RawValue {
    pub bits: u128,
    pub ty: ValType,
}

/// The payload bit that marks a reference as present. A null reference has
/// an all-zero payload; a present one has this bit and, below it, its handle.
pub const REF_PRESENT: u128 = 0x1_0000_0000_0000_0000;

/// The payload of a reference.
pub open spec fn ref_payload(handle: Option<u64>) -> u128 {
    match handle {
        None => 0,
        Some(h) => (REF_PRESENT + h) as u128,
    }
}

/// The reference that a payload stands for.
pub open spec fn ref_handle(bits: u128) -> Option<u64> {
    if bits >= REF_PRESENT {
        Some((bits % REF_PRESENT) as u64)
    } else {
        None
    }
}

impl WasmValue {
    /// The kind of this value.
    pub open spec fn kind(self) -> ValType {
        match self {
            WasmValue::I32(_) => ValType::I32,
            WasmValue::I64(_) => ValType::I64,
            WasmValue::F32(_) => ValType::F32,
            WasmValue::F64(_) => ValType::F64,
            WasmValue::V128(_) => ValType::V128,
            WasmValue::FuncRef(_) => ValType::FuncRef,
            WasmValue::ExternRef(_) => ValType::ExternRef,
        }
    }

    /// The 128 bits that carry this value to the guest: an integer in two's
    /// complement, a float by its bit pattern, both widened with zeros.
    pub open spec fn payload(self) -> u128 {
        match self {
            WasmValue::I32(x) => (x as u32) as u128,
            WasmValue::I64(x) => (x as u64) as u128,
            WasmValue::F32(b) => b as u128,
            WasmValue::F64(b) => b as u128,
            WasmValue::V128(x) => x as u128,
            WasmValue::FuncRef(h) => ref_payload(h),
            WasmValue::ExternRef(h) => ref_payload(h),
        }
    }
}

/// The guest representation of a host value.
pub open spec fn guest_repr(v: WasmValue) -> RawValue {
    RawValue { bits: v.payload(), ty: v.kind() }
}

/// The host value that a guest representation stands for. Payload bits that
/// the kind does not use are ignored.
pub open spec fn host_value(r: RawValue) -> WasmValue {
    match r.ty {
        ValType::I32 => WasmValue::I32((r.bits as u32) as i32),
        ValType::I64 => WasmValue::I64((r.bits as u64) as i64),
        ValType::F32 => WasmValue::F32(r.bits as u32),
        ValType::F64 => WasmValue::F64(r.bits as u64),
        ValType::V128 => WasmValue::V128(r.bits as i128),
        ValType::FuncRef => WasmValue::FuncRef(ref_handle(r.bits)),
        ValType::ExternRef => WasmValue::ExternRef(ref_handle(r.bits)),
    }
}

/// Converting to the guest and back loses nothing: every host value, of each
/// of the seven kinds and with a null reference among them, comes back as it
/// went in.
pub proof fn lemma_round_trip(v: WasmValue)
    ensures
        host_value(guest_repr(v)) == v,
        guest_repr(v).ty == v.kind(),
{
    match v {
        WasmValue::I32(x) => {
            assert((((x as u32) as u128) as u32) as i32 == x) by (bit_vector);
        },
        WasmValue::I64(x) => {
            assert((((x as u64) as u128) as u64) as i64 == x) by (bit_vector);
        },
        WasmValue::F32(b) => {
            assert((b as u128) as u32 == b) by (bit_vector);
        },
        WasmValue::F64(b) => {
            assert((b as u128) as u64 == b) by (bit_vector);
        },
        WasmValue::V128(x) => {
            assert((x as u128) as i128 == x) by (bit_vector);
        },
        WasmValue::FuncRef(h) => {
            lemma_ref_round_trip(h);
        },
        WasmValue::ExternRef(h) => {
            lemma_ref_round_trip(h);
        },
    }
}

/// A reference survives its payload: null stays null, and a handle stays the
/// same handle, zero included.
pub proof fn lemma_ref_round_trip(handle: Option<u64>)
    ensures
        ref_handle(ref_payload(handle)) == handle,
        handle is None <==> ref_payload(handle) == 0,
{
}

/// Converts a host value to its guest representation.
pub fn to_guest(v: WasmValue) -> (r: RawValue)
    ensures
        r == guest_repr(v),
        host_value(r) == v,
{
    proof {
        lemma_round_trip(v);
    }
    let bits: u128 = match v {
        WasmValue::I32(x) => (x as u32) as u128,
        WasmValue::I64(x) => (x as u64) as u128,
        WasmValue::F32(b) => b as u128,
        WasmValue::F64(b) => b as u128,
        WasmValue::V128(x) => x as u128,
        WasmValue::FuncRef(h) => ref_to_bits(h),
        WasmValue::ExternRef(h) => ref_to_bits(h),
    };
    RawValue { bits, ty: v.ty() }
}

/// Converts a guest representation to the host value it stands for.
pub fn from_guest(r: RawValue) -> (v: WasmValue)
    ensures
        v == host_value(r),
        v.kind() == r.ty,
{
    match r.ty {
        ValType::I32 => WasmValue::I32((r.bits as u32) as i32),
        ValType::I64 => WasmValue::I64((r.bits as u64) as i64),
        ValType::F32 => WasmValue::F32(r.bits as u32),
        ValType::F64 => WasmValue::F64(r.bits as u64),
        ValType::V128 => WasmValue::V128(r.bits as i128),
        ValType::FuncRef => WasmValue::FuncRef(ref_from_bits(r.bits)),
        ValType::ExternRef => WasmValue::ExternRef(ref_from_bits(r.bits)),
    }
}

fn ref_to_bits(handle: Option<u64>) -> (bits: u128)
    ensures
        bits == ref_payload(handle),
{
    match handle {
        None => 0,
        Some(h) => REF_PRESENT + (h as u128),
    }
}

fn ref_from_bits(bits: u128) -> (handle: Option<u64>)
    ensures
        handle == ref_handle(bits),
{
    if bits >= REF_PRESENT {
        Some((bits % REF_PRESENT) as u64)
    } else {
        None
    }
}

impl WasmValue {
    /// A 32-bit integer.
    pub fn from_i32(x: i32) -> (v: WasmValue)
        ensures
            v == WasmValue::I32(x),
    {
        WasmValue::I32(x)
    }

    /// A 64-bit integer.
    pub fn from_i64(x: i64) -> (v: WasmValue)
        ensures
            v == WasmValue::I64(x),
    {
        WasmValue::I64(x)
    }

    /// The 32-bit float with the given bit pattern.
    pub fn from_f32_bits(bits: u32) -> (v: WasmValue)
        ensures
            v == WasmValue::F32(bits),
    {
        WasmValue::F32(bits)
    }

    /// The 64-bit float with the given bit pattern.
    pub fn from_f64_bits(bits: u64) -> (v: WasmValue)
        ensures
            v == WasmValue::F64(bits),
    {
        WasmValue::F64(bits)
    }

    /// A 128-bit vector.
    pub fn from_v128(x: i128) -> (v: WasmValue)
        ensures
            v == WasmValue::V128(x),
    {
        WasmValue::V128(x)
    }

    /// A reference to the function with the given handle.
    pub fn from_func_ref(handle: u64) -> (v: WasmValue)
        ensures
            v == WasmValue::FuncRef(Some(handle)),
    {
        WasmValue::FuncRef(Some(handle))
    }

    /// A reference to the host object with the given handle.
    pub fn from_extern_ref(handle: u64) -> (v: WasmValue)
        ensures
            v == WasmValue::ExternRef(Some(handle)),
    {
        WasmValue::ExternRef(Some(handle))
    }

    /// The null reference of the given kind.
    pub fn from_null_ref(ty: RefType) -> (v: WasmValue)
        ensures
            v == match ty {
                RefType::FuncRef => WasmValue::FuncRef(None),
                RefType::ExternRef => WasmValue::ExternRef(None),
            },
    {
        match ty {
            RefType::FuncRef => WasmValue::FuncRef(None),
            RefType::ExternRef => WasmValue::ExternRef(None),
        }
    }

    /// The low 32 bits of the payload, read as an integer: the integer
    /// itself, where this is a 32-bit integer.
    pub fn to_i32(&self) -> (x: i32)
        ensures
            x == (self.payload() as u32) as i32,
            *self matches WasmValue::I32(y) ==> x == y,
    {
        proof {
            lemma_round_trip(*self);
        }
        (to_guest(*self).bits as u32) as i32
    }

    /// The low 64 bits of the payload, read as an integer: the integer
    /// itself, where this is a 64-bit integer.
    pub fn to_i64(&self) -> (x: i64)
        ensures
            x == (self.payload() as u64) as i64,
            *self matches WasmValue::I64(y) ==> x == y,
    {
        proof {
            lemma_round_trip(*self);
        }
        (to_guest(*self).bits as u64) as i64
    }

    /// The low 32 bits of the payload: the bit pattern of the float, where
    /// this is a 32-bit float.
    pub fn to_f32_bits(&self) -> (bits: u32)
        ensures
            bits == self.payload() as u32,
            *self matches WasmValue::F32(b) ==> bits == b,
    {
        proof {
            lemma_round_trip(*self);
        }
        to_guest(*self).bits as u32
    }

    /// The low 64 bits of the payload: the bit pattern of the float, where
    /// this is a 64-bit float.
    pub fn to_f64_bits(&self) -> (bits: u64)
        ensures
            bits == self.payload() as u64,
            *self matches WasmValue::F64(b) ==> bits == b,
    {
        proof {
            lemma_round_trip(*self);
        }
        to_guest(*self).bits as u64
    }

    /// The payload, read as a 128-bit integer: the vector itself, where this
    /// is a vector.
    pub fn to_v128(&self) -> (x: i128)
        ensures
            x == self.payload() as i128,
            *self matches WasmValue::V128(y) ==> x == y,
    {
        proof {
            lemma_round_trip(*self);
        }
        to_guest(*self).bits as i128
    }

    /// The handle of the function referred to, where this is a function
    /// reference that is not null.
    pub fn func_ref(&self) -> (handle: Option<u64>)
        ensures
            handle == match *self {
                WasmValue::FuncRef(h) => h,
                _ => None,
            },
    {
        match self {
            WasmValue::FuncRef(h) => *h,
            _ => None,
        }
    }

    /// The handle of the host object referred to, where this is an external
    /// reference that is not null.
    pub fn extern_ref(&self) -> (handle: Option<u64>)
        ensures
            handle == match *self {
                WasmValue::ExternRef(h) => h,
                _ => None,
            },
    {
        match self {
            WasmValue::ExternRef(h) => *h,
            _ => None,
        }
    }

    /// Whether this is a null reference.
    pub fn is_null_ref(&self) -> (null: bool)
        ensures
            null == (*self == WasmValue::FuncRef(None) || *self == WasmValue::ExternRef(None)),
    {
        match self {
            WasmValue::FuncRef(None) => true,
            WasmValue::ExternRef(None) => true,
            _ => false,
        }
    }

    /// The kind of this value.
    pub fn ty(&self) -> (t: ValType)
        ensures
            t == self.kind(),
    {
        match self {
            WasmValue::I32(_) => ValType::I32,
            WasmValue::I64(_) => ValType::I64,
            WasmValue::F32(_) => ValType::F32,
            WasmValue::F64(_) => ValType::F64,
            WasmValue::V128(_) => ValType::V128,
            WasmValue::FuncRef(_) => ValType::FuncRef,
            WasmValue::ExternRef(_) => ValType::ExternRef,
        }
    }
}

/// The guest representations of a sequence of host values, in order.
pub open spec fn guest_seq(values: Seq<WasmValue>) -> Seq<RawValue> {
    Seq::new(values.len(), |i: int| guest_repr(values[i]))
}

/// The host values of a sequence of guest representations, in order.
pub open spec fn host_seq(raws: Seq<RawValue>) -> Seq<WasmValue> {
    Seq::new(raws.len(), |i: int| host_value(raws[i]))
}

/// The kinds of a sequence of host values, in order.
pub open spec fn kinds_of(values: Seq<WasmValue>) -> Seq<ValType> {
    Seq::new(values.len(), |i: int| values[i].kind())
}

/// The kind tags of a sequence of guest representations, in order.
pub open spec fn raw_kinds_of(raws: Seq<RawValue>) -> Seq<ValType> {
    Seq::new(raws.len(), |i: int| raws[i].ty)
}

/// A whole argument or result sequence survives the trip to the guest and
/// back, and keeps its kinds on the way.
pub proof fn lemma_seq_round_trip(values: Seq<WasmValue>)
    ensures
        host_seq(guest_seq(values)) == values,
        raw_kinds_of(guest_seq(values)) == kinds_of(values),
{
    assert forall|i: int| 0 <= i < values.len() implies host_value(guest_repr(values[i]))
        == values[i] by {
        lemma_round_trip(values[i]);
    }
    assert(host_seq(guest_seq(values)) =~= values);
    assert(raw_kinds_of(guest_seq(values)) =~= kinds_of(values));
}

/// Reading guest representations as host values keeps their kinds.
pub proof fn lemma_host_seq_kinds(raws: Seq<RawValue>)
    ensures
        kinds_of(host_seq(raws)) == raw_kinds_of(raws),
{
    assert(kinds_of(host_seq(raws)) =~= raw_kinds_of(raws));
}

/// Converts a sequence of host values to the guest, keeping the order.
pub fn marshal(values: &Vec<WasmValue>) -> (raws: Vec<RawValue>)
    ensures
        raws@ == guest_seq(values@),
        host_seq(raws@) == values@,
        raw_kinds_of(raws@) == kinds_of(values@),
{
    let mut raws: Vec<RawValue> = Vec::new();
    let mut i: usize = 0;
    while i < values.len()
        invariant
            i <= values.len(),
            raws@.len() == i,
            forall|j: int| 0 <= j < i ==> raws@[j] == guest_repr(values@[j]),
        decreases values.len() - i,
    {
        raws.push(to_guest(values[i]));
        i = i + 1;
    }
    proof {
        assert(raws@ =~= guest_seq(values@));
        lemma_seq_round_trip(values@);
    }
    raws
}

/// Converts a sequence of guest representations to host values, keeping the
/// order.
pub fn unmarshal(raws: &Vec<RawValue>) -> (values: Vec<WasmValue>)
    ensures
        values@ == host_seq(raws@),
        kinds_of(values@) == raw_kinds_of(raws@),
{
    let mut values: Vec<WasmValue> = Vec::new();
    let mut i: usize = 0;
    while i < raws.len()
        invariant
            i <= raws.len(),
            values@.len() == i,
            forall|j: int| 0 <= j < i ==> values@[j] == host_value(raws@[j]),
        decreases raws.len() - i,
    {
        values.push(from_guest(raws[i]));
        i = i + 1;
    }
    proof {
        assert(values@ =~= host_seq(raws@));
        lemma_host_seq_kinds(raws@);
    }
    values
}

} // verus!
