//! Host-supplied dynamic values and the protocol's wire value model.
//!
//! The host hands the bridge arbitrary structured values (null, booleans,
//! numbers, strings, ordered lists, string-keyed maps) for the generic data
//! operations.  The wire format accepts a closed set of value shapes, so the
//! bridge converts losslessly where it can and fails with a typed error where
//! it cannot — never with an abort.

use vstd::prelude::*;

verus! {

/// A dynamic value as the host's embedding layer hands it over.  `Foreign`
/// stands for every host-native kind that has no wire representation at all
/// (object handles, callables, and the like); the embedding maps those to
/// `Foreign` so that conversion can refuse them by name.
#[derive(Debug, PartialEq)]
pub enum HostValue {
    Nil,
    Bool(bool),
    Int(i64),
    Str(String),
    List(Vec<HostValue>),
    Dict(Vec<(String, HostValue)>),
    Foreign,
}

/// The closed, tagged model of the wire format's value space.  The embedding
/// serialises this one-to-one into the protocol library's payload type.
#[derive(Debug, PartialEq)]
pub enum WireValue {
    Null,
    Bool(bool),
    Int(i64),
    Str(String),
    List(Vec<WireValue>),
    Dict(Vec<(String, WireValue)>),
}

/// A host value held a component that the wire format cannot represent.
#[derive(Clone, Copy, Debug, PartialEq, Eq, Structural)]
pub struct ValueConversionError;

/// Whether `h` has a wire representation: true exactly when no `Foreign`
/// component occurs anywhere inside it.
pub open spec fn representable(h: HostValue) -> bool
    decreases h,
{
    match h {
        HostValue::Nil => true,
        HostValue::Bool(_) => true,
        HostValue::Int(_) => true,
        HostValue::Str(_) => true,
        HostValue::List(l) => forall|i: int|
            0 <= i < l@.len() ==> representable(#[trigger] l@[i]),
        HostValue::Dict(m) => forall|i: int|
            0 <= i < m@.len() ==> representable((#[trigger] m@[i]).1),
        HostValue::Foreign => false,
    }
}

/// Whether `w` is the lossless image of `h`: the same shape, tag for tag,
/// element for element, with list order and map entry order preserved.
pub open spec fn converts_to(h: HostValue, w: WireValue) -> bool
    decreases h,
{
    match (h, w) {
        (HostValue::Nil, WireValue::Null) => true,
        (HostValue::Bool(a), WireValue::Bool(b)) => a == b,
        (HostValue::Int(a), WireValue::Int(b)) => a == b,
        (HostValue::Str(a), WireValue::Str(b)) => a@ == b@,
        (HostValue::List(a), WireValue::List(b)) => {
            &&& a@.len() == b@.len()
            &&& forall|i: int| 0 <= i < a@.len() ==> converts_to(#[trigger] a@[i], b@[i])
        },
        (HostValue::Dict(a), WireValue::Dict(b)) => {
            &&& a@.len() == b@.len()
            &&& forall|i: int|
                0 <= i < a@.len() ==> (#[trigger] a@[i]).0@ == b@[i].0@ && converts_to(
                    a@[i].1,
                    b@[i].1,
                )
        },
        _ => false,
    }
}

/// Converts a host value into its wire image.
///
/// Total except for the one named failure: the result is `Err` exactly when
/// some component of `h` has no wire representation, and `Ok(w)` with `w` the
/// lossless image of `h` otherwise.
pub fn to_wire(h: &HostValue) -> (r: Result<WireValue, ValueConversionError>)
    ensures
        match r {
            Ok(w) => representable(*h) && converts_to(*h, w),
            Err(_) => !representable(*h),
        },
    decreases *h,
{
    match h {
        HostValue::Nil => Ok(WireValue::Null),
        HostValue::Bool(b) => Ok(WireValue::Bool(*b)),
        HostValue::Int(i) => Ok(WireValue::Int(*i)),
        HostValue::Str(s) => Ok(WireValue::Str(s.clone())),
        HostValue::List(l) => {
            let mut out: Vec<WireValue> = Vec::new();
            let mut i: usize = 0;
            while i < l.len()
                invariant
                    i <= l@.len(),
                    out@.len() == i as int,
                    forall|j: int| 0 <= j < i as int ==> representable(#[trigger] l@[j]),
                    forall|j: int| 0 <= j < i as int ==> converts_to(#[trigger] l@[j], out@[j]),
                    *h == HostValue::List(*l),
                decreases l@.len() - i as int,
            {
                proof {
                    assert(decreases_to!(*h => (*h)->List_0));
                    assert(decreases_to!((*h)->List_0 => (*h)->List_0@));
                    assert(decreases_to!((*h)->List_0@ => (*h)->List_0@[i as int]));
                    assert(decreases_to!(*h => l@[i as int]));
                }
                match to_wire(&l[i]) {
                    Ok(w) => out.push(w),
                    Err(e) => {
                        proof {
                            if representable(*h) {
                                assert(representable(l@[i as int]));
                            }
                        }
                        return Err(e);
                    },
                }
                i = i + 1;
            }
            Ok(WireValue::List(out))
        },
        HostValue::Dict(m) => {
            let mut out: Vec<(String, WireValue)> = Vec::new();
            let mut i: usize = 0;
            while i < m.len()
                invariant
                    i <= m@.len(),
                    out@.len() == i as int,
                    forall|j: int| 0 <= j < i as int ==> representable((#[trigger] m@[j]).1),
                    forall|j: int|
                        0 <= j < i as int ==> (#[trigger] m@[j]).0@ == out@[j].0@ && converts_to(
                            m@[j].1,
                            out@[j].1,
                        ),
                    *h == HostValue::Dict(*m),
                decreases m@.len() - i as int,
            {
                proof {
                    assert(decreases_to!(*h => (*h)->Dict_0));
                    assert(decreases_to!((*h)->Dict_0 => (*h)->Dict_0@));
                    assert(decreases_to!((*h)->Dict_0@ => (*h)->Dict_0@[i as int]));
                    assert(decreases_to!((*h)->Dict_0@[i as int] => (*h)->Dict_0@[i as int].1));
                    assert(decreases_to!(*h => m@[i as int].1));
                }
                let key = m[i].0.clone();
                match to_wire(&m[i].1) {
                    Ok(w) => out.push((key, w)),
                    Err(e) => {
                        proof {
                            if representable(*h) {
                                assert(representable((m@[i as int]).1));
                            }
                        }
                        return Err(e);
                    },
                }
                i = i + 1;
            }
            Ok(WireValue::Dict(out))
        },
        HostValue::Foreign => Err(ValueConversionError),
    }
}

} // verus!
