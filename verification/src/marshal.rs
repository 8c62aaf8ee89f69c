//! Preparing the arrays that cross the native boundary.
//!
//! Every native get and set call takes a parallel pair of arrays: the
//! variables' native value references and, for a set, the values to
//! write; a get returns a value array of the same length. The functions
//! here build those arrays from registry variables and pair a returned
//! value array back with the variables it was requested for, so that one
//! call carries exactly the requested variables — all or nothing.

use vstd::prelude::*;

use crate::model_description::ScalarVariable;

verus! {

/// The value references of the given variables, in the same order: the
/// array handed to every native get and set call.
pub fn value_references(signals: &Vec<ScalarVariable>) -> (r: Vec<u32>)
    ensures
        r@.len() == signals@.len(),
        forall|i: int| 0 <= i < r@.len() ==> r@[i] == signals@[i].value_reference,
{
    let mut out: Vec<u32> = Vec::new();
    let mut i: usize = 0;
    while i < signals.len()
        invariant
            0 <= i <= signals@.len(),
            out@.len() == i,
            forall|j: int| 0 <= j < i ==> out@[j] == signals@[j].value_reference,
        decreases signals@.len() - i,
    {
        out.push(signals[i].value_reference);
        i += 1;
    }
    out
}

/// Pair the values a native get call returned with the names of the
/// variables they were requested for, position by position. The request
/// and the returned array must have the same length: a short or long
/// answer would mis-assign values, so it cannot be paired at all.
pub fn pair_values<T: Copy>(signals: &Vec<ScalarVariable>, values: &Vec<T>) -> (r: Vec<(String, T)>)
    requires
        signals@.len() == values@.len(),
    ensures
        r@.len() == signals@.len(),
        forall|i: int|
            0 <= i < r@.len() ==> (#[trigger] r@[i]).0@ == signals@[i].name@ && r@[i].1
                == values@[i],
{
    let mut out: Vec<(String, T)> = Vec::new();
    let mut i: usize = 0;
    while i < signals.len()
        invariant
            signals@.len() == values@.len(),
            0 <= i <= signals@.len(),
            out@.len() == i,
            forall|j: int|
                0 <= j < i ==> (#[trigger] out@[j]).0@ == signals@[j].name@ && out@[j].1
                    == values@[j],
        decreases signals@.len() - i,
    {
        let name = signals[i].name.clone();
        out.push((name, values[i]));
        i += 1;
    }
    out
}

/// Split the entries of a set request into the parallel arrays the
/// native set call takes: value references and values, position by
/// position. The request is a mapping, so the order of entries does not
/// matter to the native side; whatever order is given is preserved.
pub fn set_arrays<T: Copy>(entries: &Vec<(ScalarVariable, T)>) -> (r: (Vec<u32>, Vec<T>))
    ensures
        r.0@.len() == entries@.len(),
        r.1@.len() == entries@.len(),
        forall|i: int|
            0 <= i < entries@.len() ==> r.0@[i] == (#[trigger] entries@[i]).0.value_reference,
        forall|i: int| 0 <= i < entries@.len() ==> r.1@[i] == (#[trigger] entries@[i]).1,
{
    let mut vrs: Vec<u32> = Vec::new();
    let mut values: Vec<T> = Vec::new();
    let mut i: usize = 0;
    while i < entries.len()
        invariant
            0 <= i <= entries@.len(),
            vrs@.len() == i,
            values@.len() == i,
            forall|j: int|
                0 <= j < i ==> vrs@[j] == (#[trigger] entries@[j]).0.value_reference,
            forall|j: int| 0 <= j < i ==> values@[j] == (#[trigger] entries@[j]).1,
        decreases entries@.len() - i,
    {
        vrs.push(entries[i].0.value_reference);
        values.push(entries[i].1);
        i += 1;
    }
    (vrs, values)
}

/// Flatten an optional argument for a native call that takes an explicit
/// presence flag beside the value: the flag says whether the value was
/// given, and where it was not, the don't-care placeholder is handed
/// over — which the native side must never read when the flag is false.
pub fn optional_with_flag<T: Copy>(v: Option<T>, placeholder: T) -> (r: (bool, T))
    ensures
        r.0 == (v is Some),
        v matches Some(x) ==> r.1 == x,
        v is None ==> r.1 == placeholder,
{
    match v {
        Some(x) => (true, x),
        None => (false, placeholder),
    }
}

/// A zero-filled buffer of exactly the size the native side reported for
/// a serialized state: the receiving buffer of the snapshot protocol.
pub fn snapshot_buffer(size: usize) -> (r: Vec<u8>)
    ensures
        r@.len() == size,
        forall|i: int| 0 <= i < r@.len() ==> r@[i] == 0,
{
    let mut out: Vec<u8> = Vec::new();
    let mut i: usize = 0;
    while i < size
        invariant
            0 <= i <= size,
            out@.len() == i,
            forall|j: int| 0 <= j < i ==> out@[j] == 0,
        decreases size - i,
    {
        out.push(0u8);
        i += 1;
    }
    out
}

} // verus!
