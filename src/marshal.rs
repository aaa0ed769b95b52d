//! Encoding and decoding across the C boundary: status codes, the host's
//! index buffers, C strings, and the range of the boundary's `int`.
use crate::errors::BmiError;
use vstd::prelude::*;
use vstd::string::StringSliceAdditionalSpecFns;

verus! {

/// The status code of a call that succeeded.
pub const BMI_SUCCESS: i32 = 0;

/// The status code of a call that failed, for whatever reason.
pub const BMI_FAILURE: i32 = 1;

/// The size of the host's buffer for a component name, terminator included.
pub const MAX_COMPONENT_NAME: usize = 2048;

/// The size of the host's buffer for a variable name, terminator included.
pub const MAX_VAR_NAME: usize = 2048;

/// The size of the host's buffer for a units string, terminator included.
pub const MAX_UNITS_NAME: usize = 2048;

/// The size of the host's buffer for a type name, terminator included.
pub const MAX_TYPE_NAME: usize = 2048;

/// The largest value of the boundary's `int`.
pub const C_INT_MAX: u32 = 0x7fff_ffff;

/// The status code that the boundary reports for an outcome.
pub open spec fn status_of(succeeded: bool) -> i32 {
    if succeeded {
        BMI_SUCCESS
    } else {
        BMI_FAILURE
    }
}

/// An outcome that collapses to a status code at the boundary.
pub trait BmiStatus {
    /// Whether the outcome is a success.
    spec fn succeeded(&self) -> bool;

    /// Return the status code of the outcome.
    fn bmi_result(&self) -> (r: i32)
        ensures
            r == status_of(self.succeeded()),
    ;
}

impl<T> BmiStatus for Option<T> {
    open spec fn succeeded(&self) -> bool {
        self is Some
    }

    fn bmi_result(&self) -> (r: i32) {
        match self {
            Some(_) => BMI_SUCCESS,
            None => BMI_FAILURE,
        }
    }
}

impl<T, E> BmiStatus for Result<T, E> {
    open spec fn succeeded(&self) -> bool {
        self is Ok
    }

    fn bmi_result(&self) -> (r: i32) {
        match self {
            Ok(_) => BMI_SUCCESS,
            Err(_) => BMI_FAILURE,
        }
    }
}

/// Every index that the host passed is non-negative.
pub open spec fn all_non_negative(raw: Seq<i32>) -> bool {
    forall|j: int| 0 <= j < raw.len() ==> (#[trigger] raw[j]) >= 0
}

/// Decode the host's count of indices: a negative count is malformed.
pub fn index_count(count: i32) -> (r: Result<usize, BmiError>)
    ensures
        r is Ok <==> count >= 0,
        r matches Ok(n) ==> n == count,
        r matches Err(e) ==> e == BmiError::InvalidArgument,
{
    if count < 0 {
        Err(BmiError::InvalidArgument)
    } else {
        Ok(count as usize)
    }
}

/// Decode the host's signed indices into unsigned ones, keeping their order
/// and repeats. A single negative index makes the whole buffer malformed.
pub fn decode_indices(raw: &[i32]) -> (r: Result<Vec<u32>, BmiError>)
    ensures
        r is Ok <==> all_non_negative(raw@),
        r matches Ok(v) ==> v@ == raw@.map_values(|x: i32| x as u32),
        r matches Err(e) ==> e == BmiError::InvalidArgument,
{
    let mut v: Vec<u32> = Vec::with_capacity(raw.len());
    let mut j: usize = 0;
    while j < raw.len()
        invariant
            j <= raw@.len(),
            v@.len() == j,
            forall|k: int| 0 <= k < j ==> (#[trigger] raw@[k]) >= 0,
            forall|k: int| 0 <= k < j ==> #[trigger] v@[k] == raw@[k] as u32,
        decreases raw.len() - j,
    {
        let x = raw[j];
        if x < 0 {
            return Err(BmiError::InvalidArgument);
        }
        v.push(x as u32);
        j = j + 1;
    }
    assert(v@ =~= raw@.map_values(|x: i32| x as u32));
    Ok(v)
}

/// A string's bytes can be sent as a C string into a buffer of `capacity`
/// bytes: they hold no terminator byte and leave room for one.
pub open spec fn c_encodable(bytes: Seq<u8>, capacity: nat) -> bool {
    !bytes.contains(0u8) && bytes.len() < capacity
}

/// Encode `s` as a C string for a host buffer of `capacity` bytes: its bytes
/// followed by one terminator byte. It fails when `s` holds a terminator byte
/// of its own or when the encoding does not fit.
pub fn c_string(s: &str, capacity: usize) -> (r: Result<Vec<u8>, BmiError>)
    ensures
        r is Ok <==> c_encodable(s.spec_bytes(), capacity as nat),
        r matches Ok(b) ==> b@ == s.spec_bytes().push(0u8),
        r matches Err(e) ==> e == BmiError::InvalidArgument,
{
    let bytes = s.as_bytes();
    if bytes.len() >= capacity {
        return Err(BmiError::InvalidArgument);
    }
    let mut out: Vec<u8> = Vec::with_capacity(bytes.len() + 1);
    let mut j: usize = 0;
    while j < bytes.len()
        invariant
            bytes@ == s.spec_bytes(),
            j <= bytes@.len(),
            out@ == bytes@.subrange(0, j as int),
            forall|k: int| 0 <= k < j ==> (#[trigger] bytes@[k]) != 0u8,
        decreases bytes.len() - j,
    {
        if bytes[j] == 0u8 {
            assert(bytes@.contains(0u8)) by {
                assert(bytes@[j as int] == 0u8);
            }
            return Err(BmiError::InvalidArgument);
        }
        out.push(bytes[j]);
        j = j + 1;
    }
    assert(out@ =~= bytes@);
    out.push(0u8);
    Ok(out)
}

/// Encode every name of `names` as a C string for host buffers of `capacity`
/// bytes each, in order. It fails, and encodes nothing, when some name cannot
/// be encoded.
pub fn encode_names(names: &[&str], capacity: usize) -> (r: Result<Vec<Vec<u8>>, BmiError>)
    ensures
        r is Ok <==> forall|j: int|
            0 <= j < names@.len() ==> c_encodable(#[trigger] names@[j].spec_bytes(), capacity as nat),
        r matches Ok(v) ==> v@.len() == names@.len() && forall|j: int|
            0 <= j < names@.len() ==> (#[trigger] v@[j])@ == names@[j].spec_bytes().push(0u8),
        r matches Err(e) ==> e == BmiError::InvalidArgument,
{
    let mut out: Vec<Vec<u8>> = Vec::with_capacity(names.len());
    let mut j: usize = 0;
    while j < names.len()
        invariant
            j <= names@.len(),
            out@.len() == j,
            forall|k: int|
                0 <= k < j ==> c_encodable(#[trigger] names@[k].spec_bytes(), capacity as nat),
            forall|k: int|
                0 <= k < j ==> (#[trigger] out@[k])@ == names@[k].spec_bytes().push(0u8),
        decreases names.len() - j,
    {
        match c_string(names[j], capacity) {
            Ok(bytes) => out.push(bytes),
            Err(e) => return Err(e),
        }
        j = j + 1;
    }
    Ok(out)
}

/// Whether some value of `vs` is too large for the boundary's `int`.
pub fn any_gt_max_i32(vs: &[u32]) -> (r: bool)
    ensures
        r <==> exists|j: int| 0 <= j < vs@.len() && #[trigger] vs@[j] > C_INT_MAX,
{
    let mut j: usize = 0;
    while j < vs.len()
        invariant
            j <= vs@.len(),
            forall|k: int| 0 <= k < j ==> #[trigger] vs@[k] <= C_INT_MAX,
        decreases vs.len() - j,
    {
        if vs[j] > C_INT_MAX {
            return true;
        }
        j = j + 1;
    }
    false
}

/// Convert a count or size to the boundary's `int`; it fails when the value
/// does not fit.
pub fn to_c_int(v: u32) -> (r: Result<i32, BmiError>)
    ensures
        r is Ok <==> v <= C_INT_MAX,
        r matches Ok(x) ==> x == v,
        r matches Err(e) ==> e == BmiError::InvalidArgument,
{
    if v > C_INT_MAX {
        Err(BmiError::InvalidArgument)
    } else {
        Ok(v as i32)
    }
}

/// Convert an array of counts or node numbers to the boundary's `int`; it
/// fails when some value does not fit.
pub fn to_c_ints(vs: &[u32]) -> (r: Result<Vec<i32>, BmiError>)
    ensures
        r is Ok <==> forall|j: int| 0 <= j < vs@.len() ==> #[trigger] vs@[j] <= C_INT_MAX,
        r matches Ok(v) ==> v@ == vs@.map_values(|x: u32| x as i32),
        r matches Err(e) ==> e == BmiError::InvalidArgument,
{
    if any_gt_max_i32(vs) {
        return Err(BmiError::InvalidArgument);
    }
    let mut out: Vec<i32> = Vec::with_capacity(vs.len());
    let mut j: usize = 0;
    while j < vs.len()
        invariant
            j <= vs@.len(),
            out@.len() == j,
            forall|k: int| 0 <= k < vs@.len() ==> #[trigger] vs@[k] <= C_INT_MAX,
            forall|k: int| 0 <= k < j ==> #[trigger] out@[k] == vs@[k] as i32,
        decreases vs.len() - j,
    {
        out.push(vs[j] as i32);
        j = j + 1;
    }
    assert(out@ =~= vs@.map_values(|x: u32| x as i32));
    Ok(out)
}

} // verus!
