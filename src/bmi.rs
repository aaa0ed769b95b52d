//! The typed-value model: numeric kinds, owned arrays and borrowed views of
//! one kind, and the default operations of the capability interface that
//! are built on them.
use crate::errors::BmiError;
use vstd::prelude::*;

verus! {

/// The numeric data type of an item in a variable's array.
#[derive(Debug, Clone, Copy, PartialEq, Eq, Structural)]
pub enum ValueType {
    /// signed 16 bit integer (`short`)
    I16,
    /// unsigned 16 bit integer (`unsigned short`)
    U16,
    /// signed 32 bit integer (`int`)
    I32,
    /// unsigned 32 bit integer (`unsigned int`)
    U32,
    /// signed 64 bit integer (`long`)
    I64,
    /// unsigned 64 bit integer (`unsigned long`)
    U64,
    /// 32 bit IEEE-754 float (`float`)
    F32,
    /// 64 bit IEEE-754 float (`double`)
    F64,
}

/// The byte width of one item of kind `t`.
pub open spec fn item_size(t: ValueType) -> nat {
    match t {
        ValueType::I16 | ValueType::U16 => 2,
        ValueType::I32 | ValueType::U32 | ValueType::F32 => 4,
        ValueType::I64 | ValueType::U64 | ValueType::F64 => 8,
    }
}

impl ValueType {
    /// Return the size in bytes of the variant's analogous numeric type.
    pub fn bytes(&self) -> (r: usize)
        ensures
            r == item_size(*self),
    {
        match self {
            ValueType::I16 | ValueType::U16 => 2,
            ValueType::I32 | ValueType::U32 | ValueType::F32 => 4,
            ValueType::I64 | ValueType::U64 | ValueType::F64 => 8,
        }
    }
}

/// The C type name of kind `t`, as the boundary reports it.
pub open spec fn c_type_name_of(t: ValueType) -> Seq<char> {
    match t {
        ValueType::I16 => "short"@,
        ValueType::U16 => "unsigned short"@,
        ValueType::I32 => "int"@,
        ValueType::U32 => "unsigned int"@,
        ValueType::I64 => "long"@,
        ValueType::U64 => "unsigned long"@,
        ValueType::F32 => "float"@,
        ValueType::F64 => "double"@,
    }
}

impl ValueType {
    /// Return the name of the analogous C type.
    pub fn c_type_name(&self) -> (r: &'static str)
        ensures
            r@ == c_type_name_of(*self),
    {
        match self {
            ValueType::I16 => "short",
            ValueType::U16 => "unsigned short",
            ValueType::I32 => "int",
            ValueType::U32 => "unsigned int",
            ValueType::I64 => "long",
            ValueType::U64 => "unsigned long",
            ValueType::F32 => "float",
            ValueType::F64 => "double",
        }
    }
}

/// The kinds of the earlier, smaller type vocabulary.
#[derive(Debug, Clone, Copy, PartialEq, Eq, Structural)]
pub enum VarType {
    Int,
    Float,
    Double,
}

/// The element of a grid that a variable's items are located on.
#[derive(Debug, Clone, Copy, PartialEq, Eq, Structural)]
pub enum Location {
    Node,
    Edge,
    Face,
}

/// The name of location `l`, as the boundary reports it.
pub open spec fn location_name(l: Location) -> Seq<char> {
    match l {
        Location::Node => "node"@,
        Location::Edge => "edge"@,
        Location::Face => "face"@,
    }
}

impl Location {
    /// Return the location's name.
    pub fn to_string(&self) -> (r: String)
        ensures
            r@ == location_name(*self),
    {
        let name = match self {
            Location::Node => "node",
            Location::Edge => "edge",
            Location::Face => "face",
        };
        name.to_owned()
    }
}

/// The type of a grid.
#[derive(Debug, Clone, Copy, PartialEq, Eq, Structural)]
pub enum GridType {
    Scalar,
    Points,
    Vector,
    Unstructured,
    StructuredQuadrilateral,
    Rectilinear,
    UniformRectilinear,
}

/// The name of grid type `g`, as the boundary reports it.
pub open spec fn grid_type_name(g: GridType) -> Seq<char> {
    match g {
        GridType::Scalar => "scalar"@,
        GridType::Points => "points"@,
        GridType::Vector => "vector"@,
        GridType::Unstructured => "unstructured"@,
        GridType::StructuredQuadrilateral => "structured_quadrilateral"@,
        GridType::Rectilinear => "rectilinear"@,
        GridType::UniformRectilinear => "uniform_rectilinear"@,
    }
}

impl GridType {
    /// Return the grid type's name.
    pub fn to_string(&self) -> (r: String)
        ensures
            r@ == grid_type_name(*self),
    {
        let name = match self {
            GridType::Scalar => "scalar",
            GridType::Points => "points",
            GridType::Vector => "vector",
            GridType::Unstructured => "unstructured",
            GridType::StructuredQuadrilateral => "structured_quadrilateral",
            GridType::Rectilinear => "rectilinear",
            GridType::UniformRectilinear => "uniform_rectilinear",
        };
        name.to_owned()
    }
}

/// An owned array of one numeric kind, tagged with that kind.
///
/// The float kinds hold the IEEE-754 bit pattern of each item: the core only
/// moves float items, it never computes with them.
#[derive(Debug, Clone)]
pub enum Values {
    I16(Vec<i16>),
    U16(Vec<u16>),
    I32(Vec<i32>),
    U32(Vec<u32>),
    I64(Vec<i64>),
    U64(Vec<u64>),
    /// bit patterns of `f32` items
    F32(Vec<u32>),
    /// bit patterns of `f64` items
    F64(Vec<u64>),
}

/// A borrowed slice of one numeric kind, tagged with that kind.
///
/// As in [`Values`], the float kinds are seen through their bit patterns.
#[derive(Debug)]
pub enum RefValues<'a> {
    I16(&'a [i16]),
    U16(&'a [u16]),
    I32(&'a [i32]),
    U32(&'a [u32]),
    I64(&'a [i64]),
    U64(&'a [u64]),
    /// bit patterns of `f32` items
    F32(&'a [u32]),
    /// bit patterns of `f64` items
    F64(&'a [u64]),
}

/// The older name of [`Values`].
pub type ValueVec = Values;

/// The older name of [`RefValues`].
pub type RefValueVec<'a> = RefValues<'a>;

/// The items of `inds` looked up, in order, in `items`.
pub open spec fn gather(items: Seq<int>, inds: Seq<u32>) -> Seq<int> {
    inds.map_values(|i: u32| items[i as int])
}

/// Every index of `inds` points into a sequence of length `len`.
pub open spec fn all_below(inds: Seq<u32>, len: nat) -> bool {
    forall|j: int| 0 <= j < inds.len() ==> (#[trigger] inds[j]) < len
}

impl Values {
    /// The numeric kind of the array.
    pub open spec fn kind(&self) -> ValueType {
        match self {
            Values::I16(_) => ValueType::I16,
            Values::U16(_) => ValueType::U16,
            Values::I32(_) => ValueType::I32,
            Values::U32(_) => ValueType::U32,
            Values::I64(_) => ValueType::I64,
            Values::U64(_) => ValueType::U64,
            Values::F32(_) => ValueType::F32,
            Values::F64(_) => ValueType::F64,
        }
    }

    /// The items of the array as integers (float kinds: their bit patterns).
    pub open spec fn items(&self) -> Seq<int> {
        match self {
            Values::I16(v) => v@.map_values(|x: i16| x as int),
            Values::U16(v) => v@.map_values(|x: u16| x as int),
            Values::I32(v) => v@.map_values(|x: i32| x as int),
            Values::U32(v) => v@.map_values(|x: u32| x as int),
            Values::I64(v) => v@.map_values(|x: i64| x as int),
            Values::U64(v) => v@.map_values(|x: u64| x as int),
            Values::F32(v) => v@.map_values(|x: u32| x as int),
            Values::F64(v) => v@.map_values(|x: u64| x as int),
        }
    }

    /// Return the numeric kind of the array.
    pub fn value_type(&self) -> (r: ValueType)
        ensures
            r == self.kind(),
    {
        match self {
            Values::I16(_) => ValueType::I16,
            Values::U16(_) => ValueType::U16,
            Values::I32(_) => ValueType::I32,
            Values::U32(_) => ValueType::U32,
            Values::I64(_) => ValueType::I64,
            Values::U64(_) => ValueType::U64,
            Values::F32(_) => ValueType::F32,
            Values::F64(_) => ValueType::F64,
        }
    }

    /// Return the number of items in the array.
    pub fn len(&self) -> (r: usize)
        ensures
            r == self.items().len(),
    {
        match self {
            Values::I16(v) => v.len(),
            Values::U16(v) => v.len(),
            Values::I32(v) => v.len(),
            Values::U32(v) => v.len(),
            Values::I64(v) => v.len(),
            Values::U64(v) => v.len(),
            Values::F32(v) => v.len(),
            Values::F64(v) => v.len(),
        }
    }
}

impl<'a> RefValues<'a> {
    /// Borrow an owned array as a view of the same kind and items.
    pub fn from(value: &'a Values) -> (r: RefValues<'a>)
        ensures
            r.kind() == value.kind(),
            r.items() == value.items(),
    {
        match value {
            Values::I16(items) => RefValues::I16(items.as_slice()),
            Values::U16(items) => RefValues::U16(items.as_slice()),
            Values::I32(items) => RefValues::I32(items.as_slice()),
            Values::U32(items) => RefValues::U32(items.as_slice()),
            Values::I64(items) => RefValues::I64(items.as_slice()),
            Values::U64(items) => RefValues::U64(items.as_slice()),
            Values::F32(items) => RefValues::F32(items.as_slice()),
            Values::F64(items) => RefValues::F64(items.as_slice()),
        }
    }

    /// The numeric kind of the slice.
    pub open spec fn kind(&self) -> ValueType {
        match self {
            RefValues::I16(_) => ValueType::I16,
            RefValues::U16(_) => ValueType::U16,
            RefValues::I32(_) => ValueType::I32,
            RefValues::U32(_) => ValueType::U32,
            RefValues::I64(_) => ValueType::I64,
            RefValues::U64(_) => ValueType::U64,
            RefValues::F32(_) => ValueType::F32,
            RefValues::F64(_) => ValueType::F64,
        }
    }

    /// The items of the slice as integers (float kinds: their bit patterns).
    pub open spec fn items(&self) -> Seq<int> {
        match self {
            RefValues::I16(v) => v@.map_values(|x: i16| x as int),
            RefValues::U16(v) => v@.map_values(|x: u16| x as int),
            RefValues::I32(v) => v@.map_values(|x: i32| x as int),
            RefValues::U32(v) => v@.map_values(|x: u32| x as int),
            RefValues::I64(v) => v@.map_values(|x: i64| x as int),
            RefValues::U64(v) => v@.map_values(|x: u64| x as int),
            RefValues::F32(v) => v@.map_values(|x: u32| x as int),
            RefValues::F64(v) => v@.map_values(|x: u64| x as int),
        }
    }

    /// Return the numeric kind of the slice.
    pub fn value_type(&self) -> (r: ValueType)
        ensures
            r == self.kind(),
    {
        match self {
            RefValues::I16(_) => ValueType::I16,
            RefValues::U16(_) => ValueType::U16,
            RefValues::I32(_) => ValueType::I32,
            RefValues::U32(_) => ValueType::U32,
            RefValues::I64(_) => ValueType::I64,
            RefValues::U64(_) => ValueType::U64,
            RefValues::F32(_) => ValueType::F32,
            RefValues::F64(_) => ValueType::F64,
        }
    }

    /// Return the number of items in the slice.
    pub fn len(&self) -> (r: usize)
        ensures
            r == self.items().len(),
    {
        match self {
            RefValues::I16(v) => v.len(),
            RefValues::U16(v) => v.len(),
            RefValues::I32(v) => v.len(),
            RefValues::U32(v) => v.len(),
            RefValues::I64(v) => v.len(),
            RefValues::U64(v) => v.len(),
            RefValues::F32(v) => v.len(),
            RefValues::F64(v) => v.len(),
        }
    }
}

/// Copy `items[i]` for each `i` of `inds`, in order, into a fresh vector;
/// fail if an index is out of bounds.
fn select<T: Copy>(items: &[T], inds: &[u32]) -> (r: Result<Vec<T>, BmiError>)
    ensures
        match r {
            Ok(v) => all_below(inds@, items@.len()) && v@ == inds@.map_values(
                |i: u32| items@[i as int],
            ),
            Err(e) => !all_below(inds@, items@.len()) && e == BmiError::IndexOutOfBounds,
        },
{
    let mut v: Vec<T> = Vec::with_capacity(inds.len());
    let mut j: usize = 0;
    while j < inds.len()
        invariant
            j <= inds@.len(),
            v@.len() == j,
            forall|k: int| 0 <= k < j ==> (#[trigger] inds@[k]) < items@.len(),
            forall|k: int| 0 <= k < j ==> #[trigger] v@[k] == items@[inds@[k] as int],
        decreases inds.len() - j,
    {
        let i = inds[j] as usize;
        if i >= items.len() {
            return Err(BmiError::IndexOutOfBounds);
        }
        v.push(items[i]);
        j = j + 1;
    }
    assert(v@ =~= inds@.map_values(|i: u32| items@[i as int]));
    Ok(v)
}

/// The default indexed read of the capability interface: for each index of
/// `inds`, in order and with repeats kept, the item of `src` at that index,
/// in a fresh array of the same kind. It fails with `IndexOutOfBounds`, and
/// returns nothing else, when some index is at or past the length of `src`.
pub fn values_at_indices(src: &RefValues, inds: &[u32]) -> (r: Result<Values, BmiError>)
    ensures
        r is Ok <==> all_below(inds@, src.items().len()),
        r matches Ok(v) ==> v.kind() == src.kind() && v.items() == gather(src.items(), inds@),
        r matches Err(e) ==> e == BmiError::IndexOutOfBounds,
{
    match src {
        RefValues::I16(s) => match select(s, inds) {
            Ok(v) => {
                let r = Values::I16(v);
                assert(r.items() =~= gather(src.items(), inds@));
                Ok(r)
            },
            Err(e) => Err(e),
        },
        RefValues::U16(s) => match select(s, inds) {
            Ok(v) => {
                let r = Values::U16(v);
                assert(r.items() =~= gather(src.items(), inds@));
                Ok(r)
            },
            Err(e) => Err(e),
        },
        RefValues::I32(s) => match select(s, inds) {
            Ok(v) => {
                let r = Values::I32(v);
                assert(r.items() =~= gather(src.items(), inds@));
                Ok(r)
            },
            Err(e) => Err(e),
        },
        RefValues::U32(s) => match select(s, inds) {
            Ok(v) => {
                let r = Values::U32(v);
                assert(r.items() =~= gather(src.items(), inds@));
                Ok(r)
            },
            Err(e) => Err(e),
        },
        RefValues::I64(s) => match select(s, inds) {
            Ok(v) => {
                let r = Values::I64(v);
                assert(r.items() =~= gather(src.items(), inds@));
                Ok(r)
            },
            Err(e) => Err(e),
        },
        RefValues::U64(s) => match select(s, inds) {
            Ok(v) => {
                let r = Values::U64(v);
                assert(r.items() =~= gather(src.items(), inds@));
                Ok(r)
            },
            Err(e) => Err(e),
        },
        RefValues::F32(s) => match select(s, inds) {
            Ok(v) => {
                let r = Values::F32(v);
                assert(r.items() =~= gather(src.items(), inds@));
                Ok(r)
            },
            Err(e) => Err(e),
        },
        RefValues::F64(s) => match select(s, inds) {
            Ok(v) => {
                let r = Values::F64(v);
                assert(r.items() =~= gather(src.items(), inds@));
                Ok(r)
            },
            Err(e) => Err(e),
        },
    }
}

/// The default count of input or output items: the number of names, or the
/// largest `u32` where there are more names than that.
pub fn item_count<T>(names: &[T]) -> (r: u32)
    ensures
        names@.len() <= u32::MAX ==> r == names@.len(),
        names@.len() > u32::MAX ==> r == u32::MAX,
{
    if names.len() > u32::MAX as usize {
        u32::MAX
    } else {
        names.len() as u32
    }
}

/// The number of bytes that `len` items of kind `t` take.
pub open spec fn nbytes_of(len: nat, t: ValueType) -> nat {
    len * item_size(t)
}

/// The default byte size of a variable of `len` items of kind `t`: the item
/// count times the item size. It fails when that size does not fit a `u32`.
pub fn var_nbytes(len: usize, t: ValueType) -> (r: Result<u32, BmiError>)
    ensures
        r is Ok <==> nbytes_of(len as nat, t) <= u32::MAX,
        r matches Ok(n) ==> n == nbytes_of(len as nat, t),
        r matches Err(e) ==> e == BmiError::InvalidArgument,
{
    let size = t.bytes();
    let max = u32::MAX as usize;
    if len > max / size {
        assert(len * size > max) by (nonlinear_arith)
            requires
                len > max / size,
                size > 0,
        ;
        Err(BmiError::InvalidArgument)
    } else {
        assert(len * size <= max) by (nonlinear_arith)
            requires
                len <= max / size,
                size > 0,
        ;
        Ok((len * size) as u32)
    }
}

} // verus!
