//! The structural shape of a value handed to the exporter.

use vstd::prelude::*;

verus! {

/// A value described by its structural shape. Optional values are either
/// `Absent` or `Present`; floating-point numbers arrive as their rendered text.
#[derive(Debug)]
pub enum Shape {
    Bool(bool),
    I8(i8),
    I16(i16),
    I32(i32),
    I64(i64),
    U8(u8),
    U16(u16),
    U32(u32),
    U64(u64),
    F32(String),
    F64(String),
    Char(char),
    Str(String),
    Bytes(Vec<u8>),
    Absent,
    Present(Box<Shape>),
    Unit,
    UnitStruct(String),
    UnitVariant(String, String),
    NewtypeStruct(String, Box<Shape>),
    NewtypeVariant(String, String, Box<Shape>),
    Sequence(Vec<Shape>),
    Tuple(Vec<Shape>),
    TupleStruct(String, Vec<Shape>),
    TupleVariant(String, String, Vec<Shape>),
    Mapping(Vec<(Shape, Shape)>),
    Struct(String, Vec<(String, Shape)>),
    StructVariant(String, String, Vec<(String, Shape)>),
}

} // verus!
