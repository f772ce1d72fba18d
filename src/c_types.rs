//! How each bridged type is written in C, which header it needs, and which
//! slice wrapper it asks for.

use vstd::prelude::*;
use crate::model::{BridgedType, ElementType, Scalar};

verus! {

pub open spec fn scalar_c(s: Scalar) -> Seq<char> {
    match s {
        Scalar::U8 => "uint8_t"@,
        Scalar::I8 => "int8_t"@,
        Scalar::U16 => "uint16_t"@,
        Scalar::I16 => "int16_t"@,
        Scalar::U32 => "uint32_t"@,
        Scalar::I32 => "int32_t"@,
        Scalar::U64 => "uint64_t"@,
        Scalar::I64 => "int64_t"@,
        Scalar::Usize => "uintptr_t"@,
        Scalar::Isize => "intptr_t"@,
        Scalar::F32 => "float"@,
        Scalar::F64 => "double"@,
        Scalar::Bool => "bool"@,
    }
}

pub open spec fn scalar_include(s: Scalar) -> Option<Seq<char>> {
    match s {
        Scalar::F32 | Scalar::F64 => None,
        Scalar::Bool => Some("stdbool.h"@),
        _ => Some("stdint.h"@),
    }
}

pub open spec fn element_c(e: ElementType) -> Seq<char> {
    match e {
        ElementType::Scalar(s) => scalar_c(s),
        ElementType::Opaque(_) => "void*"@,
        ElementType::Value(name) => name@,
    }
}

pub open spec fn element_include(e: ElementType) -> Option<Seq<char>> {
    match e {
        ElementType::Scalar(s) => scalar_include(s),
        _ => None,
    }
}

/// The synthesized struct that carries a slice of elements written `elem`.
pub open spec fn slice_wrapper_name(elem: Seq<char>) -> Seq<char> {
    "FfiSlice_"@ + elem
}

pub open spec fn type_c(t: BridgedType) -> Seq<char> {
    match t {
        BridgedType::Plain(e) => element_c(e),
        BridgedType::RefSlice(e) => slice_wrapper_name(element_c(e)),
    }
}

pub open spec fn type_include(t: BridgedType) -> Option<Seq<char>> {
    match t {
        BridgedType::Plain(e) => element_include(e),
        BridgedType::RefSlice(e) => element_include(e),
    }
}

/// The element of a slice type, as written in C.
pub open spec fn type_slice_elem(t: BridgedType) -> Option<Seq<char>> {
    match t {
        BridgedType::Plain(_) => None,
        BridgedType::RefSlice(e) => Some(element_c(e)),
    }
}

pub open spec fn opt_string_view(o: Option<String>) -> Option<Seq<char>> {
    match o {
        Some(s) => Some(s@),
        None => None,
    }
}

/// What one type becomes in C.
pub struct CMapping {
    pub c_repr: String,
    /// The header that must be included for `c_repr` to be known.
    pub std_header: Option<String>,
    /// The element whose slice wrapper must be defined.
    pub slice_elem: Option<String>,
}

impl CMapping {
    pub open spec fn describes(&self, t: BridgedType) -> bool {
        &&& self.c_repr@ == type_c(t)
        &&& opt_string_view(self.std_header) == type_include(t)
        &&& opt_string_view(self.slice_elem) == type_slice_elem(t)
    }
}

fn scalar_to_c(s: Scalar) -> (r: String)
    ensures
        r@ == scalar_c(s),
{
    let c = match s {
        Scalar::U8 => "uint8_t",
        Scalar::I8 => "int8_t",
        Scalar::U16 => "uint16_t",
        Scalar::I16 => "int16_t",
        Scalar::U32 => "uint32_t",
        Scalar::I32 => "int32_t",
        Scalar::U64 => "uint64_t",
        Scalar::I64 => "int64_t",
        Scalar::Usize => "uintptr_t",
        Scalar::Isize => "intptr_t",
        Scalar::F32 => "float",
        Scalar::F64 => "double",
        Scalar::Bool => "bool",
    };
    String::from_str(c)
}

fn scalar_to_include(s: Scalar) -> (r: Option<String>)
    ensures
        opt_string_view(r) == scalar_include(s),
{
    match s {
        Scalar::F32 | Scalar::F64 => None,
        Scalar::Bool => Some(String::from_str("stdbool.h")),
        _ => Some(String::from_str("stdint.h")),
    }
}

fn element_to_c(e: &ElementType) -> (r: String)
    ensures
        r@ == element_c(*e),
{
    match e {
        ElementType::Scalar(s) => scalar_to_c(*s),
        ElementType::Opaque(_) => String::from_str("void*"),
        ElementType::Value(name) => name.clone(),
    }
}

fn element_to_include(e: &ElementType) -> (r: Option<String>)
    ensures
        opt_string_view(r) == element_include(*e),
{
    match e {
        ElementType::Scalar(s) => scalar_to_include(*s),
        _ => None,
    }
}

/// Maps a bridged type to its C spelling, the include it needs and the slice
/// wrapper it asks for.
pub fn map_type(t: &BridgedType) -> (r: CMapping)
    ensures
        r.describes(*t),
{
    match t {
        BridgedType::Plain(e) => CMapping {
            c_repr: element_to_c(e),
            std_header: element_to_include(e),
            slice_elem: None,
        },
        BridgedType::RefSlice(e) => {
            let elem = element_to_c(e);
            let wrapper = String::from_str("FfiSlice_").concat(elem.as_str());
            CMapping { c_repr: wrapper, std_header: element_to_include(e), slice_elem: Some(elem) }
        },
    }
}

} // verus!
