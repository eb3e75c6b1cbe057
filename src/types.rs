use vstd::prelude::*;
use crate::model::{Type, TypeKind};
use crate::names::{emit, str_eq};

verus! {

/// The integer and floating-point primitives, all of which map to `number`.
pub open spec fn is_numeric_name(n: Seq<char>) -> bool {
    n == "i8"@ || n == "i16"@ || n == "i32"@ || n == "i64"@ || n == "u8"@ || n == "u16"@
        || n == "u32"@ || n == "u64"@ || n == "usize"@ || n == "f32"@ || n == "f64"@
}

/// Host type of a primitive passed by value; an unknown name stands for itself.
pub open spec fn primitive_host_name(n: Seq<char>) -> Seq<char> {
    if is_numeric_name(n) {
        "number"@
    } else if n == "bool"@ {
        "boolean"@
    } else if n == "()"@ {
        "void"@
    } else if n == "c_char"@ {
        "string"@
    } else if n == "Json"@ {
        "any"@
    } else {
        n
    }
}

/// Host type annotation of a type, without its nullability.
pub open spec fn host_type(t: Type) -> Seq<char> {
    if t.is_custom {
        match t.kind {
            TypeKind::Ref => t.name@ + "Ref"@,
            TypeKind::RefMut => t.name@ + "RefMut"@,
            TypeKind::Value => t.name@,
        }
    } else if t.name@ == "Json"@ {
        "any"@
    } else {
        match t.kind {
            TypeKind::Ref => if t.name@ == "c_char"@ {
                "string"@
            } else {
                "Buffer"@
            },
            TypeKind::RefMut => "Buffer"@,
            TypeKind::Value => primitive_host_name(t.name@),
        }
    }
}

/// Host type annotation of a type, with `| null` where it is nullable.
pub open spec fn host_type_nullable(t: Type) -> Seq<char> {
    if t.is_nullable {
        host_type(t) + " | null"@
    } else {
        host_type(t)
    }
}

/// ABI tag of a primitive passed by value; an unknown name stands for itself.
pub open spec fn primitive_abi_tag(n: Seq<char>) -> Seq<char> {
    if n == "i8"@ {
        "'int8'"@
    } else if n == "i16"@ {
        "'int16'"@
    } else if n == "i32"@ {
        "'int32'"@
    } else if n == "i64"@ {
        "'int64'"@
    } else if n == "u8"@ {
        "'uint8'"@
    } else if n == "u16"@ {
        "'uint16'"@
    } else if n == "u32"@ {
        "'uint32'"@
    } else if n == "u64"@ {
        "'uint64'"@
    } else if n == "usize"@ {
        "'size_t'"@
    } else if n == "f32"@ {
        "'float'"@
    } else if n == "f64"@ {
        "'double'"@
    } else if n == "bool"@ {
        "'bool'"@
    } else if n == "()"@ {
        "'void'"@
    } else if n == "c_char"@ {
        "'char'"@
    } else {
        n
    }
}

/// ABI tag of a type in the native binding table.
pub open spec fn abi_tag(t: Type) -> Seq<char> {
    if (t.kind == TypeKind::Ref && t.name@ == "c_char"@) || t.name@ == "Json"@ {
        "'CString'"@
    } else if t.kind == TypeKind::Ref || t.kind == TypeKind::RefMut {
        "'pointer'"@
    } else if !t.is_custom {
        primitive_abi_tag(t.name@)
    } else {
        "'pointer'"@
    }
}

fn is_numeric(n: &str) -> (r: bool)
    ensures
        r == is_numeric_name(n@),
{
    str_eq(n, "i8") || str_eq(n, "i16") || str_eq(n, "i32") || str_eq(n, "i64") || str_eq(n, "u8")
        || str_eq(n, "u16") || str_eq(n, "u32") || str_eq(n, "u64") || str_eq(n, "usize")
        || str_eq(n, "f32") || str_eq(n, "f64")
}

/// Host type annotation of `ty`, with `| null` appended where it is nullable.
pub fn get_hl_type_with_null(ty: &Type) -> (r: String)
    ensures
        r@ == host_type_nullable(*ty),
{
    let mut formatted = get_hl_type_without_null(ty);
    if ty.is_nullable {
        emit(&mut formatted, " | null");
    }
    formatted
}

/// Host type annotation of `ty`, ignoring nullability.
pub fn get_hl_type_without_null(ty: &Type) -> (r: String)
    ensures
        r@ == host_type(*ty),
{
    let name = ty.name.as_str();
    if ty.is_custom {
        let mut s = ty.name.clone();
        match ty.kind {
            TypeKind::Ref => emit(&mut s, "Ref"),
            TypeKind::RefMut => emit(&mut s, "RefMut"),
            TypeKind::Value => {},
        }
        s
    } else if str_eq(name, "Json") {
        String::from_str("any")
    } else {
        match ty.kind {
            TypeKind::Ref => if str_eq(name, "c_char") {
                String::from_str("string")
            } else {
                String::from_str("Buffer")
            },
            TypeKind::RefMut => String::from_str("Buffer"),
            TypeKind::Value => if is_numeric(name) {
                String::from_str("number")
            } else if str_eq(name, "bool") {
                String::from_str("boolean")
            } else if str_eq(name, "()") {
                String::from_str("void")
            } else if str_eq(name, "c_char") {
                String::from_str("string")
            } else if str_eq(name, "Json") {
                String::from_str("any")
            } else {
                ty.name.clone()
            },
        }
    }
}

fn primitive_tag(n: &str) -> (r: String)
    ensures
        r@ == primitive_abi_tag(n@),
{
    if str_eq(n, "i8") {
        String::from_str("'int8'")
    } else if str_eq(n, "i16") {
        String::from_str("'int16'")
    } else if str_eq(n, "i32") {
        String::from_str("'int32'")
    } else if str_eq(n, "i64") {
        String::from_str("'int64'")
    } else if str_eq(n, "u8") {
        String::from_str("'uint8'")
    } else if str_eq(n, "u16") {
        String::from_str("'uint16'")
    } else if str_eq(n, "u32") {
        String::from_str("'uint32'")
    } else if str_eq(n, "u64") {
        String::from_str("'uint64'")
    } else if str_eq(n, "usize") {
        String::from_str("'size_t'")
    } else if str_eq(n, "f32") {
        String::from_str("'float'")
    } else if str_eq(n, "f64") {
        String::from_str("'double'")
    } else if str_eq(n, "bool") {
        String::from_str("'bool'")
    } else if str_eq(n, "()") {
        String::from_str("'void'")
    } else if str_eq(n, "c_char") {
        String::from_str("'char'")
    } else {
        String::from_str(n)
    }
}

/// ABI tag of `ty` for the native binding table.
pub fn get_ll_type(ty: &Type) -> (r: String)
    ensures
        r@ == abi_tag(*ty),
{
    let name = ty.name.as_str();
    let is_ref = match ty.kind {
        TypeKind::Ref => true,
        _ => false,
    };
    let is_ref_mut = match ty.kind {
        TypeKind::RefMut => true,
        _ => false,
    };
    if (is_ref && str_eq(name, "c_char")) || str_eq(name, "Json") {
        String::from_str("'CString'")
    } else if is_ref || is_ref_mut {
        String::from_str("'pointer'")
    } else if !ty.is_custom {
        primitive_tag(name)
    } else {
        String::from_str("'pointer'")
    }
}

} // verus!
