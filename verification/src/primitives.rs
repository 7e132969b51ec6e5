//! The fixed set of type names for which text parsing is offered by default.
//!
//! The parse capability is enabled by default only when the inner type's
//! rendered name is one of these seventeen names: the boolean and character
//! types, the two floating-point widths, the twelve integer widths, and the
//! owned text-string type. The match is purely by rendered name; a
//! user-defined type that shares a name with one of these is treated as if it
//! were that type. This is a deliberate, documented policy, not an oversight:
//! the engine cannot inspect the type behind the name.

use vstd::prelude::*;

verus! {

/// Whether `name` is one of the seventeen type names whose textual parsing
/// behaviour is standard, so that the parse capability defaults to enabled.
pub open spec fn is_from_str_default_name(name: Seq<char>) -> bool {
    ||| name == "bool"@
    ||| name == "char"@
    ||| name == "f32"@
    ||| name == "f64"@
    ||| name == "i8"@
    ||| name == "i16"@
    ||| name == "i32"@
    ||| name == "i64"@
    ||| name == "i128"@
    ||| name == "isize"@
    ||| name == "u8"@
    ||| name == "u16"@
    ||| name == "u32"@
    ||| name == "u64"@
    ||| name == "u128"@
    ||| name == "usize"@
    ||| name == "String"@
}

/// Decides membership of `name` in the default-parse name set.
pub fn from_str_default_name(name: &String) -> (r: bool)
    ensures
        r == is_from_str_default_name(name@),
{
    name.eq(&"bool".to_owned()) || name.eq(&"char".to_owned()) || name.eq(&"f32".to_owned())
        || name.eq(&"f64".to_owned()) || name.eq(&"i8".to_owned()) || name.eq(&"i16".to_owned())
        || name.eq(&"i32".to_owned()) || name.eq(&"i64".to_owned()) || name.eq(&"i128".to_owned())
        || name.eq(&"isize".to_owned()) || name.eq(&"u8".to_owned()) || name.eq(&"u16".to_owned())
        || name.eq(&"u32".to_owned()) || name.eq(&"u64".to_owned()) || name.eq(&"u128".to_owned())
        || name.eq(&"usize".to_owned()) || name.eq(&"String".to_owned())
}

} // verus!
