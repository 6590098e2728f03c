use vstd::prelude::*;

use crate::error::ErrorAt;
use crate::programming_languages::c::types::CType;
use crate::programming_languages::tanuki::t_type::{TanukiType, TypeModel};

verus! {

/// Whether a Tanuki type has a C type it compiles to: `Void`, and the integer types of 8, 16, 32
/// and 64 bits.
pub open spec fn has_c_type(t: TypeModel) -> bool {
    match t {
        TypeModel::Void => true,
        TypeModel::U(w) => w == 8 || w == 16 || w == 32 || w == 64,
        TypeModel::I(w) => w == 8 || w == 16 || w == 32 || w == 64,
        _ => false,
    }
}

/// The C type a Tanuki type compiles to.
pub open spec fn c_type_of(t: TypeModel) -> CType {
    match t {
        TypeModel::U(8) => CType::U8,
        TypeModel::U(16) => CType::U16,
        TypeModel::U(32) => CType::U32,
        TypeModel::U(64) => CType::U64,
        TypeModel::I(8) => CType::I8,
        TypeModel::I(16) => CType::I16,
        TypeModel::I(32) => CType::I32,
        TypeModel::I(64) => CType::I64,
        _ => CType::Void,
    }
}

/// A Tanuki integer type compiles to the C integer type of the same width and signedness: `@u(w)`
/// to the unsigned `uintw_t` and `@i(w)` to the signed `intw_t`; `Void` compiles to `void`.
pub proof fn law_integer_types_keep_width_and_signedness(t: TypeModel)
    requires
        has_c_type(t),
    ensures
        t matches TypeModel::U(w) ==> c_type_of(t).fixed_integer() == Some((w as nat, false)),
        t matches TypeModel::I(w) ==> c_type_of(t).fixed_integer() == Some((w as nat, true)),
        t is Void ==> c_type_of(t) is Void,
{
}

impl TanukiType {
    /// Compiles a Tanuki type to a C type.
    pub fn compile_to_c(&self) -> (r: Result<CType, ErrorAt>)
        requires
            has_c_type(self.model()),
        ensures
            r == Ok::<CType, ErrorAt>(c_type_of(self.model())),
    {
        Ok(
            match self {
                TanukiType::U(bit_width) => {
                    if *bit_width == 8 {
                        CType::U8
                    } else if *bit_width == 16 {
                        CType::U16
                    } else if *bit_width == 32 {
                        CType::U32
                    } else {
                        CType::U64
                    }
                },
                TanukiType::I(bit_width) => {
                    if *bit_width == 8 {
                        CType::I8
                    } else if *bit_width == 16 {
                        CType::I16
                    } else if *bit_width == 32 {
                        CType::I32
                    } else {
                        CType::I64
                    }
                },
                _ => CType::Void,
            },
        )
    }
}

} // verus!
