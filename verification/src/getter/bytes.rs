//! The accessor of a string or of a list of bytes: a slice of bytes.

use vstd::prelude::*;

use crate::args::{enabled, merge_bool};
use crate::error::Error;
use crate::item::{ItemFn, ItemFnView};
use crate::ty::{Type, TypeExt};

use super::args::extract_path_spec;
use super::context::ContextView;
use super::{gen, Context};

verus! {

/// Whether `ty` is a string type of the standard library, owned,
/// borrowed, or a reference to an owned one.
pub open spec fn is_well_known_type_spec(ty: &Type) -> bool {
    ty.is_ty_spec("String"@) || ty.is_ref_ty_spec("String"@) || ty.is_ty_spec("CString"@)
        || ty.is_ref_ty_spec("CString"@) || ty.is_ty_spec("OsString"@) || ty.is_ref_ty_spec(
        "OsString"@,
    ) || ty.is_ref_ty_spec("str"@) || ty.is_ref_ty_spec("CStr"@) || ty.is_ref_ty_spec("OsStr"@)
}

/// Whether `ty` is `Vec<u8>`.
pub open spec fn is_vec_u8_spec(ty: &Type) -> bool {
    match ty.inner_ty_spec("Vec"@) {
        Some(t) => t.is_ty_spec("u8"@),
        None => false,
    }
}

/// Whether `ty` is an array of `u8`.
pub open spec fn is_array_u8_spec(ty: &Type) -> bool {
    match ty.array_elem_ty_spec() {
        Some(t) => t.is_ty_spec("u8"@),
        None => false,
    }
}

/// Whether `ty` is `CString`, `&CString` or `&CStr`.
pub open spec fn is_cstr_or_cstring_spec(ty: &Type) -> bool {
    ty.is_ty_spec("CString"@) || ty.is_ref_ty_spec("CString"@) || ty.is_ref_ty_spec("CStr"@)
}

/// The method that gives the bytes of a field of type `ty`.
pub open spec fn bytes_method_spec(ty: &Type) -> Seq<char> {
    if is_vec_u8_spec(ty) || is_array_u8_spec(ty) {
        "as_slice"@
    } else if is_cstr_or_cstring_spec(ty) {
        "to_bytes"@
    } else {
        "as_bytes"@
    }
}

/// The accessor that returns the bytes of the field: through the function
/// that `bytes(..)` names, else through the method that fits the type.
pub open spec fn getter_spec(ctx: ContextView) -> ItemFnView {
    ItemFnView {
        output: "&[u8]"@,
        block: match extract_path_spec(&ctx.field.args.bytes) {
            Some(path) => path.text@ + "("@ + ctx.field.ref_spec() + ctx.field.name_spec() + ")"@,
            None => ctx.field.name_spec() + "."@ + bytes_method_spec(&ctx.field.ty) + "()"@,
        },
        ..gen::getter_spec(ctx)
    }
}

/// The accessor that returns the bytes of the field.
pub fn getter(ctx: &Context) -> (r: ItemFn)
    ensures
        r@ == getter_spec(ctx@),
{
    let mut getter = gen::getter(ctx);
    getter.output = String::from_str("&[u8]");
    getter.block = match ctx.field.args.bytes_path() {
        Some(path) => {
            let mut block = path.text.clone();
            block.append("(");
            block.append(ctx.field.ref_name().as_str());
            block.append(")");
            proof {
                assert(block@ =~= path.text@ + "("@ + ctx@.field.ref_spec() + ctx@.field.name_spec()
                    + ")"@);
            }
            block
        },
        None => {
            let method_name = if is_vec_u8(&ctx.field.ty) || is_array_u8(&ctx.field.ty) {
                "as_slice"
            } else if is_cstr_or_cstring(&ctx.field.ty) {
                "to_bytes"
            } else {
                "as_bytes"
            };
            let mut block = ctx.field.name();
            block.append(".");
            block.append(method_name);
            block.append("()");
            block
        },
    };
    getter
}

impl ContextView {
    /// Whether the field gets the accessor of bytes. It does where `bytes`
    /// is asked for and the field is a string type of the standard
    /// library, a `Vec` or an array of `u8`, or a function is named. Where
    /// the field itself asks and none of these holds, that is a fault;
    /// where only the structure asks, the field is passed over.
    pub open spec fn is_bytes_spec(&self) -> Result<bool, Error> {
        if enabled(&self.field.args.bytes, &self.struct_args.bytes) {
            if is_well_known_type_spec(&self.field.ty) || is_vec_u8_spec(&self.field.ty)
                || is_array_u8_spec(&self.field.ty) || extract_path_spec(&self.field.args.bytes)
                is Some {
                Ok(true)
            } else if self.field.args.bytes is Some {
                Err(Error::GetBytesWithoutPath)
            } else {
                Ok(false)
            }
        } else {
            Ok(false)
        }
    }
}

impl Context<'_> {
    /// Whether the field gets the accessor of bytes.
    pub fn is_bytes(&self) -> (r: Result<bool, Error>)
        ensures
            r == self@.is_bytes_spec(),
    {
        let asked = match merge_bool(&self.field.args.bytes, &self.struct_args.bytes) {
            Some(b) => b,
            None => false,
        };
        if asked {
            if is_well_known_type(&self.field.ty) || is_vec_u8(&self.field.ty) || is_array_u8(
                &self.field.ty,
            ) || self.field.args.bytes_path().is_some() {
                return Ok(true);
            }
            if self.field.args.bytes.is_some() {
                return Err(Error::GetBytesWithoutPath);
            }
        }
        Ok(false)
    }
}

/// Whether `ty` is a string type of the standard library: `String`,
/// `CString` or `OsString`, owned or behind a reference, or `&str`, `&CStr`
/// or `&OsStr`.
pub fn is_well_known_type(ty: &Type) -> (r: bool)
    ensures
        r == is_well_known_type_spec(ty),
{
    ty.is_ty("String") || ty.is_ref_ty("String") || ty.is_ty("CString") || ty.is_ref_ty("CString")
        || ty.is_ty("OsString") || ty.is_ref_ty("OsString") || ty.is_ref_ty("str") || ty.is_ref_ty(
        "CStr",
    ) || ty.is_ref_ty("OsStr")
}

/// Whether `ty` is `Vec<u8>`.
pub fn is_vec_u8(ty: &Type) -> (r: bool)
    ensures
        r == is_vec_u8_spec(ty),
{
    match ty.inner_ty("Vec") {
        Some(t) => t.is_ty("u8"),
        None => false,
    }
}

/// Whether `ty` is an array of `u8`.
pub fn is_array_u8(ty: &Type) -> (r: bool)
    ensures
        r == is_array_u8_spec(ty),
{
    match ty.array_elem_ty() {
        Some(t) => t.is_ty("u8"),
        None => false,
    }
}

/// Whether `ty` is `CString`, `&CString` or `&CStr`.
pub fn is_cstr_or_cstring(ty: &Type) -> (r: bool)
    ensures
        r == is_cstr_or_cstring_spec(ty),
{
    ty.is_ty("CString") || ty.is_ref_ty("CString") || ty.is_ref_ty("CStr")
}

} // verus!
