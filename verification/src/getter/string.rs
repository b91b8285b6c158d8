//! The accessors of a `String`: a string slice.

use vstd::prelude::*;

use crate::args::{enabled, merge_bool};
use crate::error::Error;
use crate::item::{ItemFn, ItemFnView};
use crate::ty::TypeExt;

use super::args::extract_path_spec;
use super::context::ContextView;
use super::{gen, Context};

verus! {

/// The accessor that returns the field as `&str`: through the function
/// that `str(..)` names, else through `String::as_str`.
pub open spec fn getter_spec(ctx: ContextView) -> ItemFnView {
    ItemFnView {
        output: "&str"@,
        block: (match extract_path_spec(&ctx.field.args.str) {
            Some(path) => path.text@,
            None => "::std::string::String::as_str"@,
        }) + "("@ + ctx.field.ref_spec() + ctx.field.name_spec() + ")"@,
        ..gen::getter_spec(ctx)
    }
}

/// The accessor that returns the field as `&mut str`: through the function
/// that `mut_str(..)` names, else through `String::as_mut_str`.
pub open spec fn mut_getter_spec(ctx: ContextView) -> ItemFnView {
    ItemFnView {
        output: "&mut str"@,
        block: (match extract_path_spec(&ctx.field.args.mut_str) {
            Some(path) => path.text@,
            None => "::std::string::String::as_mut_str"@,
        }) + "("@ + ctx.field.ref_mut_spec() + ctx.field.name_spec() + ")"@,
        ..gen::mut_getter_spec(ctx)
    }
}

/// The accessor that returns the field as `&str`.
pub fn getter(ctx: &Context) -> (r: ItemFn)
    ensures
        r@ == getter_spec(ctx@),
{
    let mut getter = gen::getter(ctx);
    getter.output = String::from_str("&str");
    let mut block = match ctx.field.args.str_path() {
        Some(path) => path.text.clone(),
        None => String::from_str("::std::string::String::as_str"),
    };
    block.append("(");
    block.append(ctx.field.ref_());
    block.append(ctx.field.name().as_str());
    block.append(")");
    getter.block = block;
    getter
}

/// The accessor that returns the field as `&mut str`.
pub fn mut_getter(ctx: &Context) -> (r: ItemFn)
    ensures
        r@ == mut_getter_spec(ctx@),
{
    let mut getter = gen::mut_getter(ctx);
    getter.output = String::from_str("&mut str");
    let mut block = match ctx.field.args.mut_str_path() {
        Some(path) => path.text.clone(),
        None => String::from_str("::std::string::String::as_mut_str"),
    };
    block.append("(");
    block.append(ctx.field.ref_mut());
    block.append(ctx.field.name().as_str());
    block.append(")");
    getter.block = block;
    getter
}

impl ContextView {
    /// Whether the field gets the accessor of a string. It does where
    /// `str` is asked for and the field is a `String` or a reference to
    /// one, or a function is named. Where the field itself asks and
    /// neither holds, that is a fault; where only the structure asks, the
    /// field is passed over.
    pub open spec fn is_str_spec(&self) -> Result<bool, Error> {
        if enabled(&self.field.args.str, &self.struct_args.str) {
            if self.field.ty.is_ty_spec("String"@) || self.field.ty.is_ref_ty_spec("String"@)
                || extract_path_spec(&self.field.args.str) is Some {
                Ok(true)
            } else if self.field.args.str is Some {
                Err(Error::GetStrNotString)
            } else {
                Ok(false)
            }
        } else {
            Ok(false)
        }
    }

    /// The same for `mut_str` and the mutable accessor.
    pub open spec fn is_mut_str_spec(&self) -> Result<bool, Error> {
        if enabled(&self.field.args.mut_str, &self.struct_args.mut_str) {
            if self.field.ty.is_ty_spec("String"@) || self.field.ty.is_ref_ty_spec("String"@)
                || extract_path_spec(&self.field.args.mut_str) is Some {
                Ok(true)
            } else if self.field.args.mut_str is Some {
                Err(Error::GetMutStrNotString)
            } else {
                Ok(false)
            }
        } else {
            Ok(false)
        }
    }
}

impl Context<'_> {
    /// Whether the field gets the accessor of a string.
    pub fn is_str(&self) -> (r: Result<bool, Error>)
        ensures
            r == self@.is_str_spec(),
    {
        let asked = match merge_bool(&self.field.args.str, &self.struct_args.str) {
            Some(b) => b,
            None => false,
        };
        if asked {
            if self.field.ty.is_string() || self.field.ty.is_ref_string()
                || self.field.args.str_path().is_some() {
                return Ok(true);
            }
            if self.field.args.str.is_some() {
                return Err(Error::GetStrNotString);
            }
        }
        Ok(false)
    }

    /// Whether the field gets the mutable accessor of a string.
    pub fn is_mut_str(&self) -> (r: Result<bool, Error>)
        ensures
            r == self@.is_mut_str_spec(),
    {
        let asked = match merge_bool(&self.field.args.mut_str, &self.struct_args.mut_str) {
            Some(b) => b,
            None => false,
        };
        if asked {
            if self.field.ty.is_string() || self.field.ty.is_ref_string()
                || self.field.args.mut_str_path().is_some() {
                return Ok(true);
            }
            if self.field.args.mut_str.is_some() {
                return Err(Error::GetMutStrNotString);
            }
        }
        Ok(false)
    }
}

} // verus!
