//! The accessors of a `Vec` or an array: a slice.

use vstd::prelude::*;

use crate::args::{enabled, merge_bool};
use crate::error::Error;
use crate::item::{ItemFn, ItemFnView};
use crate::ty::{Type, TypeExt};

use super::args::extract_path_spec;
use super::context::ContextView;
use super::{gen, Context};

verus! {

/// The accessor that returns the field as a shared slice: through the
/// function that `slice(..)` names, else through `as_slice`. There is none
/// where the field is neither a `Vec` nor an array.
pub open spec fn getter_spec(ctx: ContextView) -> Result<ItemFnView, Error> {
    match ctx.field.ty.slice_inner_ty_spec() {
        Some(inner) => Ok(
            ItemFnView {
                output: "& ["@ + inner.text@ + "]"@,
                block: match extract_path_spec(&ctx.field.args.slice) {
                    Some(path) => path.text@ + "("@ + ctx.field.ref_spec() + ctx.field.name_spec()
                        + ")"@,
                    None => ctx.field.name_spec() + ".as_slice()"@,
                },
                ..gen::getter_spec(ctx)
            },
        ),
        None => Err(Error::NotSlice),
    }
}

/// The accessor that returns the field as a mutable slice: through the
/// function that `mut_slice(..)` names, else through `as_mut_slice`.
pub open spec fn mut_getter_spec(ctx: ContextView) -> Result<ItemFnView, Error> {
    match ctx.field.ty.slice_inner_ty_spec() {
        Some(inner) => Ok(
            ItemFnView {
                output: "&mut ["@ + inner.text@ + "]"@,
                block: match extract_path_spec(&ctx.field.args.mut_slice) {
                    Some(path) => path.text@ + "("@ + ctx.field.ref_mut_spec()
                        + ctx.field.name_spec() + ")"@,
                    None => ctx.field.name_spec() + ".as_mut_slice()"@,
                },
                ..gen::mut_getter_spec(ctx)
            },
        ),
        None => Err(Error::NotSlice),
    }
}

/// The accessor that returns the field as a shared slice.
pub fn getter(ctx: &Context) -> (r: Result<ItemFn, Error>)
    ensures
        match r {
            Ok(f) => getter_spec(ctx@) == Ok::<ItemFnView, Error>(f@),
            Err(e) => getter_spec(ctx@) == Err::<ItemFnView, Error>(e),
        },
{
    let mut getter = gen::getter(ctx);
    let inner = ctx.slice_inner_ty()?;
    let mut output = String::from_str("& [");
    output.append(inner.text.as_str());
    output.append("]");
    getter.output = output;
    getter.block = match ctx.field.args.slice_path() {
        Some(path) => {
            let mut block = path.text.clone();
            block.append("(");
            block.append(ctx.field.ref_name().as_str());
            block.append(")");
            proof {
                assert(block@ =~= path.text@ + "("@ + ctx@.field.ref_spec() + ctx@.field.name_spec()
                    + ")"@);
            }
            block
        },
        None => {
            let mut block = ctx.field.name();
            block.append(".as_slice()");
            block
        },
    };
    Ok(getter)
}

/// The accessor that returns the field as a mutable slice.
pub fn mut_getter(ctx: &Context) -> (r: Result<ItemFn, Error>)
    ensures
        match r {
            Ok(f) => mut_getter_spec(ctx@) == Ok::<ItemFnView, Error>(f@),
            Err(e) => mut_getter_spec(ctx@) == Err::<ItemFnView, Error>(e),
        },
{
    let mut getter = gen::mut_getter(ctx);
    let inner = ctx.slice_inner_ty()?;
    let mut output = String::from_str("&mut [");
    output.append(inner.text.as_str());
    output.append("]");
    getter.output = output;
    getter.block = match ctx.field.args.mut_slice_path() {
        Some(path) => {
            let mut block = path.text.clone();
            block.append("(");
            block.append(ctx.field.ref_mut_name().as_str());
            block.append(")");
            proof {
                assert(block@ =~= path.text@ + "("@ + ctx@.field.ref_mut_spec()
                    + ctx@.field.name_spec() + ")"@);
            }
            block
        },
        None => {
            let mut block = ctx.field.name();
            block.append(".as_mut_slice()");
            block
        },
    };
    Ok(getter)
}

impl ContextView {
    /// Whether the field gets the accessor of a slice. It does where
    /// `slice` is asked for and the field is a `Vec` or an array, or a
    /// function is named. Where the field itself asks and neither holds,
    /// that is a fault; where only the structure asks, the field is passed
    /// over.
    pub open spec fn is_slice_spec(&self) -> Result<bool, Error> {
        if enabled(&self.field.args.slice, &self.struct_args.slice) {
            if self.field.ty.slice_inner_ty_spec() is Some || extract_path_spec(
                &self.field.args.slice,
            ) is Some {
                Ok(true)
            } else if self.field.args.slice is Some {
                Err(Error::GetSliceNotSlice)
            } else {
                Ok(false)
            }
        } else {
            Ok(false)
        }
    }

    /// The same for `mut_slice` and the mutable accessor.
    pub open spec fn is_mut_slice_spec(&self) -> Result<bool, Error> {
        if enabled(&self.field.args.mut_slice, &self.struct_args.mut_slice) {
            if self.field.ty.slice_inner_ty_spec() is Some || extract_path_spec(
                &self.field.args.mut_slice,
            ) is Some {
                Ok(true)
            } else if self.field.args.mut_slice is Some {
                Err(Error::GetMutSliceNotSlice)
            } else {
                Ok(false)
            }
        } else {
            Ok(false)
        }
    }
}

impl Context<'_> {
    /// Whether the field gets the accessor of a slice.
    pub fn is_slice(&self) -> (r: Result<bool, Error>)
        ensures
            r == self@.is_slice_spec(),
    {
        let asked = match merge_bool(&self.field.args.slice, &self.struct_args.slice) {
            Some(b) => b,
            None => false,
        };
        if asked {
            if self.field.ty.slice_inner_ty().is_some() || self.field.args.slice_path().is_some() {
                return Ok(true);
            }
            if self.field.args.slice.is_some() {
                return Err(Error::GetSliceNotSlice);
            }
        }
        Ok(false)
    }

    /// Whether the field gets the mutable accessor of a slice.
    pub fn is_mut_slice(&self) -> (r: Result<bool, Error>)
        ensures
            r == self@.is_mut_slice_spec(),
    {
        let asked = match merge_bool(&self.field.args.mut_slice, &self.struct_args.mut_slice) {
            Some(b) => b,
            None => false,
        };
        if asked {
            if self.field.ty.slice_inner_ty().is_some()
                || self.field.args.mut_slice_path().is_some() {
                return Ok(true);
            }
            if self.field.args.mut_slice.is_some() {
                return Err(Error::GetMutSliceNotSlice);
            }
        }
        Ok(false)
    }

    /// The element type of the `Vec` or the array that the field is.
    pub fn slice_inner_ty(&self) -> (r: Result<&Type, Error>)
        ensures
            match r {
                Ok(t) => self.field.ty.slice_inner_ty_spec() == Some(t),
                Err(e) => self.field.ty.slice_inner_ty_spec() is None && e == Error::NotSlice,
            },
    {
        match self.field.ty.slice_inner_ty() {
            Some(ty) => Ok(ty),
            None => Err(Error::NotSlice),
        }
    }
}

} // verus!
