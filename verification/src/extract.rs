//! Reading attributes and types in their strict form: a generic type counts
//! only with exactly one argument, and every attribute that stands outside
//! its item is handed on.

use vstd::prelude::*;

use crate::args::{
    first_invalid, invalid_attribute, lemma_first_invalid_prefix, merged_args, Args, AttrStyle,
    Attribute,
};
use crate::error::Error;
use crate::text::texts;
use crate::ty::{last_segment, str_eq, GenericArgument, PathArguments, Type, TypeKind};

verus! {

/// The texts of the attributes among `attrs` that are not called `name`
/// and stand outside their item, in their order.
pub open spec fn outer_attrs<T>(attrs: Seq<Attribute<T>>, name: Seq<char>) -> Seq<Seq<char>>
    decreases attrs.len(),
{
    if attrs.len() == 0 {
        Seq::empty()
    } else {
        let rest = outer_attrs(attrs.drop_last(), name);
        let last = attrs.last();
        if !last.path.is_ident_spec(name) && last.style == AttrStyle::Outer {
            rest.push(last.text@)
        } else {
            rest
        }
    }
}

/// What `args` gives for the attributes `attrs` of an item.
pub open spec fn args_spec<T: Args>(attrs: Seq<Attribute<T>>, name: &'static str) -> Result<
    (T::V, Seq<Seq<char>>),
    Error,
> {
    match first_invalid(attrs, name@) {
        Some(i) => Err(invalid_attribute(attrs, name, i)),
        None => Ok((merged_args(attrs, name@), outer_attrs(attrs, name@))),
    }
}

/// Splits the attributes of an item: the arguments of those called `name`,
/// taken in one after the other, and the texts of the others that stand
/// outside the item.
///
/// Fails at the first attribute called `name` whose arguments are faulty,
/// with the position of that attribute and the message of the fault.
pub fn args<T: Args>(attrs: Vec<Attribute<T>>, name: &'static str) -> (r: Result<
    (T, Vec<String>),
    Error,
>)
    ensures
        match r {
            Ok((args, kept)) => args_spec(attrs@, name) == Ok::<(T::V, Seq<Seq<char>>), Error>(
                (args@, texts(kept@)),
            ),
            Err(e) => args_spec(attrs@, name) == Err::<(T::V, Seq<Seq<char>>), Error>(e),
        },
{
    let ghost all = attrs@;
    let count = attrs.len();
    let mut args = T::empty();
    let mut kept: Vec<String> = Vec::new();
    let mut index: usize = 0;
    for attr in it: attrs
        invariant
            it.seq() == all,
            index == it.index(),
            all.len() == count,
            first_invalid(all.take(index as int), name@) is None,
            args@ == merged_args(all.take(index as int), name@),
            texts(kept@) == outer_attrs(all.take(index as int), name@),
    {
        assert(index < all.len());
        assert(attr == all[index as int]);
        proof {
            assert(all.take(index + 1).drop_last() =~= all.take(index as int));
            assert(all.take(index + 1).last() == all[index as int]);
        }
        let Attribute { style, path, text, args: parsed } = attr;
        if path.is_ident(name) {
            match parsed {
                Ok(new) => {
                    args = args.merged(new);
                },
                Err(message) => {
                    proof {
                        lemma_first_invalid_prefix(all, name@, index as int);
                    }
                    return Err(Error::InvalidAttribute { name, index, message });
                },
            }
        } else {
            match style {
                AttrStyle::Outer => {
                    proof {
                        assert(texts(kept@.push(text)) =~= texts(kept@).push(text@));
                    }
                    kept.push(text);
                },
                AttrStyle::Inner => {},
            }
        }
        index += 1;
    }
    proof {
        assert(all.take(index as int) =~= all);
    }
    Ok((args, kept))
}

/// The one argument of a plain path type called `name`, where it has
/// exactly one argument in angle brackets and that argument is a type.
pub open spec fn sole_arg_spec(ty: &Type, name: Seq<char>) -> Option<&Type> {
    match last_segment(ty) {
        Some(seg) => if seg.ident@ == name {
            match seg.arguments {
                PathArguments::AngleBracketed { args } => if args@.len() == 1 {
                    match &args@[0] {
                        GenericArgument::Type(t) => Some(t),
                        GenericArgument::Other => None,
                    }
                } else {
                    None
                },
                _ => None,
            }
        } else {
            None
        },
        None => None,
    }
}

/// The element type of a `Vec` with exactly one argument, or of an array.
pub open spec fn slice_inner_ty_spec(ty: &Type) -> Option<&Type> {
    match &ty.kind {
        TypeKind::Array { elem } => Some(&**elem),
        _ => sole_arg_spec(ty, "Vec"@),
    }
}

/// Whether `ty` is a plain path type whose last segment is called `name`.
pub open spec fn is_ty_spec(ty: &Type, name: Seq<char>) -> bool {
    match last_segment(ty) {
        Some(s) => s.ident@ == name,
        None => false,
    }
}

/// Whether `ty` is a reference to a type that `is_ty` accepts under `name`.
pub open spec fn is_ref_ty_spec(ty: &Type, name: Seq<char>) -> bool {
    match ty.kind {
        TypeKind::Reference { elem } => is_ty_spec(&*elem, name),
        _ => false,
    }
}

/// The one argument of a plain path type called `name`.
fn sole_arg<'a>(ty: &'a Type, name: &str) -> (r: Option<&'a Type>)
    ensures
        r == sole_arg_spec(ty, name@),
{
    match &ty.kind {
        TypeKind::Path { qself, last } => {
            if *qself {
                return None;
            }
            match last {
                Some(seg) => {
                    if !str_eq(seg.ident.as_str(), name) {
                        return None;
                    }
                    match &seg.arguments {
                        PathArguments::AngleBracketed { args } => {
                            if args.len() == 1 {
                                match &args[0] {
                                    GenericArgument::Type(t) => Some(t),
                                    GenericArgument::Other => None,
                                }
                            } else {
                                None
                            }
                        },
                        _ => None,
                    }
                },
                None => None,
            }
        },
        _ => None,
    }
}

/// The type inside `Option<..>`: its one argument, where `ty` is a plain
/// path type called `Option` with exactly one argument, a type.
pub fn option_inner_ty(ty: &Type) -> (r: Option<&Type>)
    ensures
        r == sole_arg_spec(ty, "Option"@),
{
    sole_arg(ty, "Option")
}

/// The element type of a `Vec` with exactly one argument, or of an array.
pub fn slice_inner_ty(ty: &Type) -> (r: Option<&Type>)
    ensures
        r == slice_inner_ty_spec(ty),
{
    match &ty.kind {
        TypeKind::Array { elem } => Some(&**elem),
        _ => sole_arg(ty, "Vec"),
    }
}

/// Whether `ty` is `String`.
pub fn is_string_ty(ty: &Type) -> (r: bool)
    ensures
        r == is_ty_spec(ty, "String"@),
{
    is_ty(ty, "String")
}

/// Whether `ty` is `&str`.
pub fn is_str_ty(ty: &Type) -> (r: bool)
    ensures
        r == is_ref_ty_spec(ty, "str"@),
{
    is_ref_ty(ty, "str")
}

/// Whether `ty` is `CString`.
pub fn is_cstring_ty(ty: &Type) -> (r: bool)
    ensures
        r == is_ty_spec(ty, "CString"@),
{
    is_ty(ty, "CString")
}

/// Whether `ty` is `&CStr`.
pub fn is_cstr_ty(ty: &Type) -> (r: bool)
    ensures
        r == is_ref_ty_spec(ty, "CStr"@),
{
    is_ref_ty(ty, "CStr")
}

/// Whether `ty` is a plain path type whose last segment is called `name`.
pub fn is_ty(ty: &Type, name: &str) -> (r: bool)
    ensures
        r == is_ty_spec(ty, name@),
{
    match &ty.kind {
        TypeKind::Path { qself, last } => {
            if *qself {
                false
            } else {
                match last {
                    Some(s) => str_eq(s.ident.as_str(), name),
                    None => false,
                }
            }
        },
        _ => false,
    }
}

/// Whether `ty` is a reference to a type that `is_ty` accepts under `name`.
pub fn is_ref_ty(ty: &Type, name: &str) -> (r: bool)
    ensures
        r == is_ref_ty_spec(ty, name@),
{
    match &ty.kind {
        TypeKind::Reference { elem } => is_ty(elem, name),
        _ => false,
    }
}

} // verus!
