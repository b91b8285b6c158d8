//! The mutators of a collection: one takes many items, one takes a single item.

use vstd::prelude::*;

use crate::error::Error;
use crate::item::{ItemFn, ItemFnView};
use crate::text::clone_strings;
use crate::ty::{generic_args_ty, generic_args_ty_spec, names_view, Type, TypeExt};

use super::args::{extend_spec, Extend};
use super::context::ContextView;
use super::Context;

verus! {

/// The two mutators of a collection.
#[derive(Debug)]
pub struct Setter {
    /// Takes whatever can be iterated over and adds each item.
    pub extend: ItemFn,
    /// Takes one item and adds it.
    pub append: ItemFn,
}

/// The two mutators of a collection, with their texts as sequences of characters.
pub struct SetterView {
    pub extend: ItemFnView,
    pub append: ItemFnView,
}

impl View for Setter {
    type V = SetterView;

    open spec fn view(&self) -> SetterView {
        SetterView { extend: self.extend@, append: self.append@ }
    }
}

/// The collections of the standard library that hold single items.
pub open spec fn well_known_seq() -> Seq<Seq<char>> {
    seq!["BinaryHeap"@, "BTreeSet"@, "HashSet"@, "LinkedList"@, "Vec"@, "VecDeque"@]
}

/// The collections of the standard library that hold pairs of key and value.
pub open spec fn well_known_map() -> Seq<Seq<char>> {
    seq!["HashMap"@, "BTreeMap"@]
}

/// The type of the items of a well-known collection: `char` for a
/// `String` or a reference to one; the first type argument of a collection
/// of single items; the pair of the first two type arguments of a map.
/// Every other type is a fault, and so is a collection of single items
/// without a type argument even where its name would also be that of a map.
pub open spec fn extend_item_ty_spec(ty: &Type) -> Result<Seq<char>, Error> {
    if ty.is_ty_spec("String"@) || ty.is_ref_ty_spec("String"@) {
        Ok("char"@)
    } else {
        match generic_args_ty_spec(ty, well_known_seq()) {
            Some(args) => if args.len() > 0 {
                Ok(args[0].text@)
            } else {
                Err(Error::SetExtendUnknown)
            },
            None => match generic_args_ty_spec(ty, well_known_map()) {
                Some(args) => if args.len() >= 2 {
                    Ok("("@ + args[0].text@ + ", "@ + args[1].text@ + ")"@)
                } else {
                    Err(Error::SetExtendUnknown)
                },
                None => Err(Error::SetExtendUnknown),
            },
        }
    }
}

/// What the two mutators are built from.
pub struct Parts {
    /// The type of one item.
    pub item_ty: Seq<char>,
    /// A further generic parameter of the mutator that takes many items.
    pub extend_param: Option<Seq<char>>,
    /// The generic parameters of the mutator that takes one item.
    pub append_generics: Seq<char>,
}

/// What the two mutators are built from: a type named in `extend(..)` is
/// the type of the items; a generic parameter named there stands for it
/// and is a parameter of both methods; where nothing is named, the type
/// of the items is that of the well-known collection.
pub open spec fn parts_spec(ctx: ContextView) -> Result<Parts, Error> {
    match extend_spec(&ctx.field.args.extend) {
        Some(Extend::Type(ty)) => Ok(
            Parts { item_ty: ty.text@, extend_param: None, append_generics: ""@ },
        ),
        Some(Extend::Bound(param)) => Ok(
            Parts {
                item_ty: param.ident@,
                extend_param: Some(param.text@),
                append_generics: "<"@ + param.text@ + ">"@,
            },
        ),
        None => match extend_item_ty_spec(&ctx.field.ty) {
            Ok(item_ty) => Ok(Parts { item_ty, extend_param: None, append_generics: ""@ }),
            Err(e) => Err(e),
        },
    }
}

/// The generic parameters of the mutator that takes many items.
pub open spec fn extend_generics_spec(parts: Parts) -> Seq<char> {
    "<ITER: ::std::iter::IntoIterator<Item = "@ + parts.item_ty + ">"@ + (match parts.extend_param {
        Some(p) => ", "@ + p,
        None => ""@,
    }) + ">"@
}

/// The mutator `extend_..` that adds each item of its argument to the field.
pub open spec fn extend_setter_spec(ctx: ContextView, parts: Parts) -> ItemFnView {
    ItemFnView {
        attrs: ctx.field.attrs,
        vis: ctx.vis_spec(),
        constness: false,
        ident: "extend_"@ + ctx.field.basename_spec() + ctx.suffix_spec(),
        generics: extend_generics_spec(parts),
        inputs: "&mut self, "@ + ctx.field.basename_spec() + ": ITER"@,
        output: "&mut Self"@,
        where_clause: None,
        block: ctx.field.name_spec() + ".extend("@ + ctx.field.basename_spec() + "); self"@,
    }
}

/// The mutator `append_..` that adds its argument to the field.
pub open spec fn append_setter_spec(ctx: ContextView, parts: Parts) -> ItemFnView {
    ItemFnView {
        attrs: ctx.field.attrs,
        vis: ctx.vis_spec(),
        constness: false,
        ident: "append_"@ + ctx.field.basename_spec() + ctx.suffix_spec(),
        generics: parts.append_generics,
        inputs: "&mut self, "@ + ctx.field.basename_spec() + ": "@ + parts.item_ty,
        output: "&mut Self"@,
        where_clause: None,
        block: ctx.field.name_spec() + ".extend(["@ + ctx.field.basename_spec() + "]); self"@,
    }
}

/// The two mutators of a collection, or the fault of a field whose items
/// have no known type.
pub open spec fn setter_spec(ctx: ContextView) -> Result<SetterView, Error> {
    match parts_spec(ctx) {
        Ok(parts) => Ok(
            SetterView {
                extend: extend_setter_spec(ctx, parts),
                append: append_setter_spec(ctx, parts),
            },
        ),
        Err(e) => Err(e),
    }
}

/// The two mutators of a collection: `extend_..` takes whatever can be
/// iterated over, `append_..` takes one item. Their names bear the suffix
/// but no prefix.
pub fn setter(ctx: &Context) -> (r: Result<Setter, Error>)
    ensures
        match r {
            Ok(s) => setter_spec(ctx@) == Ok::<SetterView, Error>(s@),
            Err(e) => setter_spec(ctx@) == Err::<SetterView, Error>(e),
        },
{
    let basename = ctx.field.basename();
    let suffix = ctx.suffix();
    let mut extend_setter = String::from_str("extend_");
    extend_setter.append(basename.as_str());
    extend_setter.append(suffix.as_str());
    let mut append_setter = String::from_str("append_");
    append_setter.append(basename.as_str());
    append_setter.append(suffix.as_str());

    let (item_ty, extend_generic_param, append_generic): (String, Option<String>, String) =
        match ctx.field.args.extend() {
        Some(Extend::Type(ty)) => (ty.text.clone(), None, String::from_str("")),
        Some(Extend::Bound(param)) => {
            let mut generics = String::from_str("<");
            generics.append(param.text.as_str());
            generics.append(">");
            (param.ident.clone(), Some(param.text.clone()), generics)
        },
        None => (ctx.extend_item_ty()?, None, String::from_str("")),
    };
    let ghost parts = parts_spec(ctx@)->Ok_0;
    assert(parts_spec(ctx@) is Ok);
    assert(parts.item_ty == item_ty@);
    assert(parts.append_generics == append_generic@);

    let mut extend_generic = String::from_str("<ITER: ::std::iter::IntoIterator<Item = ");
    extend_generic.append(item_ty.as_str());
    extend_generic.append(">");
    match &extend_generic_param {
        Some(p) => {
            extend_generic.append(", ");
            extend_generic.append(p.as_str());
        },
        None => {
            extend_generic.append("");
        },
    }
    extend_generic.append(">");
    assert(extend_generic@ =~= extend_generics_spec(parts));

    let field_name = ctx.field.name();
    let mut extend_inputs = String::from_str("&mut self, ");
    extend_inputs.append(basename.as_str());
    extend_inputs.append(": ITER");
    let mut extend_block = field_name.clone();
    extend_block.append(".extend(");
    extend_block.append(basename.as_str());
    extend_block.append("); self");
    let mut append_inputs = String::from_str("&mut self, ");
    append_inputs.append(basename.as_str());
    append_inputs.append(": ");
    append_inputs.append(item_ty.as_str());
    let mut append_block = field_name;
    append_block.append(".extend([");
    append_block.append(basename.as_str());
    append_block.append("]); self");

    Ok(
        Setter {
            extend: ItemFn {
                attrs: clone_strings(&ctx.field.attrs),
                vis: ctx.vis(),
                constness: false,
                ident: extend_setter,
                generics: extend_generic,
                inputs: extend_inputs,
                output: String::from_str("&mut Self"),
                where_clause: None,
                block: extend_block,
            },
            append: ItemFn {
                attrs: clone_strings(&ctx.field.attrs),
                vis: ctx.vis(),
                constness: false,
                ident: append_setter,
                generics: append_generic,
                inputs: append_inputs,
                output: String::from_str("&mut Self"),
                where_clause: None,
                block: append_block,
            },
        },
    )
}

impl Setter {
    /// Appends the two mutators to `tokens`: first the one that takes many
    /// items, then the one that takes a single item.
    pub fn to_tokens(self, tokens: &mut Vec<ItemFn>)
        ensures
            final(tokens)@ == old(tokens)@.push(self.extend).push(self.append),
    {
        tokens.push(self.extend);
        tokens.push(self.append);
    }
}

impl ContextView {
    /// Whether the field asks for `extend`.
    pub open spec fn is_extend_spec(&self) -> bool {
        self.field.args.extend is Some
    }
}

impl Context<'_> {
    /// Whether the field asks for `extend`.
    pub fn is_extend(&self) -> (r: bool)
        ensures
            r == self@.is_extend_spec(),
    {
        self.field.args.extend.is_some()
    }

    /// The type of the items of the well-known collection that the field is.
    pub fn extend_item_ty(&self) -> (r: Result<String, Error>)
        ensures
            match r {
                Ok(t) => extend_item_ty_spec(&self.field.ty) == Ok::<Seq<char>, Error>(t@),
                Err(e) => extend_item_ty_spec(&self.field.ty) == Err::<Seq<char>, Error>(e),
            },
    {
        let ty = &self.field.ty;
        if ty.is_string() || ty.is_ref_string() {
            return Ok(String::from_str("char"));
        }
        let seq_names = vec!["BinaryHeap", "BTreeSet", "HashSet", "LinkedList", "Vec", "VecDeque"];
        let map_names = vec!["HashMap", "BTreeMap"];
        proof {
            assert(names_view(seq_names@) =~= well_known_seq());
            assert(names_view(map_names@) =~= well_known_map());
        }
        if let Some(args) = generic_args_ty(ty, seq_names.as_slice()) {
            if args.len() > 0 {
                return Ok(args[0].text.clone());
            }
        } else if let Some(args) = generic_args_ty(ty, map_names.as_slice()) {
            if args.len() >= 2 {
                let mut pair = String::from_str("(");
                pair.append(args[0].text.as_str());
                pair.append(", ");
                pair.append(args[1].text.as_str());
                pair.append(")");
                return Ok(pair);
            }
        }
        Err(Error::SetExtendUnknown)
    }
}

} // verus!
