//! The accessors of a whole structure.

use vstd::prelude::*;

use crate::args::{self, extract_spec};
use crate::error::{Error, Fault};
use crate::field::Field as BaseField;
use crate::input::{Data, DeriveInput, Fields};
use crate::item::{item_views, ItemFn, ItemFnView, ItemImpl};

use super::args::StructArgsView;
use super::context::ContextView;
use super::{Context, FieldArgs, StructArgs};

verus! {

/// The field `field` as the field at position `idx`.
pub open spec fn at_position(field: BaseField<FieldArgs>, idx: int) -> BaseField<FieldArgs> {
    BaseField { idx: idx as usize, ..field }
}

/// The methods of one field at position `idx`, or the fault in it.
pub open spec fn field_spec(
    struct_args: StructArgsView,
    struct_args_span: bool,
    field: BaseField<FieldArgs>,
    idx: int,
) -> Result<Seq<ItemFnView>, Fault> {
    match extract_spec::<FieldArgs>(field.attrs@, "get", struct_args.attrs) {
        Err(e) => Err(Fault { field: Some(idx as usize), error: e }),
        Ok(_) => match ContextView::of(
            struct_args,
            struct_args_span,
            at_position(field, idx),
        ).to_tokens_spec() {
            Ok(items) => Ok(items),
            Err(e) => Err(Fault { field: Some(idx as usize), error: e }),
        },
    }
}

/// The methods of the fields `fields`, field after field, or the first
/// fault among them.
pub open spec fn fields_spec(
    struct_args: StructArgsView,
    struct_args_span: bool,
    fields: Seq<BaseField<FieldArgs>>,
) -> Result<Seq<ItemFnView>, Fault>
    decreases fields.len(),
{
    if fields.len() == 0 {
        Ok(Seq::empty())
    } else {
        match fields_spec(struct_args, struct_args_span, fields.drop_last()) {
            Err(f) => Err(f),
            Ok(before) => match field_spec(
                struct_args,
                struct_args_span,
                fields.last(),
                fields.len() - 1,
            ) {
                Err(f) => Err(f),
                Ok(items) => Ok(before + items),
            },
        }
    }
}

/// What `expand` gives: the fault in the attributes of the item, else the
/// fault of an item that is no structure, else nothing for a structure
/// without fields, else the methods of its fields or the first fault among
/// them.
pub open spec fn expand_spec(input: DeriveInput<StructArgs, FieldArgs>) -> Result<
    Option<Seq<ItemFnView>>,
    Fault,
> {
    match extract_spec::<StructArgs>(input.attrs@, "get", None) {
        Err(e) => Err(Fault { field: None, error: e }),
        Ok((struct_args, struct_args_span, _)) => if !input.data.is_struct() {
            Err(Fault { field: None, error: Error::GetterNotStruct })
        } else {
            match input.data.fields_spec() {
                None => Ok(None),
                Some(fields) => match fields_spec(struct_args, struct_args_span, fields) {
                    Ok(items) => Ok(Some(items)),
                    Err(f) => Err(f),
                },
            }
        },
    }
}

/// The methods of the fields `fields` of a structure.
fn expand_fields(
    struct_args: &StructArgs,
    struct_args_span: bool,
    fields: Vec<BaseField<FieldArgs>>,
) -> (r: Result<Vec<ItemFn>, Fault>)
    ensures
        match r {
            Ok(items) => fields_spec(struct_args@, struct_args_span, fields@) == Ok::<
                Seq<ItemFnView>,
                Fault,
            >(item_views(items@)),
            Err(f) => fields_spec(struct_args@, struct_args_span, fields@) == Err::<
                Seq<ItemFnView>,
                Fault,
            >(f),
        },
{
    let ghost all = fields@;
    let count = fields.len();
    let mut items: Vec<ItemFn> = Vec::new();
    let mut field_idx: usize = 0;
    proof {
        assert(item_views(items@) =~= Seq::<ItemFnView>::empty());
    }
    for field in it: fields
        invariant
            it.seq() == all,
            field_idx == it.index(),
            all.len() == count,
            fields_spec(struct_args@, struct_args_span, all.take(field_idx as int)) == Ok::<
                Seq<ItemFnView>,
                Fault,
            >(item_views(items@)),
    {
        assert(field_idx < all.len());
        assert(field == all[field_idx as int]);
        proof {
            assert(all.take(field_idx + 1).drop_last() =~= all.take(field_idx as int));
            assert(all.take(field_idx + 1).last() == all[field_idx as int]);
        }
        let BaseField { attrs, vis, ident, ty, idx } = field;
        let placed = BaseField { attrs, vis, ident, ty, idx: field_idx };
        assert(placed == at_position(field, field_idx as int));
        let ctx = match Context::new(struct_args, struct_args_span, placed) {
            Ok(ctx) => ctx,
            Err(error) => {
                proof {
                    lemma_fields_prefix_fault(
                        struct_args@,
                        struct_args_span,
                        all,
                        field_idx as int,
                    );
                }
                return Err(Fault { field: Some(field_idx), error });
            },
        };
        match ctx.to_tokens(&mut items) {
            Ok(_) => {},
            Err(error) => {
                proof {
                    lemma_fields_prefix_fault(
                        struct_args@,
                        struct_args_span,
                        all,
                        field_idx as int,
                    );
                }
                return Err(Fault { field: Some(field_idx), error });
            },
        }
        field_idx += 1;
    }
    proof {
        assert(all.take(field_idx as int) =~= all);
    }
    Ok(items)
}

/// A fault in the field at `i`, where the fields before it have none, is
/// the fault of the whole list.
proof fn lemma_fields_prefix_fault(
    struct_args: StructArgsView,
    struct_args_span: bool,
    fields: Seq<BaseField<FieldArgs>>,
    i: int,
)
    requires
        0 <= i < fields.len(),
        fields_spec(struct_args, struct_args_span, fields.take(i)) is Ok,
        field_spec(struct_args, struct_args_span, fields[i], i) is Err,
    ensures
        fields_spec(struct_args, struct_args_span, fields) == Err::<Seq<ItemFnView>, Fault>(
            field_spec(struct_args, struct_args_span, fields[i], i)->Err_0,
        ),
    decreases fields.len(),
{
    if fields.len() == i + 1 {
        assert(fields.drop_last() =~= fields.take(i));
    } else {
        assert(fields.drop_last().take(i) =~= fields.take(i));
        lemma_fields_prefix_fault(struct_args, struct_args_span, fields.drop_last(), i);
    }
}

/// The `impl` block with the accessors of a structure: for each field that
/// does not ask to be skipped its accessor and, where it asks for one, its
/// mutable accessor. A structure without fields gets no block.
///
/// Fails on the first fault: in the `get` attributes of the item, on an
/// item that is no structure, or in a field. The position that a field had
/// in `input` is not read: it is counted here.
pub fn expand(input: DeriveInput<StructArgs, FieldArgs>) -> (r: Result<Option<ItemImpl>, Fault>)
    ensures
        match r {
            Ok(Some(block)) => {
                &&& expand_spec(input) == Ok::<Option<Seq<ItemFnView>>, Fault>(
                    Some(item_views(block.items@)),
                )
                &&& block.impl_generics == input.generics.impl_generics
                &&& block.ident == input.ident
                &&& block.ty_generics == input.generics.ty_generics
                &&& block.where_clause == input.generics.where_clause
            },
            Ok(None) => expand_spec(input) == Ok::<Option<Seq<ItemFnView>>, Fault>(None),
            Err(f) => expand_spec(input) == Err::<Option<Seq<ItemFnView>>, Fault>(f),
        },
{
    let DeriveInput { attrs, ident, generics, data } = input;
    let (struct_args, struct_args_span) = match args::extract::<StructArgs>(attrs, "get", None) {
        Ok((struct_args, struct_args_span, _)) => (struct_args, struct_args_span),
        Err(error) => {
            return Err(Fault { field: None, error });
        },
    };
    match data {
        Data::Struct(fields) => {
            let fields = match fields {
                Fields::Named(named) => named,
                Fields::Unnamed(unnamed) => unnamed,
                Fields::Unit => {
                    return Ok(None);
                },
            };
            let items = expand_fields(&struct_args, struct_args_span, fields)?;
            Ok(
                Some(
                    ItemImpl {
                        impl_generics: generics.impl_generics,
                        ident,
                        ty_generics: generics.ty_generics,
                        where_clause: generics.where_clause,
                        items,
                    },
                ),
            )
        },
        _ => Err(Fault { field: None, error: Error::GetterNotStruct }),
    }
}

} // verus!
