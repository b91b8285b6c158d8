#![allow(dead_code)]

use getset2::args::{Args, AttrPath, AttrStyle, Attribute, Flag, NameArgs, NameValue};
use getset2::error::{Error, Fault, Span};
use getset2::field::Field;
use getset2::input::{Data, DeriveInput, Fields, Generics};
use getset2::setter::args::{ExtendForm, TypeParam};
use getset2::setter::{expand, extend, Context, Extend, FieldArgs, StructArgs};
use getset2::ty::{GenericArgument, PathArguments, PathSegment, Type, TypeKind};
use getset2::vis::Visibility;

fn path_ty(name: &str) -> Type {
    Type {
        text: name.to_string(),
        kind: TypeKind::Path {
            qself: false,
            last: Some(PathSegment { ident: name.to_string(), arguments: PathArguments::Empty }),
        },
    }
}

fn generic_ty(name: &str, args: Vec<Type>) -> Type {
    let texts: Vec<String> = args.iter().map(|a| a.text.clone()).collect();
    Type {
        text: format!("{}<{}>", name, texts.join(", ")),
        kind: TypeKind::Path {
            qself: false,
            last: Some(PathSegment {
                ident: name.to_string(),
                arguments: PathArguments::AngleBracketed {
                    args: args.into_iter().map(GenericArgument::Type).collect(),
                },
            }),
        },
    }
}

fn ref_ty(elem: Type) -> Type {
    Type { text: format!("& {}", elem.text), kind: TypeKind::Reference { elem: Box::new(elem) } }
}

fn on() -> Option<NameArgs<Option<bool>>> {
    Some(NameArgs { args: None })
}

fn off() -> Option<NameArgs<Option<bool>>> {
    Some(NameArgs { args: Some(false) })
}

fn value(v: &str) -> Option<NameValue<String>> {
    Some(NameValue { value: v.to_string() })
}

fn set<T>(args: T) -> Attribute<T> {
    Attribute {
        style: AttrStyle::Outer,
        path: AttrPath { leading_colon: false, first: "set".to_string(), rest: vec![] },
        text: "#[set(..)]".to_string(),
        args: Ok(args),
    }
}

fn field(name: &str, ty: Type, args: FieldArgs) -> Field<FieldArgs> {
    Field::new(vec![set(args)], Visibility::Inherited, Some(name.to_string()), ty, 0)
}

fn structure(attrs: Vec<Attribute<StructArgs>>, fields: Fields<FieldArgs>) -> DeriveInput<StructArgs, FieldArgs> {
    DeriveInput {
        attrs,
        ident: "Foo".to_string(),
        generics: Generics {
            impl_generics: String::new(),
            ty_generics: String::new(),
            where_clause: None,
        },
        data: Data::Struct(fields),
    }
}

fn methods_of(struct_args: StructArgs, field: Field<FieldArgs>) -> String {
    expand(structure(vec![set(struct_args)], Fields::Named(vec![field])))
        .unwrap()
        .unwrap()
        .items
        .iter()
        .map(|f| f.to_text())
        .collect()
}

fn error_of(field: Field<FieldArgs>) -> Error {
    let fault = expand(structure(vec![], Fields::Named(vec![field]))).unwrap_err();
    assert_eq!(fault.field, Some(0));
    fault.error
}

fn line(text: &str) -> String {
    format!("#[inline(always)]\n{}\n", text)
}

fn args() -> FieldArgs {
    FieldArgs::empty()
}

fn usize_ty() -> Type {
    path_ty("usize")
}

#[test]
fn the_plain_mutator() {
    assert_eq!(
        methods_of(StructArgs::empty(), field("a", usize_ty(), args())),
        line("fn set_a(&mut self, a: usize) -> &mut Self { self.a = a; self }")
    );
}

#[test]
fn skip_gives_no_mutator() {
    assert_eq!(
        methods_of(StructArgs::empty(), field("a", usize_ty(), FieldArgs { skip: true, into: on(), ..args() })),
        ""
    );
}

#[test]
fn prefix_replaces_set() {
    let named = FieldArgs { prefix: value("with"), suffix: value("now"), ..args() };
    assert_eq!(
        methods_of(StructArgs::empty(), field("a", usize_ty(), named)),
        line("fn with_a_now(&mut self, a: usize) -> &mut Self { self.a = a; self }")
    );
    let of_struct = StructArgs { prefix: value("put"), ..StructArgs::empty() };
    assert_eq!(
        methods_of(of_struct, field("a", usize_ty(), args())),
        line("fn put_a(&mut self, a: usize) -> &mut Self { self.a = a; self }")
    );
}

#[test]
fn rename_names_the_method_and_its_argument() {
    let renamed = FieldArgs { rename: Some(NameArgs { args: "b".to_string() }), ..args() };
    assert_eq!(
        methods_of(StructArgs::empty(), field("a", usize_ty(), renamed)),
        line("fn set_b(&mut self, b: usize) -> &mut Self { self.a = b; self }")
    );
}

#[test]
fn into_wins_over_the_forms_after_it() {
    let all = FieldArgs {
        into: on(),
        try_into: on(),
        opt: on(),
        extend: Some(NameArgs { args: None }),
        ..args()
    };
    assert_eq!(
        methods_of(StructArgs::empty(), field("a", usize_ty(), all)),
        line(
            "fn set_a<ARG>(&mut self, a: ARG) -> &mut Self where ARG : ::std::convert::Into<usize> \
             { self.a = ::std::convert::Into::into(a); self }"
        )
    );
}

#[test]
fn a_refusal_on_the_field_overrides_into_of_the_structure() {
    let of_struct = || StructArgs {
        into: Flag { set: true },
        try_into: Flag { set: true },
        ..StructArgs::empty()
    };
    let text = methods_of(of_struct(), field("a", usize_ty(), FieldArgs { into: off(), ..args() }));
    assert!(text.contains("::std::convert::TryInto::<usize>::try_into(a)?"), "{}", text);
    let text = methods_of(
        of_struct(),
        field("a", usize_ty(), FieldArgs { into: off(), try_into: off(), ..args() }),
    );
    assert_eq!(text, line("fn set_a(&mut self, a: usize) -> &mut Self { self.a = a; self }"));
}

#[test]
fn opt_of_the_structure_passes_over_other_fields() {
    let of_struct = || StructArgs { opt: Flag { set: true }, ..StructArgs::empty() };
    assert_eq!(
        methods_of(of_struct(), field("a", usize_ty(), args())),
        line("fn set_a(&mut self, a: usize) -> &mut Self { self.a = a; self }")
    );
    assert_eq!(
        methods_of(of_struct(), field("a", generic_ty("Option", vec![usize_ty()]), args())),
        line(
            "fn set_a(&mut self, a: usize) -> &mut Self \
             { self.a = ::std::option::Option::Some(a); self }"
        )
    );
}

#[test]
fn set_opt_on_a_field_that_is_no_option() {
    let error = error_of(field("a", usize_ty(), FieldArgs { opt: on(), ..args() }));
    assert_eq!(error, Error::SetOptNotOption);
    assert_eq!(error.message(), "#[set(opt)] should be applied to an `Option<T>` type");
    assert_eq!(error.span(), Span::FieldType);
}

#[test]
fn opt_is_not_asked_where_into_applies() {
    let text = methods_of(
        StructArgs::empty(),
        field("a", usize_ty(), FieldArgs { into: on(), opt: on(), ..args() }),
    );
    assert!(text.contains("::std::convert::Into::into(a)"), "{}", text);
}

#[test]
fn the_inner_type_of_what_is_no_option() {
    let struct_args = StructArgs::empty();
    let ctx = Context::new(&struct_args, false, field("a", usize_ty(), args())).unwrap();
    let error = ctx.option_inner_ty().unwrap_err();
    assert_eq!(error, Error::NotOption);
    assert_eq!(error.message(), "field should be an `Option<T>` type");
}

fn item_ty_of(ty: Type) -> Result<String, Error> {
    let struct_args = StructArgs::empty();
    Context::new(&struct_args, false, field("a", ty, args())).unwrap().extend_item_ty()
}

#[test]
fn items_of_the_well_known_collections() {
    assert_eq!(item_ty_of(path_ty("String")).unwrap(), "char");
    assert_eq!(item_ty_of(ref_ty(path_ty("String"))).unwrap(), "char");
    for name in ["BinaryHeap", "BTreeSet", "HashSet", "LinkedList", "Vec", "VecDeque"] {
        assert_eq!(item_ty_of(generic_ty(name, vec![path_ty("u8")])).unwrap(), "u8", "{}", name);
    }
    for name in ["HashMap", "BTreeMap"] {
        assert_eq!(
            item_ty_of(generic_ty(name, vec![path_ty("K"), path_ty("V")])).unwrap(),
            "(K, V)",
            "{}",
            name
        );
    }
    assert_eq!(
        item_ty_of(generic_ty("HashMap", vec![path_ty("K"), path_ty("V"), path_ty("S")])).unwrap(),
        "(K, V)"
    );
}

#[test]
fn items_of_other_types_are_unknown() {
    for ty in [
        path_ty("PathBuf"),
        path_ty("Vec"),
        generic_ty("Vec", vec![]),
        generic_ty("HashMap", vec![path_ty("K")]),
        generic_ty("Option", vec![path_ty("u8")]),
        ref_ty(generic_ty("Vec", vec![path_ty("u8")])),
    ] {
        assert_eq!(item_ty_of(ty), Err(Error::SetExtendUnknown));
    }
    let error = error_of(field("a", path_ty("PathBuf"), FieldArgs { extend: Some(NameArgs { args: None }), ..args() }));
    assert_eq!(error, Error::SetExtendUnknown);
    assert_eq!(
        error.message(),
        "#[set(extend)] supports only some of the well-known types,\n\
         #[set(extend(Item))] should be used for a type which implements the `Extend<Item>` trait"
    );
}

#[test]
fn extend_bears_the_suffix_but_no_prefix() {
    let struct_args = StructArgs::empty();
    let named = FieldArgs {
        prefix: value("with"),
        suffix: value("now"),
        extend: Some(NameArgs { args: Some(Extend::Type(path_ty("u8"))) }),
        ..args()
    };
    let ctx = Context::new(&struct_args, false, field("a", path_ty("Bag"), named)).unwrap();
    let setter = extend::setter(&ctx).unwrap();
    assert_eq!(setter.extend.ident, "extend_a_now");
    assert_eq!(setter.append.ident, "append_a_now");
    assert_eq!(ctx.method_name(), "with_a_now");
    assert_eq!(ctx.prefix(), "with_");
    assert_eq!(ctx.prefix_arg(), Some("with_".to_string()));
    assert_eq!(ctx.with_prefix("extend"), "with__extend");
    assert_eq!(ctx.suffix(), "_now");
    let mut tokens = Vec::new();
    setter.to_tokens(&mut tokens);
    assert_eq!(tokens.len(), 2);
    assert_eq!(tokens[0].ident, "extend_a_now");
    assert_eq!(tokens[1].ident, "append_a_now");
}

#[test]
fn prefixes_without_an_argument() {
    let struct_args = StructArgs::empty();
    let ctx = Context::new(&struct_args, false, field("a", usize_ty(), args())).unwrap();
    assert_eq!(ctx.prefix(), "set_");
    assert_eq!(ctx.prefix_arg(), None);
    assert_eq!(ctx.with_prefix("extend"), "extend_");
    assert_eq!(ctx.suffix(), "");
    assert_eq!(ctx.field.arg_name(), "a");
    assert_eq!(ctx.attr_span(), Span::FieldArgs);
}

#[test]
fn the_form_of_what_extend_names() {
    assert_eq!(Extend::form(true, true), ExtendForm::Bound);
    assert_eq!(Extend::form(true, false), ExtendForm::Type);
    assert_eq!(Extend::form(false, true), ExtendForm::Type);
    assert_eq!(Extend::form(false, false), ExtendForm::Type);
    let param = TypeParam { ident: "P".to_string(), text: "P: AsRef<Path>".to_string() };
    let named = FieldArgs { extend: Some(NameArgs { args: Some(Extend::Bound(param)) }), ..args() };
    assert!(matches!(named.extend(), Some(Extend::Bound(_))));
    assert!(args().extend().is_none());
    assert!(FieldArgs { extend: Some(NameArgs { args: None }), ..args() }.extend().is_none());
}

#[test]
fn only_a_structure_gets_mutators() {
    let mut input = structure(vec![], Fields::Unit);
    input.data = Data::Union;
    let fault = expand(input).unwrap_err();
    assert_eq!(fault, Fault { field: None, error: Error::SetterNotStruct });
    assert_eq!(fault.error.message(), "#[derive(Setter)] can only be applied to structure");
    assert!(expand(structure(vec![], Fields::Unit)).unwrap().is_none());
}

#[test]
fn faulty_arguments_are_reported_with_their_field() {
    let mut attr = set(args());
    attr.args = Err("expected `,`".to_string());
    let bad = Field::new(vec![attr], Visibility::Inherited, None, usize_ty(), 0);
    let good = Field::new(vec![], Visibility::Inherited, None, usize_ty(), 0);
    let fault = expand(structure(vec![], Fields::Unnamed(vec![good, bad]))).unwrap_err();
    assert_eq!(fault.field, Some(1));
    assert_eq!(fault.error.message(), "invalid #[set(..)] attribute, expected `,`");
    assert_eq!(fault.error.span(), Span::Attribute { index: 0 });
}
