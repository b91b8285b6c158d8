#![allow(dead_code, unused_imports)]

use std::collections::HashMap;
use std::marker::PhantomData;
use std::path::{Path, PathBuf};

use getset2::args::{Args, AttrPath, AttrStyle, Attribute, ExprPath, Flag, NameArgs, NameValue};
use getset2::error::{Error, Fault, Span};
use getset2::field::Field;
use getset2::input::{Data, DeriveInput, Fields, Generics};
use getset2::item::ItemFn;
use getset2::setter::args::TypeParam;
use getset2::setter::{expand, Extend, FieldArgs, StructArgs};
use getset2::ty::{GenericArgument, PathArguments, PathSegment, Type, TypeKind};
use getset2::vis::{Restricted, Visibility};

fn path_ty(name: &str) -> Type {
    Type {
        text: name.to_string(),
        kind: TypeKind::Path {
            qself: false,
            last: Some(PathSegment { ident: name.to_string(), arguments: PathArguments::Empty }),
        },
    }
}

fn generic_ty(name: &str, args: Vec<Type>) -> Type {
    let texts: Vec<String> = args.iter().map(|a| a.text.clone()).collect();
    Type {
        text: format!("{}<{}>", name, texts.join(", ")),
        kind: TypeKind::Path {
            qself: false,
            last: Some(PathSegment {
                ident: name.to_string(),
                arguments: PathArguments::AngleBracketed {
                    args: args.into_iter().map(GenericArgument::Type).collect(),
                },
            }),
        },
    }
}

fn ref_ty(amp: &str, elem: Type) -> Type {
    Type { text: format!("{}{}", amp, elem.text), kind: TypeKind::Reference { elem: Box::new(elem) } }
}

fn on() -> Option<NameArgs<Option<bool>>> {
    Some(NameArgs { args: None })
}

fn public() -> Option<NameArgs<Option<Restricted>>> {
    Some(NameArgs { args: None })
}

fn restricted(r: Restricted) -> Option<NameArgs<Option<Restricted>>> {
    Some(NameArgs { args: Some(r) })
}

fn set<T>(args: T) -> Attribute<T> {
    Attribute {
        style: AttrStyle::Outer,
        path: AttrPath { leading_colon: false, first: "set".to_string(), rest: vec![] },
        text: "#[set(..)]".to_string(),
        args: Ok(args),
    }
}

fn plain<T>(segments: &[&str], text: &str) -> Attribute<T> {
    Attribute {
        style: AttrStyle::Outer,
        path: AttrPath {
            leading_colon: false,
            first: segments[0].to_string(),
            rest: segments[1..].iter().map(|s| s.to_string()).collect(),
        },
        text: text.to_string(),
        args: Err("unexpected token".to_string()),
    }
}

fn named(vis: Visibility, name: &str, ty: Type, attrs: Vec<Attribute<FieldArgs>>) -> Field<FieldArgs> {
    Field::new(attrs, vis, Some(name.to_string()), ty, 0)
}

fn unnamed(ty: Type, attrs: Vec<Attribute<FieldArgs>>) -> Field<FieldArgs> {
    Field::new(attrs, Visibility::Inherited, None, ty, 0)
}

fn structure(
    attrs: Vec<Attribute<StructArgs>>,
    ident: &str,
    generics: &str,
    fields: Fields<FieldArgs>,
) -> DeriveInput<StructArgs, FieldArgs> {
    DeriveInput {
        attrs,
        ident: ident.to_string(),
        generics: Generics {
            impl_generics: generics.to_string(),
            ty_generics: generics.to_string(),
            where_clause: None,
        },
        data: Data::Struct(fields),
    }
}

fn expanded(input: DeriveInput<StructArgs, FieldArgs>) -> String {
    expand(input).unwrap().unwrap().to_text()
}

/// One method as it is written out: its attributes, one on a line, then the method.
fn method(attrs: &[&str], line: &str) -> String {
    let mut out = String::new();
    for attr in attrs {
        out.push_str(attr);
        out.push('\n');
    }
    out.push_str("#[inline(always)]\n");
    out.push_str(line);
    out.push('\n');
    out
}

fn block(head: &str, methods: &[String]) -> String {
    format!("{} {{\n{}}}\n", head, methods.concat())
}

fn field_args() -> FieldArgs {
    FieldArgs::empty()
}

fn struct_args() -> StructArgs {
    StructArgs::empty()
}

fn usize_ty() -> Type {
    path_ty("usize")
}

// ---- attr and attrs -------------------------------------------------------

#[derive(Default)]
struct AttrFoo {
    bar: usize,
}

impl AttrFoo {
    pub const fn bar(&self) -> usize {
        self.bar
    }

    fn set_bar(&mut self, bar: usize) -> &mut Self {
        self.bar = bar;
        self
    }
}

fn attr_expected() -> String {
    block(
        "impl Foo",
        &[method(
            &[
                "#[doc = \"test\"]",
                "#[rustfmt::skip]",
                "#[clippy::cyclomatic_complexity = \"100\"]",
            ],
            "fn set_bar(&mut self, bar: usize) -> &mut Self { self.bar = bar; self }",
        )],
    )
}

fn attr_run() {
    let meta = |m: &str| FieldArgs {
        attr: Some(NameArgs { args: vec![m.to_string()] }),
        ..field_args()
    };
    let input = structure(
        vec![plain(&["get"], "#[get(pub, const, copy)]")],
        "Foo",
        "",
        Fields::Named(vec![named(
            Visibility::Inherited,
            "bar",
            usize_ty(),
            vec![
                plain(&["doc"], "#[doc = \"test\"]"),
                set(meta("rustfmt::skip")),
                set(meta("clippy::cyclomatic_complexity = \"100\"")),
            ],
        )]),
    );
    assert_eq!(expanded(input), attr_expected());

    let mut foo = AttrFoo::default();

    assert_eq!(foo.set_bar(123).bar(), 123);
}

#[test]
fn set_attr() {
    attr_run();
}

#[test]
fn set_attrs() {
    let input = structure(
        vec![
            plain(&["get"], "#[get(pub, const, copy)]"),
            set(StructArgs {
                attrs: Some(NameArgs { args: vec!["rustfmt".to_string(), "clippy".to_string()] }),
                ..struct_args()
            }),
        ],
        "Foo",
        "",
        Fields::Named(vec![named(
            Visibility::Inherited,
            "bar",
            usize_ty(),
            vec![
                plain(&["doc"], "#[doc = \"test\"]"),
                plain(&["rustfmt", "skip"], "#[rustfmt::skip]"),
                plain(
                    &["clippy", "cyclomatic_complexity"],
                    "#[clippy::cyclomatic_complexity = \"100\"]",
                ),
            ],
        )]),
    );
    assert_eq!(expanded(input), attr_expected());

    let mut foo = AttrFoo::default();

    assert_eq!(foo.set_bar(123).bar(), 123);
}

// ---- into -----------------------------------------------------------------

#[derive(Default)]
pub struct IntoFoo {
    into_field: String,
}

impl IntoFoo {
    fn into_field(&self) -> &str {
        ::std::string::String::as_str(&self.into_field)
    }

    fn set_into_field<ARG>(&mut self, into_field: ARG) -> &mut Self
    where
        ARG: ::std::convert::Into<String>,
    {
        self.into_field = ::std::convert::Into::into(into_field);
        self
    }
}

fn into_run() {
    let input = structure(
        vec![],
        "Foo",
        "",
        Fields::Named(vec![named(
            Visibility::Inherited,
            "into_field",
            path_ty("String"),
            vec![plain(&["get"], "#[get(str)]"), set(FieldArgs { into: on(), ..field_args() })],
        )]),
    );
    assert_eq!(
        expanded(input),
        block(
            "impl Foo",
            &[method(
                &[],
                "fn set_into_field<ARG>(&mut self, into_field: ARG) -> &mut Self \
                 where ARG : ::std::convert::Into<String> \
                 { self.into_field = ::std::convert::Into::into(into_field); self }",
            )],
        )
    );

    let mut foo = IntoFoo::default();

    assert_eq!(foo.set_into_field("bar").into_field(), "bar");
}

#[test]
fn set_into() {
    into_run();
}

#[test]
fn test_set_into() {
    into_run();
}

// ---- try_into -------------------------------------------------------------

#[derive(Default)]
pub struct TryIntoFoo {
    try_into_field: i32,
}

impl TryIntoFoo {
    fn try_into_field(&self) -> i32 {
        self.try_into_field
    }

    fn set_try_into_field<ARG>(
        &mut self,
        try_into_field: ARG,
    ) -> ::std::result::Result<&mut Self, <ARG as ::std::convert::TryInto<i32>>::Error>
    where
        ARG: ::std::convert::TryInto<i32>,
    {
        self.try_into_field = ::std::convert::TryInto::<i32>::try_into(try_into_field)?;
        Ok(self)
    }
}

fn try_into_run() {
    let input = structure(
        vec![],
        "Foo",
        "",
        Fields::Named(vec![named(
            Visibility::Inherited,
            "try_into_field",
            path_ty("i32"),
            vec![plain(&["get"], "#[get(copy)]"), set(FieldArgs { try_into: on(), ..field_args() })],
        )]),
    );
    assert_eq!(
        expanded(input),
        block(
            "impl Foo",
            &[method(
                &[],
                "fn set_try_into_field<ARG>(&mut self, try_into_field: ARG) -> \
                 ::std::result::Result<&mut Self, <ARG as ::std::convert::TryInto<i32>>::Error> \
                 where ARG : ::std::convert::TryInto<i32> \
                 { self.try_into_field = ::std::convert::TryInto::<i32>::try_into(try_into_field)?; Ok(self) }",
            )],
        )
    );

    let mut foo = TryIntoFoo::default();

    assert_eq!(foo.set_try_into_field(123).unwrap().try_into_field(), 123);
}

#[test]
fn set_try_into() {
    try_into_run();
}

#[test]
fn test_set_try_into() {
    try_into_run();
}

// ---- opt ------------------------------------------------------------------

#[derive(Default)]
pub struct OptFoo {
    option_field: Option<usize>,
}

impl OptFoo {
    fn option_field(&self) -> &Option<usize> {
        &self.option_field
    }

    fn set_option_field(&mut self, option_field: usize) -> &mut Self {
        self.option_field = ::std::option::Option::Some(option_field);
        self
    }
}

fn opt_run() {
    let input = structure(
        vec![],
        "Foo",
        "",
        Fields::Named(vec![named(
            Visibility::Inherited,
            "option_field",
            generic_ty("Option", vec![usize_ty()]),
            vec![set(FieldArgs { opt: on(), ..field_args() })],
        )]),
    );
    assert_eq!(
        expanded(input),
        block(
            "impl Foo",
            &[method(
                &[],
                "fn set_option_field(&mut self, option_field: usize) -> &mut Self \
                 { self.option_field = ::std::option::Option::Some(option_field); self }",
            )],
        )
    );

    let mut foo = OptFoo::default();

    assert_eq!(foo.set_option_field(123).option_field().unwrap(), 123);
}

#[test]
fn set_opt() {
    opt_run();
}

#[test]
fn test_set_opt() {
    opt_run();
}

// ---- pub ------------------------------------------------------------------

#[derive(Default)]
pub struct Bar {
    private_field: usize,
    pub public_field: usize,
    pub_field: usize,
    pub_self_field: usize,
    pub_crate_field: usize,
    pub_super_field: usize,
    pub_in_module_field: usize,
}

impl Bar {
    fn private_field(&self) -> usize {
        self.private_field
    }

    pub fn public_field(&self) -> usize {
        self.public_field
    }

    pub fn pub_field(&self) -> usize {
        self.pub_field
    }

    pub(self) fn pub_self_field(&self) -> usize {
        self.pub_self_field
    }

    pub(crate) fn pub_crate_field(&self) -> usize {
        self.pub_crate_field
    }

    pub(crate) fn pub_super_field(&self) -> usize {
        self.pub_super_field
    }

    pub(crate) fn pub_in_module_field(&self) -> usize {
        self.pub_in_module_field
    }

    fn set_private_field(&mut self, private_field: usize) -> &mut Self {
        self.private_field = private_field;
        self
    }

    pub fn set_public_field(&mut self, public_field: usize) -> &mut Self {
        self.public_field = public_field;
        self
    }

    pub fn set_pub_field(&mut self, pub_field: usize) -> &mut Self {
        self.pub_field = pub_field;
        self
    }

    pub(self) fn set_pub_self_field(&mut self, pub_self_field: usize) -> &mut Self {
        self.pub_self_field = pub_self_field;
        self
    }

    pub(crate) fn set_pub_crate_field(&mut self, pub_crate_field: usize) -> &mut Self {
        self.pub_crate_field = pub_crate_field;
        self
    }

    pub(crate) fn set_pub_super_field(&mut self, pub_super_field: usize) -> &mut Self {
        self.pub_super_field = pub_super_field;
        self
    }

    pub(crate) fn set_pub_in_module_field(&mut self, pub_in_module_field: usize) -> &mut Self {
        self.pub_in_module_field = pub_in_module_field;
        self
    }
}

fn pub_methods() -> Vec<ItemFn> {
    let vis = |text: &str, v| vec![plain(&["get"], text), set(FieldArgs { vis: v, ..field_args() })];
    let input = structure(
        vec![plain(&["get"], "#[get(copy)]")],
        "Bar",
        "",
        Fields::Named(vec![
            named(Visibility::Inherited, "private_field", usize_ty(), vec![]),
            named(Visibility::Public, "public_field", usize_ty(), vec![]),
            named(Visibility::Inherited, "pub_field", usize_ty(), vis("#[get(pub)]", public())),
            named(
                Visibility::Inherited,
                "pub_self_field",
                usize_ty(),
                vis("#[get(pub(self))]", restricted(Restricted::PubSelf)),
            ),
            named(
                Visibility::Inherited,
                "pub_crate_field",
                usize_ty(),
                vis("#[get(pub(crate))]", restricted(Restricted::PubCrate)),
            ),
            named(
                Visibility::Inherited,
                "pub_super_field",
                usize_ty(),
                vis("#[get(pub(super))]", restricted(Restricted::PubSuper)),
            ),
            named(
                Visibility::Inherited,
                "pub_in_module_field",
                usize_ty(),
                vis(
                    "#[get(pub(in crate::foo))]",
                    restricted(Restricted::PubInModule { path: "crate::foo".to_string() }),
                ),
            ),
        ]),
    );
    expand(input).unwrap().unwrap().items
}

fn setter_line(vis: &str, name: &str) -> String {
    method(
        &[],
        &format!(
            "{}fn set_{}(&mut self, {}: usize) -> &mut Self {{ self.{} = {}; self }}",
            vis, name, name, name, name
        ),
    )
}

fn private_run() {
    let methods = pub_methods();
    assert_eq!(methods[0].to_text(), setter_line("", "private_field"));
    assert_eq!(methods[3].to_text(), setter_line("pub(self) ", "pub_self_field"));

    let mut bar = Bar::default();

    assert_eq!(bar.set_private_field(123).private_field(), 123);
    assert_eq!(bar.set_pub_self_field(456).pub_self_field(), 456);
}

fn in_module_run() {
    let methods = pub_methods();
    assert_eq!(methods[6].to_text(), setter_line("pub(in crate::foo) ", "pub_in_module_field"));

    let mut bar = Bar::default();

    assert_eq!(bar.set_pub_in_module_field(123).pub_in_module_field(), 123);
}

fn public_run() {
    let methods = pub_methods();
    assert_eq!(methods[1].to_text(), setter_line("pub ", "public_field"));

    let mut foobar = Bar::default();

    assert_eq!(foobar.set_public_field(123).public_field(), 123);
}

fn pub_run() {
    let methods = pub_methods();
    assert_eq!(methods.len(), 7);
    assert_eq!(methods[2].to_text(), setter_line("pub ", "pub_field"));
    assert_eq!(methods[4].to_text(), setter_line("pub(crate) ", "pub_crate_field"));
    assert_eq!(methods[5].to_text(), setter_line("pub(super) ", "pub_super_field"));

    let mut foobar = Bar::default();

    assert_eq!(foobar.set_pub_field(123).pub_field(), 123);
    assert_eq!(foobar.set_pub_crate_field(456).pub_crate_field(), 456);
    assert_eq!(foobar.set_pub_super_field(789).pub_super_field(), 789);
}

#[test]
fn set_pub_private() {
    private_run();
}

#[test]
fn set_pub_set_pub() {
    in_module_run();
    pub_run();
}

#[test]
fn set_pub_public() {
    public_run();
}

#[test]
fn setter_test_private() {
    private_run();
}

#[test]
fn setter_test_set_pub() {
    in_module_run();
    pub_run();
}

#[test]
fn setter_test_public() {
    public_run();
}

// ---- unnamed --------------------------------------------------------------

#[derive(Default)]
pub struct Unnamed(usize, usize);

impl Unnamed {
    pub fn x(&self) -> usize {
        self.0
    }

    pub fn arg1(&self) -> usize {
        self.1
    }

    fn set_x(&mut self, x: usize) -> &mut Self {
        self.0 = x;
        self
    }

    fn set_arg1(&mut self, arg1: usize) -> &mut Self {
        self.1 = arg1;
        self
    }
}

fn unnamed_run() {
    let input = structure(
        vec![plain(&["get"], "#[get(pub, copy)]")],
        "Unnamed",
        "",
        Fields::Unnamed(vec![
            unnamed(
                usize_ty(),
                vec![
                    plain(&["get"], "#[get(rename(x))]"),
                    set(FieldArgs {
                        rename: Some(NameArgs { args: "x".to_string() }),
                        ..field_args()
                    }),
                ],
            ),
            unnamed(usize_ty(), vec![]),
        ]),
    );
    assert_eq!(
        expanded(input),
        block(
            "impl Unnamed",
            &[
                method(&[], "fn set_x(&mut self, x: usize) -> &mut Self { self.0 = x; self }"),
                method(
                    &[],
                    "fn set_arg1(&mut self, arg1: usize) -> &mut Self { self.1 = arg1; self }",
                ),
            ],
        )
    );

    let mut unnamed = Unnamed::default();

    assert_eq!(unnamed.set_x(123).x(), 123);
    assert_eq!(unnamed.set_arg1(456).arg1(), 456);
}

#[test]
fn unnamed_struct() {
    unnamed_run();
}

#[test]
fn setter_test_unnamed_struct() {
    unnamed_run();
}

// ---- extend ---------------------------------------------------------------

#[derive(Default)]
pub struct ExtendFoo<'a> {
    string_field: String,
    vec_field: Vec<usize>,
    map_field: HashMap<usize, usize>,
    path_field: PathBuf,
    p_field: PathBuf,
    phantom: PhantomData<&'a u8>,
}

impl<'a> ExtendFoo<'a> {
    fn string_field(&self) -> &str {
        ::std::string::String::as_str(&self.string_field)
    }

    fn vec_field(&self) -> &[usize] {
        self.vec_field.as_slice()
    }

    fn map_field(&self) -> &HashMap<usize, usize> {
        &self.map_field
    }

    fn path_field(&self) -> &PathBuf {
        &self.path_field
    }

    fn p_field(&self) -> &PathBuf {
        &self.p_field
    }

    fn extend_string_field<ITER: ::std::iter::IntoIterator<Item = char>>(
        &mut self,
        string_field: ITER,
    ) -> &mut Self {
        self.string_field.extend(string_field);
        self
    }

    fn append_string_field(&mut self, string_field: char) -> &mut Self {
        self.string_field.extend([string_field]);
        self
    }

    fn extend_vec_field<ITER: ::std::iter::IntoIterator<Item = usize>>(
        &mut self,
        vec_field: ITER,
    ) -> &mut Self {
        self.vec_field.extend(vec_field);
        self
    }

    fn append_vec_field(&mut self, vec_field: usize) -> &mut Self {
        self.vec_field.extend([vec_field]);
        self
    }

    fn extend_map_field<ITER: ::std::iter::IntoIterator<Item = (usize, usize)>>(
        &mut self,
        map_field: ITER,
    ) -> &mut Self {
        self.map_field.extend(map_field);
        self
    }

    fn append_map_field(&mut self, map_field: (usize, usize)) -> &mut Self {
        self.map_field.extend([map_field]);
        self
    }

    fn extend_path_field<ITER: ::std::iter::IntoIterator<Item = &'a Path>>(
        &mut self,
        path_field: ITER,
    ) -> &mut Self {
        self.path_field.extend(path_field);
        self
    }

    fn append_path_field(&mut self, path_field: &'a Path) -> &mut Self {
        self.path_field.extend([path_field]);
        self
    }

    fn extend_p_field<ITER: ::std::iter::IntoIterator<Item = P>, P: AsRef<Path>>(
        &mut self,
        p_field: ITER,
    ) -> &mut Self {
        self.p_field.extend(p_field);
        self
    }

    fn append_p_field<P: AsRef<Path>>(&mut self, p_field: P) -> &mut Self {
        self.p_field.extend([p_field]);
        self
    }
}

fn extend_pair(name: &str, item: &str, param: Option<&str>) -> Vec<String> {
    let extra = match param {
        Some(p) => format!(", {}", p),
        None => String::new(),
    };
    let append_generics = match param {
        Some(p) => format!("<{}>", p),
        None => String::new(),
    };
    vec![
        method(
            &[],
            &format!(
                "fn extend_{n}<ITER: ::std::iter::IntoIterator<Item = {i}>{e}>(&mut self, {n}: ITER) \
                 -> &mut Self {{ self.{n}.extend({n}); self }}",
                n = name,
                i = item,
                e = extra
            ),
        ),
        method(
            &[],
            &format!(
                "fn append_{n}{g}(&mut self, {n}: {i}) -> &mut Self {{ self.{n}.extend([{n}]); self }}",
                n = name,
                g = append_generics,
                i = item
            ),
        ),
    ]
}

fn extend_run() {
    let extend = |e: Option<Extend>| set(FieldArgs { extend: Some(NameArgs { args: e }), ..field_args() });
    let input = structure(
        vec![],
        "Foo",
        "<'a>",
        Fields::Named(vec![
            named(
                Visibility::Inherited,
                "string_field",
                path_ty("String"),
                vec![plain(&["get"], "#[get(str)]"), extend(None)],
            ),
            named(
                Visibility::Inherited,
                "vec_field",
                generic_ty("Vec", vec![usize_ty()]),
                vec![plain(&["get"], "#[get(slice)]"), extend(None)],
            ),
            named(
                Visibility::Inherited,
                "map_field",
                generic_ty("HashMap", vec![usize_ty(), usize_ty()]),
                vec![extend(None)],
            ),
            named(
                Visibility::Inherited,
                "path_field",
                path_ty("PathBuf"),
                vec![extend(Some(Extend::Type(ref_ty("&'a ", path_ty("Path")))))],
            ),
            named(
                Visibility::Inherited,
                "p_field",
                path_ty("PathBuf"),
                vec![extend(Some(Extend::Bound(TypeParam {
                    ident: "P".to_string(),
                    text: "P: AsRef<Path>".to_string(),
                })))],
            ),
            named(
                Visibility::Inherited,
                "phantom",
                generic_ty("PhantomData", vec![ref_ty("&'a ", path_ty("u8"))]),
                vec![
                    plain(&["get"], "#[get(skip)]"),
                    set(FieldArgs { skip: true, ..field_args() }),
                ],
            ),
        ]),
    );
    let mut methods = Vec::new();
    methods.extend(extend_pair("string_field", "char", None));
    methods.extend(extend_pair("vec_field", "usize", None));
    methods.extend(extend_pair("map_field", "(usize, usize)", None));
    methods.extend(extend_pair("path_field", "&'a Path", None));
    methods.extend(extend_pair("p_field", "P", Some("P: AsRef<Path>")));
    assert_eq!(expanded(input), block("impl<'a> Foo<'a>", &methods));

    let mut foo = ExtendFoo::default();

    assert_eq!(
        foo.extend_string_field("foo".chars())
            .extend_string_field("bar".chars())
            .append_string_field('!')
            .string_field(),
        "foobar!"
    );

    assert_eq!(
        foo.extend_vec_field([1, 2, 3]).extend_vec_field([4, 5, 6]).append_vec_field(7).vec_field(),
        [1, 2, 3, 4, 5, 6, 7]
    );

    assert_eq!(
        foo.extend_map_field(vec![(1, 2), (3, 4)])
            .append_map_field((5, 6))
            .map_field()
            .get(&5)
            .unwrap(),
        &6
    );

    assert_eq!(
        foo.extend_path_field([Path::new("/"), Path::new("foo")])
            .append_path_field(Path::new("bar"))
            .path_field(),
        Path::new("/foo/bar")
    );

    assert_eq!(
        foo.extend_p_field(["/", "foo"]).append_p_field("bar").p_field(),
        Path::new("/foo/bar")
    )
}

#[test]
fn set_extend() {
    extend_run();
}

#[test]
fn test_set_extend() {
    extend_run();
}
