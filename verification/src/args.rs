//! Arguments of an accessor or mutator attribute and how they combine.
//!
//! An argument given on a field wins over the same argument given on the
//! structure; the same argument given twice on one item keeps its first value.

use vstd::prelude::*;

use crate::error::Error;
use crate::ty::{str_eq, Type};
use crate::text::{decimal, decimal_spec, texts};
use crate::vis::{AsVisibility, Restricted, Visibility};

verus! {

/// A bare word such as `copy`: given or not.
#[derive(Clone, Copy, Debug)]
pub struct Flag {
    pub set: bool,
}

/// An argument of the form `name(args)`, or `name` alone where `T` is an `Option`.
#[derive(Debug)]
pub struct NameArgs<T> {
    pub args: T,
}

/// An argument of the form `name = value`.
#[derive(Debug)]
pub struct NameValue<T> {
    pub value: T,
}

/// The path of a function, as written in an argument such as `slice(path::to::f)`.
#[derive(Debug)]
pub struct ExprPath {
    pub text: String,
}

/// An argument that may say yes, say no, or be absent.
pub trait AsBool {
    /// What the argument says, as a mathematical value.
    spec fn as_bool_spec(&self) -> Option<bool>;

    /// What the argument says: `None` where it is absent.
    fn as_bool(&self) -> (r: Option<bool>)
        ensures
            r == self.as_bool_spec(),
    ;

    /// What the argument says, with an absent argument read as no.
    fn bool(&self) -> (r: bool)
        ensures
            r == (self.as_bool_spec() == Some(true)),
    {
        match self.as_bool() {
            Some(b) => b,
            None => false,
        }
    }
}

impl AsBool for Flag {
    open spec fn as_bool_spec(&self) -> Option<bool> {
        if self.set {
            Some(true)
        } else {
            None
        }
    }

    fn as_bool(&self) -> (r: Option<bool>) {
        if self.set {
            Some(true)
        } else {
            None
        }
    }
}

impl AsBool for Option<NameArgs<Option<bool>>> {
    open spec fn as_bool_spec(&self) -> Option<bool> {
        match self {
            Some(v) => match v.args {
                Some(b) => Some(b),
                None => Some(true),
            },
            None => None,
        }
    }

    fn as_bool(&self) -> (r: Option<bool>) {
        match self {
            Some(v) => match v.args {
                Some(b) => Some(b),
                None => Some(true),
            },
            None => None,
        }
    }
}

impl AsBool for Option<NameArgs<Option<ExprPath>>> {
    open spec fn as_bool_spec(&self) -> Option<bool> {
        if self.is_some() {
            Some(true)
        } else {
            None
        }
    }

    fn as_bool(&self) -> (r: Option<bool>) {
        if self.is_some() {
            Some(true)
        } else {
            None
        }
    }
}

impl AsBool for Option<NameArgs<Option<Type>>> {
    open spec fn as_bool_spec(&self) -> Option<bool> {
        if self.is_some() {
            Some(true)
        } else {
            None
        }
    }

    fn as_bool(&self) -> (r: Option<bool>) {
        if self.is_some() {
            Some(true)
        } else {
            None
        }
    }
}

impl AsBool for Option<NameArgs<Type>> {
    open spec fn as_bool_spec(&self) -> Option<bool> {
        if self.is_some() {
            Some(true)
        } else {
            None
        }
    }

    fn as_bool(&self) -> (r: Option<bool>) {
        if self.is_some() {
            Some(true)
        } else {
            None
        }
    }
}

/// The first of two answers that is present.
pub open spec fn merge_bool_spec(lhs: Option<bool>, rhs: Option<bool>) -> Option<bool> {
    if lhs.is_some() {
        lhs
    } else {
        rhs
    }
}

/// Combines a field's argument with the structure's: the field's wins where it is present.
pub fn merge_bool<L: AsBool, R: AsBool>(lhs: &L, rhs: &R) -> (r: Option<bool>)
    ensures
        r == merge_bool_spec(lhs.as_bool_spec(), rhs.as_bool_spec()),
{
    let l = lhs.as_bool();
    if l.is_some() {
        l
    } else {
        rhs.as_bool()
    }
}

/// Whether the merged answer of a field's and the structure's argument is yes.
pub open spec fn enabled<L: AsBool, R: AsBool>(lhs: &L, rhs: &R) -> bool {
    merge_bool_spec(lhs.as_bool_spec(), rhs.as_bool_spec()) == Some(true)
}

/// `merge::Merge::merge` on an `Option`: a value that is present stays, an
/// absent one is replaced by `rhs`.
#[verifier::external_body]
pub(crate) fn merge_option<T>(lhs: &mut Option<T>, rhs: Option<T>)
    ensures
        *final(lhs) == (if old(lhs).is_some() {
            *old(lhs)
        } else {
            rhs
        }),
{
    merge::Merge::merge(lhs, rhs)
}

/// `merge::bool::overwrite_false`: a `true` stays, a `false` is replaced by `right`.
pub assume_specification[ merge::bool::overwrite_false ](left: &mut bool, right: bool)
    ensures
        *final(left) == (*old(left) || right),
;

/// The lists of two list arguments, one after the other; an absent argument
/// gives way to the other.
pub open spec fn merge_name_args_spec<T>(
    lhs: Option<NameArgs<Vec<T>>>,
    rhs: Option<NameArgs<Vec<T>>>,
) -> Option<Seq<T>> {
    match lhs {
        Some(l) => match rhs {
            Some(r) => Some(l.args@ + r.args@),
            None => Some(l.args@),
        },
        None => match rhs {
            Some(r) => Some(r.args@),
            None => None,
        },
    }
}

/// The items of a list argument, if it is given.
pub open spec fn name_args_items<T>(a: Option<NameArgs<Vec<T>>>) -> Option<Seq<T>> {
    match a {
        Some(l) => Some(l.args@),
        None => None,
    }
}

/// Appends the items of `rhs` to those of `lhs`.
pub fn merge_name_args<T>(lhs: &mut Option<NameArgs<Vec<T>>>, rhs: Option<NameArgs<Vec<T>>>)
    ensures
        name_args_items(*final(lhs)) == merge_name_args_spec(*old(lhs), rhs),
{
    match lhs {
        Some(l) => {
            if let Some(mut r) = rhs {
                l.args.append(&mut r.args);
            }
        },
        None => {
            *lhs = rhs;
        },
    }
}

/// A flag that is given where either of two is.
pub open spec fn either(a: Flag, b: Flag) -> Flag {
    Flag { set: a.set || b.set }
}

/// A flag that is given in `rhs` is given in the result.
pub fn merge_flag(lhs: &mut Flag, rhs: Flag)
    ensures
        *final(lhs) == either(*old(lhs), rhs),
{
    if rhs.set {
        lhs.set = rhs.set;
    }
}

/// Whether an attribute stands outside its item (`#[..]`) or inside it (`#![..]`).
#[derive(Clone, Copy, Debug, PartialEq, Eq)]
pub enum AttrStyle {
    Outer,
    Inner,
}

/// The path of an attribute: its first segment and those after it.
#[derive(Debug)]
pub struct AttrPath {
    pub leading_colon: bool,
    pub first: String,
    pub rest: Vec<String>,
}

/// An attribute of a structure or of a field, together with what came of
/// reading its arguments as `T`.
#[derive(Debug)]
pub struct Attribute<T> {
    pub style: AttrStyle,
    pub path: AttrPath,
    /// The attribute as source text.
    pub text: String,
    /// The arguments, or the message of the fault in them.
    pub args: Result<T, String>,
}

impl AttrPath {
    /// Whether the path is the single word `name`.
    pub open spec fn is_ident_spec(&self, name: Seq<char>) -> bool {
        !self.leading_colon && self.rest@.len() == 0 && self.first@ == name
    }

    /// Whether the path is the single word `name`.
    pub fn is_ident(&self, name: &str) -> (r: bool)
        ensures
            r == self.is_ident_spec(name@),
    {
        !self.leading_colon && self.rest.len() == 0 && str_eq(self.first.as_str(), name)
    }
}

/// Arguments that can start out empty and take in further arguments.
pub trait Args: View + Sized {
    /// The arguments of an item that has none.
    spec fn empty_view() -> Self::V;

    /// What comes of taking `other` into `before`.
    spec fn merge_view(before: Self::V, other: Self::V) -> Self::V;

    /// The arguments of an item that has none.
    fn empty() -> (r: Self)
        ensures
            r@ == Self::empty_view(),
    ;

    /// These arguments with those of a further attribute taken in.
    fn merged(self, other: Self) -> (r: Self)
        ensures
            r@ == Self::merge_view(self@, other@),
    ;

    /// Taking in no arguments, or taking arguments into none, changes nothing.
    proof fn lemma_empty_is_neutral(v: Self::V)
        ensures
            Self::merge_view(Self::empty_view(), v) == v,
            Self::merge_view(v, Self::empty_view()) == v,
    ;

    /// Taking in two sets of arguments one after the other is the same as
    /// taking in what comes of the two.
    proof fn lemma_merge_is_associative(a: Self::V, b: Self::V, c: Self::V)
        ensures
            Self::merge_view(Self::merge_view(a, b), c) == Self::merge_view(
                a,
                Self::merge_view(b, c),
            ),
    ;
}

/// Two optional lists, one after the other.
pub open spec fn joined<T>(a: Option<Seq<T>>, b: Option<Seq<T>>) -> Option<Seq<T>> {
    match a {
        Some(l) => match b {
            Some(r) => Some(l + r),
            None => Some(l),
        },
        None => b,
    }
}

/// Joining optional lists does not depend on how they are grouped.
pub proof fn lemma_joined_is_associative<T>(
    a: Option<Seq<T>>,
    b: Option<Seq<T>>,
    c: Option<Seq<T>>,
)
    ensures
        joined(joined(a, b), c) == joined(a, joined(b, c)),
{
    if a is Some && b is Some && c is Some {
        assert((a->Some_0 + b->Some_0) + c->Some_0 =~= a->Some_0 + (b->Some_0 + c->Some_0));
    }
}

/// Whether an attribute of this name is handed on to the generated methods
/// whatever the structure allows.
pub open spec fn is_well_known_attr(ident: Seq<char>) -> bool {
    ident == "allow"@ || ident == "cfg"@ || ident == "cfg_attr"@ || ident == "deny"@ || ident
        == "deprecated"@ || ident == "doc"@ || ident == "forbid"@ || ident == "must_use"@ || ident
        == "warn"@
}

/// Whether `ident` is one of the names that the structure allows.
pub open spec fn is_allowed_attr(allowed: Option<Seq<String>>, ident: Seq<char>) -> bool {
    match allowed {
        Some(names) => has_text(names, ident),
        None => false,
    }
}

/// Whether one of `names` reads `text`.
pub open spec fn has_text(names: Seq<String>, text: Seq<char>) -> bool {
    exists|i: int| 0 <= i < names.len() && (#[trigger] names[i])@ == text
}

/// The items of an optional list.
pub open spec fn opt_items<T>(v: Option<Vec<T>>) -> Option<Seq<T>> {
    match v {
        Some(v) => Some(v@),
        None => None,
    }
}

/// Whether an attribute is handed on to the generated methods.
pub open spec fn is_kept_attr<T>(attr: Attribute<T>, allowed: Option<Seq<String>>) -> bool {
    attr.style == AttrStyle::Outer && (is_well_known_attr(attr.path.first@) || is_allowed_attr(
        allowed,
        attr.path.first@,
    ))
}

/// The texts of the attributes among `attrs` that are not called `name` and
/// are handed on, in their order.
pub open spec fn kept_attrs<T>(
    attrs: Seq<Attribute<T>>,
    name: Seq<char>,
    allowed: Option<Seq<String>>,
) -> Seq<Seq<char>>
    decreases attrs.len(),
{
    if attrs.len() == 0 {
        Seq::empty()
    } else {
        let rest = kept_attrs(attrs.drop_last(), name, allowed);
        let last = attrs.last();
        if !last.path.is_ident_spec(name) && is_kept_attr(last, allowed) {
            rest.push(last.text@)
        } else {
            rest
        }
    }
}

/// What comes of taking in, one after the other and starting from nothing,
/// the arguments of the attributes among `attrs` that are called `name`.
pub open spec fn merged_args<T: Args>(attrs: Seq<Attribute<T>>, name: Seq<char>) -> T::V
    decreases attrs.len(),
{
    if attrs.len() == 0 {
        T::empty_view()
    } else {
        let last = attrs.last();
        let before = merged_args(attrs.drop_last(), name);
        if last.path.is_ident_spec(name) && last.args is Ok {
            T::merge_view(before, last.args->Ok_0@)
        } else {
            before
        }
    }
}

/// Whether an attribute is called `name` and has faulty arguments.
pub open spec fn is_invalid<T>(attr: Attribute<T>, name: Seq<char>) -> bool {
    attr.path.is_ident_spec(name) && attr.args is Err
}

/// The position of the first attribute among `attrs` that is called `name`
/// and has faulty arguments.
pub open spec fn first_invalid<T>(attrs: Seq<Attribute<T>>, name: Seq<char>) -> Option<int>
    decreases attrs.len(),
{
    if attrs.len() == 0 {
        None
    } else {
        match first_invalid(attrs.drop_last(), name) {
            Some(i) => Some(i),
            None => if is_invalid(attrs.last(), name) {
                Some(attrs.len() - 1)
            } else {
                None
            },
        }
    }
}

/// The fault that the attribute at `i` is reported with.
pub open spec fn invalid_attribute<T>(
    attrs: Seq<Attribute<T>>,
    name: &'static str,
    i: int,
) -> Error {
    Error::InvalidAttribute { name, index: i as usize, message: attrs[i].args->Err_0 }
}

/// Each of `metas` between `#[` and `]`; nothing where the list is absent.
pub open spec fn wrapped_metas(metas: Option<Seq<String>>) -> Seq<Seq<char>> {
    match metas {
        Some(m) => Seq::new(m.len(), |i: int| "#["@ + m[i]@ + "]"@),
        None => Seq::empty(),
    }
}

/// How many attributes among `attrs` are called `name`.
pub open spec fn count_named<T>(attrs: Seq<Attribute<T>>, name: Seq<char>) -> nat
    decreases attrs.len(),
{
    if attrs.len() == 0 {
        0
    } else {
        count_named(attrs.drop_last(), name) + if attrs.last().path.is_ident_spec(name) {
            1nat
        } else {
            0nat
        }
    }
}

/// Whether `ident` is one of the well-known attribute names.
pub fn well_known_attr(ident: &str) -> (r: bool)
    ensures
        r == is_well_known_attr(ident@),
{
    str_eq(ident, "allow") || str_eq(ident, "cfg") || str_eq(ident, "cfg_attr") || str_eq(
        ident,
        "deny",
    ) || str_eq(ident, "deprecated") || str_eq(ident, "doc") || str_eq(ident, "forbid") || str_eq(
        ident,
        "must_use",
    ) || str_eq(ident, "warn")
}

/// Whether `ident` is one of `names`.
pub fn contains_string(names: &Vec<String>, ident: &str) -> (r: bool)
    ensures
        r == has_text(names@, ident@),
{
    let mut i: usize = 0;
    while i < names.len()
        invariant
            i <= names.len(),
            forall|j: int| 0 <= j < i ==> (#[trigger] names@[j])@ != ident@,
        decreases names.len() - i,
    {
        if str_eq(names[i].as_str(), ident) {
            assert(names@[i as int]@ == ident@);
            return true;
        }
        i += 1;
    }
    false
}

/// Whether `ident` is one of the names that the structure allows.
pub fn allowed_attr(allowed: &Option<Vec<String>>, ident: &str) -> (r: bool)
    ensures
        r == is_allowed_attr(opt_items(*allowed), ident@),
{
    match allowed {
        Some(names) => contains_string(names, ident),
        None => false,
    }
}

/// What `extract` gives for the attributes `attrs` of an item: the
/// arguments of those called `name`, taken in one after the other; whether
/// there is any of them; and the texts of the others that are handed on to
/// the generated methods.
pub open spec fn extract_spec<T: Args>(
    attrs: Seq<Attribute<T>>,
    name: &'static str,
    allowed: Option<Seq<String>>,
) -> Result<(T::V, bool, Seq<Seq<char>>), Error> {
    match first_invalid(attrs, name@) {
        Some(i) => Err(invalid_attribute(attrs, name, i)),
        None => Ok(
            (
                merged_args(attrs, name@),
                count_named(attrs, name@) > 0,
                kept_attrs(attrs, name@, allowed),
            ),
        ),
    }
}

/// Splits the attributes of an item: the arguments of those called `name`,
/// taken in one after the other, whether there was any, and the texts of the
/// others that are handed on to the generated methods. An attribute is handed
/// on where it stands outside the item and its first segment is a well-known
/// name or one of `allowed_attrs`.
///
/// Fails at the first attribute called `name` whose arguments are faulty,
/// with the position of that attribute and the message of the fault.
pub fn extract<T: Args>(
    attrs: Vec<Attribute<T>>,
    name: &'static str,
    allowed_attrs: Option<Vec<String>>,
) -> (r: Result<(T, bool, Vec<String>), Error>)
    ensures
        match r {
            Ok((args, any, kept)) => extract_spec(attrs@, name, opt_items(allowed_attrs)) == Ok::<
                (T::V, bool, Seq<Seq<char>>),
                Error,
            >((args@, any, texts(kept@))),
            Err(e) => extract_spec(attrs@, name, opt_items(allowed_attrs)) == Err::<
                (T::V, bool, Seq<Seq<char>>),
                Error,
            >(e),
        },
{
    let ghost all = attrs@;
    let count = attrs.len();
    let mut args = T::empty();
    let mut any = false;
    let mut kept: Vec<String> = Vec::new();
    let mut index: usize = 0;
    for attr in it: attrs
        invariant
            it.seq() == all,
            index == it.index(),
            all.len() == count,
            first_invalid(all.take(index as int), name@) is None,
            args@ == merged_args(all.take(index as int), name@),
            any == (count_named(all.take(index as int), name@) > 0),
            texts(kept@) == kept_attrs(all.take(index as int), name@, opt_items(allowed_attrs)),
    {
        assert(index < all.len());
        assert(attr == all[index as int]);
        proof {
            assert(all.take(index + 1).drop_last() =~= all.take(index as int));
            assert(all.take(index + 1).last() == all[index as int]);
        }
        let Attribute { style, path, text, args: parsed } = attr;
        if path.is_ident(name) {
            match parsed {
                Ok(new) => {
                    args = args.merged(new);
                    any = true;
                },
                Err(message) => {
                    proof {
                        lemma_first_invalid_prefix(all, name@, index as int);
                    }
                    return Err(Error::InvalidAttribute { name, index, message });
                },
            }
        } else {
            let outer = match style {
                AttrStyle::Outer => true,
                AttrStyle::Inner => false,
            };
            if outer && (well_known_attr(path.first.as_str()) || allowed_attr(
                &allowed_attrs,
                path.first.as_str(),
            )) {
                proof {
                    assert(texts(kept@.push(text)) =~= texts(kept@).push(text@));
                }
                kept.push(text);
            }
        }
        index += 1;
    }
    proof {
        assert(all.take(index as int) =~= all);
    }
    Ok((args, any, kept))
}

/// Where the first faulty attribute of a list stands at `i`, it is also
/// the first of the whole list's prefix that ends behind it.
pub(crate) proof fn lemma_first_invalid_prefix<T>(attrs: Seq<Attribute<T>>, name: Seq<char>, i: int)
    requires
        0 <= i < attrs.len(),
        first_invalid(attrs.take(i), name) is None,
        is_invalid(attrs[i], name),
    ensures
        first_invalid(attrs, name) == Some(i),
    decreases attrs.len(),
{
    if attrs.len() == i + 1 {
        assert(attrs.drop_last() =~= attrs.take(i));
    } else {
        assert(attrs.drop_last().take(i) =~= attrs.take(i));
        lemma_first_invalid_prefix(attrs.drop_last(), name, i);
    }
}

/// The first of two optional arguments that is given.
pub open spec fn first_given<T>(field: Option<T>, of_struct: Option<T>) -> Option<T> {
    if field.is_some() {
        field
    } else {
        of_struct
    }
}

/// The visibility of a method: what the field asks for, else what the
/// structure asks for, else the field's own.
pub open spec fn vis_spec(
    field_vis: Option<NameArgs<Option<Restricted>>>,
    struct_vis: Option<NameArgs<Option<Restricted>>>,
    default_vis: Visibility,
) -> Visibility {
    match first_given(field_vis, struct_vis) {
        Some(a) => match a.args {
            Some(r) => Visibility::Restricted(r),
            None => Visibility::Public,
        },
        None => default_vis,
    }
}

/// The visibility of a method: what the field asks for, else what the
/// structure asks for, else the field's own.
pub fn vis(
    field_vis: &Option<NameArgs<Option<Restricted>>>,
    struct_vis: &Option<NameArgs<Option<Restricted>>>,
    default_vis: &Visibility,
) -> (r: Visibility)
    ensures
        r == vis_spec(*field_vis, *struct_vis, *default_vis),
{
    let asked = match field_vis {
        Some(a) => Some(a),
        None => struct_vis.as_ref(),
    };
    match asked.as_visibility() {
        Some(v) => v,
        None => default_vis.clone(),
    }
}

/// Whether a method is `const`: the field decides where it says so, else the structure.
pub fn constness(field_constness: &Option<NameArgs<Option<bool>>>, struct_constness: &Flag) -> (r:
    bool)
    ensures
        r == enabled(field_constness, struct_constness),
{
    match merge_bool(field_constness, struct_constness) {
        Some(b) => b,
        None => false,
    }
}

/// What stands before the name of a method: the value of `prefix` and an underscore.
pub open spec fn prefix_spec(
    field_prefix: Option<NameValue<String>>,
    struct_prefix: Option<NameValue<String>>,
) -> Option<Seq<char>> {
    match first_given(field_prefix, struct_prefix) {
        Some(p) => Some(p.value@ + "_"@),
        None => None,
    }
}

/// What stands after the name of a method: an underscore and the value of `suffix`.
pub open spec fn suffix_spec(
    field_suffix: Option<NameValue<String>>,
    struct_suffix: Option<NameValue<String>>,
) -> Option<Seq<char>> {
    match first_given(field_suffix, struct_suffix) {
        Some(p) => Some("_"@ + p.value@),
        None => None,
    }
}

/// The characters of an optional string.
pub open spec fn opt_text(s: Option<String>) -> Option<Seq<char>> {
    match s {
        Some(s) => Some(s@),
        None => None,
    }
}

/// The prefix of a method's name, with its underscore: the field's, else the structure's.
pub fn prefix(
    field_prefix: &Option<NameValue<String>>,
    struct_prefix: &Option<NameValue<String>>,
) -> (r: Option<String>)
    ensures
        opt_text(r) == prefix_spec(*field_prefix, *struct_prefix),
{
    let given = match field_prefix {
        Some(p) => Some(p),
        None => struct_prefix.as_ref(),
    };
    match given {
        Some(p) => {
            let mut s = p.value.clone();
            s.append("_");
            Some(s)
        },
        None => None,
    }
}

/// The suffix of a method's name, with its underscore: the field's, else the structure's.
pub fn suffix(
    field_suffix: &Option<NameValue<String>>,
    struct_suffix: &Option<NameValue<String>>,
) -> (r: Option<String>)
    ensures
        opt_text(r) == suffix_spec(*field_suffix, *struct_suffix),
{
    let given = match field_suffix {
        Some(p) => Some(p),
        None => struct_suffix.as_ref(),
    };
    match given {
        Some(p) => {
            let mut s = String::from_str("_");
            s.append(p.value.as_str());
            Some(s)
        },
        None => None,
    }
}

/// The name that methods are built on: the one given by `rename`, else the
/// field's own, else `arg` and the field's position.
pub open spec fn name_spec(
    field_rename: Option<NameArgs<String>>,
    field_ident: Option<String>,
    field_idx: usize,
) -> Seq<char> {
    match field_rename {
        Some(a) => a.args@,
        None => match field_ident {
            Some(i) => i@,
            None => "arg"@ + decimal_spec(field_idx as nat),
        },
    }
}

/// The name that methods are built on: the one given by `rename`, else the
/// field's own, else `arg` and the field's position.
pub fn name(
    field_rename: &Option<NameArgs<String>>,
    field_ident: &Option<String>,
    field_idx: usize,
) -> (r: String)
    ensures
        r@ == name_spec(*field_rename, *field_ident, field_idx),
{
    match field_rename {
        Some(a) => a.args.clone(),
        None => match field_ident {
            Some(i) => i.clone(),
            None => {
                let mut s = String::from_str("arg");
                s.append(decimal(field_idx).as_str());
                s
            },
        },
    }
}

/// Appends to `attrs` the attributes that `metas` asks for: each item
/// between `#[` and `]`.
pub fn push_metas(attrs: &mut Vec<String>, metas: &Option<NameArgs<Vec<String>>>)
    ensures
        texts(final(attrs)@) == texts(old(attrs)@) + wrapped_metas(name_args_items(*metas)),
{
    let ghost before = texts(attrs@);
    match metas {
        Some(list) => {
            let ghost want = wrapped_metas(Some(list.args@));
            let mut i: usize = 0;
            while i < list.args.len()
                invariant
                    i <= list.args.len(),
                    want == wrapped_metas(Some(list.args@)),
                    texts(attrs@) == before + want.take(i as int),
                decreases list.args.len() - i,
            {
                let mut s = String::from_str("#[");
                s.append(list.args[i].as_str());
                s.append("]");
                proof {
                    assert(texts(attrs@.push(s)) =~= texts(attrs@).push(s@));
                    assert(want.take(i + 1) =~= want.take(i as int).push(want[i as int]));
                    assert(before + want.take(i + 1) =~= (before + want.take(i as int)).push(s@));
                }
                attrs.push(s);
                i += 1;
            }
            proof {
                assert(want.take(i as int) =~= want);
            }
        },
        None => {
            proof {
                assert(texts(attrs@) =~= before + Seq::<Seq<char>>::empty());
            }
        },
    }
}

/// The arguments of two lists of attributes read in a row are those of the
/// first list with those of the second taken in.
pub proof fn lemma_merged_args_of_two_lists<T: Args>(
    first: Seq<Attribute<T>>,
    second: Seq<Attribute<T>>,
    name: Seq<char>,
)
    ensures
        merged_args(first + second, name) == T::merge_view(
            merged_args(first, name),
            merged_args(second, name),
        ),
    decreases second.len(),
{
    if second.len() == 0 {
        assert(first + second =~= first);
        T::lemma_empty_is_neutral(merged_args(first, name));
    } else {
        let last = second.last();
        assert((first + second).drop_last() =~= first + second.drop_last());
        assert((first + second).last() == last);
        lemma_merged_args_of_two_lists(first, second.drop_last(), name);
        if last.path.is_ident_spec(name) && last.args is Ok {
            T::lemma_merge_is_associative(
                merged_args(first, name),
                merged_args(second.drop_last(), name),
                last.args->Ok_0@,
            );
        }
    }
}

/// The attributes that two lists hand on, read in a row, are those of the
/// first list and then those of the second.
pub proof fn lemma_kept_attrs_of_two_lists<T>(
    first: Seq<Attribute<T>>,
    second: Seq<Attribute<T>>,
    name: Seq<char>,
    allowed: Option<Seq<String>>,
)
    ensures
        kept_attrs(first + second, name, allowed) == kept_attrs(first, name, allowed) + kept_attrs(
            second,
            name,
            allowed,
        ),
    decreases second.len(),
{
    if second.len() == 0 {
        assert(first + second =~= first);
        assert(kept_attrs(first, name, allowed) + kept_attrs(second, name, allowed) =~= kept_attrs(
            first,
            name,
            allowed,
        ));
    } else {
        assert((first + second).drop_last() =~= first + second.drop_last());
        assert((first + second).last() == second.last());
        lemma_kept_attrs_of_two_lists(first, second.drop_last(), name, allowed);
        let a = kept_attrs(first, name, allowed);
        let b = kept_attrs(second.drop_last(), name, allowed);
        assert((a + b).push(second.last().text@) =~= a + b.push(second.last().text@));
    }
}

} // verus!
