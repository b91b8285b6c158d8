//! The arguments of `get` on a structure and on a field.

use vstd::prelude::*;

use crate::args::{
    either, first_given, joined, lemma_joined_is_associative, merge_flag, merge_name_args,
    merge_option, name_args_items, Args, ExprPath, Flag, NameArgs, NameValue,
};
use crate::text::clone_strings;
use crate::ty::Type;
use crate::vis::Restricted;

verus! {

/// What `get` says on a structure: the defaults for its fields.
#[derive(Debug)]
pub struct StructArgs {
    pub vis: Option<NameArgs<Option<Restricted>>>,
    pub constness: Flag,
    pub clone: Flag,
    pub copy: Flag,
    pub mutable: Flag,
    pub opt: Flag,
    pub slice: Flag,
    pub mut_slice: Flag,
    pub str: Flag,
    pub mut_str: Flag,
    pub bytes: Flag,
    pub prefix: Option<NameValue<String>>,
    pub suffix: Option<NameValue<String>>,
    /// Further attribute names that are handed on to the generated methods.
    pub attrs: Option<NameArgs<Vec<String>>>,
}

/// `StructArgs` with its list as a sequence.
pub struct StructArgsView {
    pub vis: Option<NameArgs<Option<Restricted>>>,
    pub constness: Flag,
    pub clone: Flag,
    pub copy: Flag,
    pub mutable: Flag,
    pub opt: Flag,
    pub slice: Flag,
    pub mut_slice: Flag,
    pub str: Flag,
    pub mut_str: Flag,
    pub bytes: Flag,
    pub prefix: Option<NameValue<String>>,
    pub suffix: Option<NameValue<String>>,
    pub attrs: Option<Seq<String>>,
}

impl View for StructArgs {
    type V = StructArgsView;

    open spec fn view(&self) -> StructArgsView {
        StructArgsView {
            vis: self.vis,
            constness: self.constness,
            clone: self.clone,
            copy: self.copy,
            mutable: self.mutable,
            opt: self.opt,
            slice: self.slice,
            mut_slice: self.mut_slice,
            str: self.str,
            mut_str: self.mut_str,
            bytes: self.bytes,
            prefix: self.prefix,
            suffix: self.suffix,
            attrs: name_args_items(self.attrs),
        }
    }
}

impl Args for StructArgs {
    open spec fn empty_view() -> StructArgsView {
        StructArgsView {
            vis: None,
            constness: Flag { set: false },
            clone: Flag { set: false },
            copy: Flag { set: false },
            mutable: Flag { set: false },
            opt: Flag { set: false },
            slice: Flag { set: false },
            mut_slice: Flag { set: false },
            str: Flag { set: false },
            mut_str: Flag { set: false },
            bytes: Flag { set: false },
            prefix: None,
            suffix: None,
            attrs: None,
        }
    }

    open spec fn merge_view(before: StructArgsView, other: StructArgsView) -> StructArgsView {
        StructArgsView {
            vis: first_given(before.vis, other.vis),
            constness: either(before.constness, other.constness),
            clone: either(before.clone, other.clone),
            copy: either(before.copy, other.copy),
            mutable: either(before.mutable, other.mutable),
            opt: either(before.opt, other.opt),
            slice: either(before.slice, other.slice),
            mut_slice: either(before.mut_slice, other.mut_slice),
            str: either(before.str, other.str),
            mut_str: either(before.mut_str, other.mut_str),
            bytes: either(before.bytes, other.bytes),
            prefix: first_given(before.prefix, other.prefix),
            suffix: first_given(before.suffix, other.suffix),
            attrs: joined(before.attrs, other.attrs),
        }
    }

    proof fn lemma_empty_is_neutral(v: Self::V) {
    }

    proof fn lemma_merge_is_associative(a: Self::V, b: Self::V, c: Self::V) {
        let left = Self::merge_view(Self::merge_view(a, b), c);
        let right = Self::merge_view(a, Self::merge_view(b, c));
        assert(left.vis == right.vis);
        assert(left.constness == right.constness);
        assert(left.clone == right.clone);
        assert(left.copy == right.copy);
        assert(left.mutable == right.mutable);
        assert(left.opt == right.opt);
        assert(left.slice == right.slice);
        assert(left.mut_slice == right.mut_slice);
        assert(left.str == right.str);
        assert(left.mut_str == right.mut_str);
        assert(left.bytes == right.bytes);
        assert(left.prefix == right.prefix);
        assert(left.suffix == right.suffix);
        assert(left.attrs == right.attrs) by {
            lemma_joined_is_associative(a.attrs, b.attrs, c.attrs);
        }
    }

    fn empty() -> (r: Self) {
        StructArgs {
            vis: None,
            constness: Flag { set: false },
            clone: Flag { set: false },
            copy: Flag { set: false },
            mutable: Flag { set: false },
            opt: Flag { set: false },
            slice: Flag { set: false },
            mut_slice: Flag { set: false },
            str: Flag { set: false },
            mut_str: Flag { set: false },
            bytes: Flag { set: false },
            prefix: None,
            suffix: None,
            attrs: None,
        }
    }

    fn merged(self, other: Self) -> (r: Self) {
        let mut vis = self.vis;
        merge_option(&mut vis, other.vis);
        let mut constness = self.constness;
        merge_flag(&mut constness, other.constness);
        let mut clone = self.clone;
        merge_flag(&mut clone, other.clone);
        let mut copy = self.copy;
        merge_flag(&mut copy, other.copy);
        let mut mutable = self.mutable;
        merge_flag(&mut mutable, other.mutable);
        let mut opt = self.opt;
        merge_flag(&mut opt, other.opt);
        let mut slice = self.slice;
        merge_flag(&mut slice, other.slice);
        let mut mut_slice = self.mut_slice;
        merge_flag(&mut mut_slice, other.mut_slice);
        let mut str = self.str;
        merge_flag(&mut str, other.str);
        let mut mut_str = self.mut_str;
        merge_flag(&mut mut_str, other.mut_str);
        let mut bytes = self.bytes;
        merge_flag(&mut bytes, other.bytes);
        let mut prefix = self.prefix;
        merge_option(&mut prefix, other.prefix);
        let mut suffix = self.suffix;
        merge_option(&mut suffix, other.suffix);
        let mut attrs = self.attrs;
        merge_name_args(&mut attrs, other.attrs);
        StructArgs {
            vis,
            constness,
            clone,
            copy,
            mutable,
            opt,
            slice,
            mut_slice,
            str,
            mut_str,
            bytes,
            prefix,
            suffix,
            attrs,
        }
    }
}

impl StructArgs {
    /// The attribute names that the structure allows besides the well-known ones.
    pub fn allowed_attrs(&self) -> (r: Option<Vec<String>>)
        ensures
            name_args_items(self.attrs) == (match r {
                Some(v) => Some(v@),
                None => None,
            }),
    {
        match &self.attrs {
            Some(arg) => Some(clone_strings(&arg.args)),
            None => None,
        }
    }
}

/// What `get` says on a field.
#[derive(Debug)]
pub struct FieldArgs {
    pub vis: Option<NameArgs<Option<Restricted>>>,
    /// No accessor for this field.
    pub skip: bool,
    pub constness: Option<NameArgs<Option<bool>>>,
    pub clone: Option<NameArgs<Option<bool>>>,
    pub copy: Option<NameArgs<Option<bool>>>,
    pub mutable: Option<NameArgs<Option<bool>>>,
    pub opt: Option<NameArgs<Option<bool>>>,
    pub slice: Option<NameArgs<Option<ExprPath>>>,
    pub mut_slice: Option<NameArgs<Option<ExprPath>>>,
    pub str: Option<NameArgs<Option<ExprPath>>>,
    pub mut_str: Option<NameArgs<Option<ExprPath>>>,
    pub bytes: Option<NameArgs<Option<ExprPath>>>,
    pub borrow: Option<NameArgs<Type>>,
    pub borrow_mut: Option<NameArgs<Type>>,
    pub rename: Option<NameArgs<String>>,
    pub prefix: Option<NameValue<String>>,
    pub suffix: Option<NameValue<String>>,
    /// Attributes to put on the generated methods, each as source text
    /// without the `#[` and `]` around it.
    pub attr: Option<NameArgs<Vec<String>>>,
}

/// `FieldArgs` with its list as a sequence.
pub struct FieldArgsView {
    pub vis: Option<NameArgs<Option<Restricted>>>,
    pub skip: bool,
    pub constness: Option<NameArgs<Option<bool>>>,
    pub clone: Option<NameArgs<Option<bool>>>,
    pub copy: Option<NameArgs<Option<bool>>>,
    pub mutable: Option<NameArgs<Option<bool>>>,
    pub opt: Option<NameArgs<Option<bool>>>,
    pub slice: Option<NameArgs<Option<ExprPath>>>,
    pub mut_slice: Option<NameArgs<Option<ExprPath>>>,
    pub str: Option<NameArgs<Option<ExprPath>>>,
    pub mut_str: Option<NameArgs<Option<ExprPath>>>,
    pub bytes: Option<NameArgs<Option<ExprPath>>>,
    pub borrow: Option<NameArgs<Type>>,
    pub borrow_mut: Option<NameArgs<Type>>,
    pub rename: Option<NameArgs<String>>,
    pub prefix: Option<NameValue<String>>,
    pub suffix: Option<NameValue<String>>,
    pub attr: Option<Seq<String>>,
}

impl View for FieldArgs {
    type V = FieldArgsView;

    open spec fn view(&self) -> FieldArgsView {
        FieldArgsView {
            vis: self.vis,
            skip: self.skip,
            constness: self.constness,
            clone: self.clone,
            copy: self.copy,
            mutable: self.mutable,
            opt: self.opt,
            slice: self.slice,
            mut_slice: self.mut_slice,
            str: self.str,
            mut_str: self.mut_str,
            bytes: self.bytes,
            borrow: self.borrow,
            borrow_mut: self.borrow_mut,
            rename: self.rename,
            prefix: self.prefix,
            suffix: self.suffix,
            attr: name_args_items(self.attr),
        }
    }
}

impl Args for FieldArgs {
    open spec fn empty_view() -> FieldArgsView {
        FieldArgsView {
            vis: None,
            skip: false,
            constness: None,
            clone: None,
            copy: None,
            mutable: None,
            opt: None,
            slice: None,
            mut_slice: None,
            str: None,
            mut_str: None,
            bytes: None,
            borrow: None,
            borrow_mut: None,
            rename: None,
            prefix: None,
            suffix: None,
            attr: None,
        }
    }

    open spec fn merge_view(before: FieldArgsView, other: FieldArgsView) -> FieldArgsView {
        FieldArgsView {
            vis: first_given(before.vis, other.vis),
            skip: before.skip || other.skip,
            constness: first_given(before.constness, other.constness),
            clone: first_given(before.clone, other.clone),
            copy: first_given(before.copy, other.copy),
            mutable: first_given(before.mutable, other.mutable),
            opt: first_given(before.opt, other.opt),
            slice: first_given(before.slice, other.slice),
            mut_slice: first_given(before.mut_slice, other.mut_slice),
            str: first_given(before.str, other.str),
            mut_str: first_given(before.mut_str, other.mut_str),
            bytes: first_given(before.bytes, other.bytes),
            borrow: first_given(before.borrow, other.borrow),
            borrow_mut: first_given(before.borrow_mut, other.borrow_mut),
            rename: first_given(before.rename, other.rename),
            prefix: first_given(before.prefix, other.prefix),
            suffix: first_given(before.suffix, other.suffix),
            attr: joined(before.attr, other.attr),
        }
    }

    proof fn lemma_empty_is_neutral(v: Self::V) {
    }

    proof fn lemma_merge_is_associative(a: Self::V, b: Self::V, c: Self::V) {
        let left = Self::merge_view(Self::merge_view(a, b), c);
        let right = Self::merge_view(a, Self::merge_view(b, c));
        assert(left.vis == right.vis);
        assert(left.skip == right.skip);
        assert(left.constness == right.constness);
        assert(left.clone == right.clone);
        assert(left.copy == right.copy);
        assert(left.mutable == right.mutable);
        assert(left.opt == right.opt);
        assert(left.slice == right.slice);
        assert(left.mut_slice == right.mut_slice);
        assert(left.str == right.str);
        assert(left.mut_str == right.mut_str);
        assert(left.bytes == right.bytes);
        assert(left.borrow == right.borrow);
        assert(left.borrow_mut == right.borrow_mut);
        assert(left.rename == right.rename);
        assert(left.prefix == right.prefix);
        assert(left.suffix == right.suffix);
        assert(left.attr == right.attr) by {
            lemma_joined_is_associative(a.attr, b.attr, c.attr);
        }
    }

    fn empty() -> (r: Self) {
        FieldArgs {
            vis: None,
            skip: false,
            constness: None,
            clone: None,
            copy: None,
            mutable: None,
            opt: None,
            slice: None,
            mut_slice: None,
            str: None,
            mut_str: None,
            bytes: None,
            borrow: None,
            borrow_mut: None,
            rename: None,
            prefix: None,
            suffix: None,
            attr: None,
        }
    }

    fn merged(self, other: Self) -> (r: Self) {
        let mut vis = self.vis;
        merge_option(&mut vis, other.vis);
        let mut skip = self.skip;
        merge::bool::overwrite_false(&mut skip, other.skip);
        let mut constness = self.constness;
        merge_option(&mut constness, other.constness);
        let mut clone = self.clone;
        merge_option(&mut clone, other.clone);
        let mut copy = self.copy;
        merge_option(&mut copy, other.copy);
        let mut mutable = self.mutable;
        merge_option(&mut mutable, other.mutable);
        let mut opt = self.opt;
        merge_option(&mut opt, other.opt);
        let mut slice = self.slice;
        merge_option(&mut slice, other.slice);
        let mut mut_slice = self.mut_slice;
        merge_option(&mut mut_slice, other.mut_slice);
        let mut str = self.str;
        merge_option(&mut str, other.str);
        let mut mut_str = self.mut_str;
        merge_option(&mut mut_str, other.mut_str);
        let mut bytes = self.bytes;
        merge_option(&mut bytes, other.bytes);
        let mut borrow = self.borrow;
        merge_option(&mut borrow, other.borrow);
        let mut borrow_mut = self.borrow_mut;
        merge_option(&mut borrow_mut, other.borrow_mut);
        let mut rename = self.rename;
        merge_option(&mut rename, other.rename);
        let mut prefix = self.prefix;
        merge_option(&mut prefix, other.prefix);
        let mut suffix = self.suffix;
        merge_option(&mut suffix, other.suffix);
        let mut attr = self.attr;
        merge_name_args(&mut attr, other.attr);
        FieldArgs {
            vis,
            skip,
            constness,
            clone,
            copy,
            mutable,
            opt,
            slice,
            mut_slice,
            str,
            mut_str,
            bytes,
            borrow,
            borrow_mut,
            rename,
            prefix,
            suffix,
            attr,
        }
    }
}

/// The function named in an argument, where one is named.
pub open spec fn extract_path_spec(p: &Option<NameArgs<Option<ExprPath>>>) -> Option<&ExprPath> {
    match p {
        Some(arg) => match &arg.args {
            Some(path) => Some(path),
            None => None,
        },
        None => None,
    }
}

/// The function named in an argument, where one is named.
pub fn extract_path(p: &Option<NameArgs<Option<ExprPath>>>) -> (r: Option<&ExprPath>)
    ensures
        r == extract_path_spec(p),
{
    match p {
        Some(arg) => arg.args.as_ref(),
        None => None,
    }
}

/// The type named in an argument, where the argument is given.
pub open spec fn extract_ty_spec(p: &Option<NameArgs<Type>>) -> Option<&Type> {
    match p {
        Some(arg) => Some(&arg.args),
        None => None,
    }
}

impl FieldArgs {
    /// The type to borrow the field as.
    pub fn borrow_ty(&self) -> (r: Option<&Type>)
        ensures
            r == extract_ty_spec(&self.borrow),
    {
        match &self.borrow {
            Some(arg) => Some(&arg.args),
            None => None,
        }
    }

    /// The type to borrow the field as, mutably.
    pub fn borrow_mut_ty(&self) -> (r: Option<&Type>)
        ensures
            r == extract_ty_spec(&self.borrow_mut),
    {
        match &self.borrow_mut {
            Some(arg) => Some(&arg.args),
            None => None,
        }
    }

    /// The function that turns the field into a slice.
    pub fn slice_path(&self) -> (r: Option<&ExprPath>)
        ensures
            r == extract_path_spec(&self.slice),
    {
        extract_path(&self.slice)
    }

    /// The function that turns the field into a mutable slice.
    pub fn mut_slice_path(&self) -> (r: Option<&ExprPath>)
        ensures
            r == extract_path_spec(&self.mut_slice),
    {
        extract_path(&self.mut_slice)
    }

    /// The function that turns the field into a string slice.
    pub fn str_path(&self) -> (r: Option<&ExprPath>)
        ensures
            r == extract_path_spec(&self.str),
    {
        extract_path(&self.str)
    }

    /// The function that turns the field into a mutable string slice.
    pub fn mut_str_path(&self) -> (r: Option<&ExprPath>)
        ensures
            r == extract_path_spec(&self.mut_str),
    {
        extract_path(&self.mut_str)
    }

    /// The function that turns the field into bytes.
    pub fn bytes_path(&self) -> (r: Option<&ExprPath>)
        ensures
            r == extract_path_spec(&self.bytes),
    {
        extract_path(&self.bytes)
    }
}

} // verus!
