//! The shape of a field's type, as far as the choice of a method depends on it.

use vstd::prelude::*;

verus! {

/// One argument between the angle brackets of a path segment.
#[derive(Debug)]
pub enum GenericArgument {
    /// A type, as in `Vec<T>`.
    Type(Type),
    /// A lifetime, a constant or a binding.
    Other,
}

/// What follows the name in the last segment of a path.
#[derive(Debug)]
pub enum PathArguments {
    /// Nothing, as in `String`.
    Empty,
    /// Arguments in angle brackets, as in `Vec<u8>`.
    AngleBracketed { args: Vec<GenericArgument> },
    /// Arguments in round brackets, as in `Fn(u8) -> u8`.
    Parenthesized,
}

/// The last segment of a path: its name and its arguments.
#[derive(Debug)]
pub struct PathSegment {
    pub ident: String,
    pub arguments: PathArguments,
}

/// How a type is written.
#[derive(Debug)]
pub enum TypeKind {
    /// A path such as `std::vec::Vec<u8>`; `qself` says whether it starts
    /// with a qualified self type, `last` is its last segment.
    Path { qself: bool, last: Option<PathSegment> },
    /// A reference `&T` or `&mut T`.
    Reference { elem: Box<Type> },
    /// An array `[T; N]`.
    Array { elem: Box<Type> },
    /// Any other form.
    Other,
}

/// A type: its source text and its shape.
#[derive(Debug)]
pub struct Type {
    pub text: String,
    pub kind: TypeKind,
}

/// `str`'s `==`: two strings are equal exactly where their characters are.
pub assume_specification[ <str as PartialEq>::eq ](a: &str, b: &str) -> (r: bool)
    ensures
        r == (a@ == b@),
;

/// Whether two strings hold the same characters.
pub fn str_eq(a: &str, b: &str) -> (r: bool)
    ensures
        r == (a@ == b@),
{
    a.eq(b)
}

/// The characters of each name of a list.
pub open spec fn names_view(names: Seq<&str>) -> Seq<Seq<char>> {
    names.map_values(|s: &str| s@)
}

/// The type arguments among `args`, in their order.
pub open spec fn type_args<'a>(args: Seq<GenericArgument>) -> Seq<&'a Type>
    decreases args.len(),
{
    if args.len() == 0 {
        Seq::empty()
    } else {
        match args.last() {
            GenericArgument::Type(t) => type_args(args.drop_last()).push(&t),
            GenericArgument::Other => type_args(args.drop_last()),
        }
    }
}

/// The last segment of a plain path type: one that has no qualified self type.
pub open spec fn last_segment(ty: &Type) -> Option<PathSegment> {
    match ty.kind {
        TypeKind::Path { qself, last } => if qself {
            None
        } else {
            last
        },
        _ => None,
    }
}

/// The type arguments of `ty`, where `ty` is a plain path type whose last
/// segment bears one of `names` and has arguments in angle brackets.
pub open spec fn generic_args_ty_spec(ty: &Type, names: Seq<Seq<char>>) -> Option<Seq<&Type>> {
    match last_segment(ty) {
        Some(seg) => if names.contains(seg.ident@) {
            match seg.arguments {
                PathArguments::AngleBracketed { args } => Some(type_args(args@)),
                _ => None,
            }
        } else {
            None
        },
        None => None,
    }
}

/// Questions about the shape of a type.
pub trait TypeExt {
    /// Whether this is a plain path type whose last segment is called `name`.
    spec fn is_ty_spec(&self, name: Seq<char>) -> bool;

    /// Whether this is a reference to a type that `is_ty_spec` accepts under `name`.
    spec fn is_ref_ty_spec(&self, name: Seq<char>) -> bool;

    /// The type behind a reference.
    spec fn ref_elem_ty_spec(&self) -> Option<&Type>;

    /// The element type of an array.
    spec fn array_elem_ty_spec(&self) -> Option<&Type>;

    /// The first type argument of a plain path type called `name`.
    spec fn inner_ty_spec(&self, name: Seq<char>) -> Option<&Type>;

    /// The first type argument of `Vec<..>`, or else the element type of an array.
    spec fn slice_inner_ty_spec(&self) -> Option<&Type>;

    /// Whether this is a plain path type whose last segment is called `name`.
    fn is_ty(&self, name: &str) -> (r: bool)
        ensures
            r == self.is_ty_spec(name@),
    ;

    /// Whether this is a reference to a type that `is_ty` accepts under `name`.
    fn is_ref_ty(&self, name: &str) -> (r: bool)
        ensures
            r == self.is_ref_ty_spec(name@),
    ;

    /// Whether this is `String`.
    fn is_string(&self) -> (r: bool)
        ensures
            r == self.is_ty_spec("String"@),
    ;

    /// Whether this is `&String`.
    fn is_ref_string(&self) -> (r: bool)
        ensures
            r == self.is_ref_ty_spec("String"@),
    ;

    /// Whether this is `&str`.
    fn is_str(&self) -> (r: bool)
        ensures
            r == self.is_ref_ty_spec("str"@),
    ;

    /// The type behind a reference.
    fn ref_elem_ty(&self) -> (r: Option<&Type>)
        ensures
            r == self.ref_elem_ty_spec(),
    ;

    /// The element type of an array.
    fn array_elem_ty(&self) -> (r: Option<&Type>)
        ensures
            r == self.array_elem_ty_spec(),
    ;

    /// The first type argument of `Option<..>`.
    fn option_inner_ty(&self) -> (r: Option<&Type>)
        ensures
            r == self.inner_ty_spec("Option"@),
    ;

    /// The first type argument of `Vec<..>`, or else the element type of an array.
    fn slice_inner_ty(&self) -> (r: Option<&Type>)
        ensures
            r == self.slice_inner_ty_spec(),
    ;

    /// The first type argument of a plain path type called `name`.
    fn inner_ty(&self, name: &str) -> (r: Option<&Type>)
        ensures
            r == self.inner_ty_spec(name@),
    ;
}

impl TypeExt for Type {
    open spec fn is_ty_spec(&self, name: Seq<char>) -> bool {
        match last_segment(self) {
            Some(s) => s.ident@ == name,
            None => false,
        }
    }

    open spec fn is_ref_ty_spec(&self, name: Seq<char>) -> bool {
        match self.kind {
            TypeKind::Reference { elem } => elem.is_ty_spec(name),
            _ => false,
        }
    }

    open spec fn ref_elem_ty_spec(&self) -> Option<&Type> {
        match &self.kind {
            TypeKind::Reference { elem } => Some(&**elem),
            _ => None,
        }
    }

    open spec fn array_elem_ty_spec(&self) -> Option<&Type> {
        match &self.kind {
            TypeKind::Array { elem } => Some(&**elem),
            _ => None,
        }
    }

    open spec fn inner_ty_spec(&self, name: Seq<char>) -> Option<&Type> {
        match generic_args_ty_spec(self, seq![name]) {
            Some(args) => if args.len() > 0 {
                Some(args[0])
            } else {
                None
            },
            None => None,
        }
    }

    open spec fn slice_inner_ty_spec(&self) -> Option<&Type> {
        match self.inner_ty_spec("Vec"@) {
            Some(t) => Some(t),
            None => self.array_elem_ty_spec(),
        }
    }

    fn is_ty(&self, name: &str) -> (r: bool) {
        match &self.kind {
            TypeKind::Path { qself, last } => {
                if *qself {
                    false
                } else {
                    match last {
                        Some(s) => str_eq(s.ident.as_str(), name),
                        None => false,
                    }
                }
            },
            _ => false,
        }
    }

    fn is_ref_ty(&self, name: &str) -> (r: bool) {
        match &self.kind {
            TypeKind::Reference { elem } => elem.is_ty(name),
            _ => false,
        }
    }

    fn is_string(&self) -> (r: bool) {
        self.is_ty("String")
    }

    fn is_ref_string(&self) -> (r: bool) {
        self.is_ref_ty("String")
    }

    fn is_str(&self) -> (r: bool) {
        self.is_ref_ty("str")
    }

    fn ref_elem_ty(&self) -> (r: Option<&Type>) {
        match &self.kind {
            TypeKind::Reference { elem } => Some(&**elem),
            _ => None,
        }
    }

    fn array_elem_ty(&self) -> (r: Option<&Type>) {
        match &self.kind {
            TypeKind::Array { elem } => Some(&**elem),
            _ => None,
        }
    }

    fn option_inner_ty(&self) -> (r: Option<&Type>) {
        self.inner_ty("Option")
    }

    fn slice_inner_ty(&self) -> (r: Option<&Type>) {
        match self.inner_ty("Vec") {
            Some(t) => Some(t),
            None => self.array_elem_ty(),
        }
    }

    fn inner_ty(&self, name: &str) -> (r: Option<&Type>) {
        let names = vec![name];
        proof {
            assert(names_view(names@) =~= seq![name@]);
        }
        match generic_args_ty(self, names.as_slice()) {
            Some(args) => if args.len() > 0 {
                Some(args[0])
            } else {
                None
            },
            None => None,
        }
    }
}

/// Whether `ident` is one of `names`.
pub fn contains_name(names: &[&str], ident: &str) -> (r: bool)
    ensures
        r == names_view(names@).contains(ident@),
{
    let mut i: usize = 0;
    while i < names.len()
        invariant
            i <= names.len(),
            forall|j: int| 0 <= j < i ==> names_view(names@)[j] != ident@,
        decreases names.len() - i,
    {
        if str_eq(names[i], ident) {
            assert(names_view(names@)[i as int] == ident@);
            return true;
        }
        i += 1;
    }
    false
}

/// The type arguments of `ty`, where `ty` is a plain path type whose last
/// segment bears one of `names` and has arguments in angle brackets; `None`
/// for every other type.
pub fn generic_args_ty<'a>(ty: &'a Type, names: &[&str]) -> (r: Option<Vec<&'a Type>>)
    ensures
        match r {
            Some(v) => generic_args_ty_spec(ty, names_view(names@)) == Some(v@),
            None => generic_args_ty_spec(ty, names_view(names@)) is None,
        },
{
    match &ty.kind {
        TypeKind::Path { qself, last } => {
            if *qself {
                return None;
            }
            match last {
                Some(seg) => {
                    if !contains_name(names, seg.ident.as_str()) {
                        return None;
                    }
                    match &seg.arguments {
                        PathArguments::AngleBracketed { args } => {
                            let mut out: Vec<&Type> = Vec::new();
                            let mut i: usize = 0;
                            while i < args.len()
                                invariant
                                    i <= args.len(),
                                    out@ == type_args(args@.take(i as int)),
                                decreases args.len() - i,
                            {
                                proof {
                                    assert(args@.take(i + 1).drop_last() =~= args@.take(i as int));
                                }
                                match &args[i] {
                                    GenericArgument::Type(t) => {
                                        out.push(t);
                                    },
                                    GenericArgument::Other => {},
                                }
                                i += 1;
                            }
                            proof {
                                assert(args@.take(i as int) =~= args@);
                            }
                            Some(out)
                        },
                        _ => None,
                    }
                },
                None => None,
            }
        },
        _ => None,
    }
}

} // verus!
