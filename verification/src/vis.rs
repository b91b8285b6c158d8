//! Visibility of a generated method.

use vstd::prelude::*;
use vstd::std_specs::convert::FromSpecImpl;

use crate::args::NameArgs;

verus! {

/// A restriction written in the parentheses of `pub(..)`.
#[derive(Debug)]
pub enum Restricted {
    PubSelf,
    PubSuper,
    PubCrate,
    PubInModule { path: String },
}

/// The visibility of an item.
#[derive(Debug)]
pub enum Visibility {
    /// `pub`
    Public,
    /// `pub(..)`
    Restricted(Restricted),
    /// Nothing written: private.
    Inherited,
}

impl Clone for Restricted {
    fn clone(&self) -> (r: Self)
        ensures
            r == *self,
    {
        match self {
            Restricted::PubSelf => Restricted::PubSelf,
            Restricted::PubSuper => Restricted::PubSuper,
            Restricted::PubCrate => Restricted::PubCrate,
            Restricted::PubInModule { path } => Restricted::PubInModule { path: path.clone() },
        }
    }
}

impl Clone for Visibility {
    fn clone(&self) -> (r: Self)
        ensures
            r == *self,
    {
        match self {
            Visibility::Public => Visibility::Public,
            Visibility::Restricted(r) => Visibility::Restricted(r.clone()),
            Visibility::Inherited => Visibility::Inherited,
        }
    }
}

impl From<Restricted> for Visibility {
    fn from(restricted: Restricted) -> (r: Self) {
        Visibility::Restricted(restricted)
    }
}

impl FromSpecImpl<Restricted> for Visibility {
    open spec fn obeys_from_spec() -> bool {
        true
    }

    open spec fn from_spec(restricted: Restricted) -> Self {
        Visibility::Restricted(restricted)
    }
}

/// The keyword that opens a restriction, and the form it announces.
pub enum Keyword {
    SelfValue,
    Super,
    Crate,
    In,
}

impl Restricted {
    /// The restriction that `word` opens, if it opens one.
    pub open spec fn keyword_spec(word: Seq<char>) -> Option<Keyword> {
        if word == "self"@ {
            Some(Keyword::SelfValue)
        } else if word == "super"@ {
            Some(Keyword::Super)
        } else if word == "crate"@ {
            Some(Keyword::Crate)
        } else if word == "in"@ {
            Some(Keyword::In)
        } else {
            None
        }
    }

    /// The restriction that a first word and, after `in`, a path stand for.
    pub open spec fn parse_spec(word: Seq<char>, path: Option<String>) -> Option<Restricted> {
        match Self::keyword_spec(word) {
            Some(Keyword::SelfValue) => Some(Restricted::PubSelf),
            Some(Keyword::Super) => Some(Restricted::PubSuper),
            Some(Keyword::Crate) => Some(Restricted::PubCrate),
            Some(Keyword::In) => match path {
                Some(path) => Some(Restricted::PubInModule { path }),
                None => None,
            },
            None => None,
        }
    }

    /// Which restriction the word `word` opens: `self`, `super`, `crate` or
    /// `in`; `None` for any other word.
    pub fn keyword(word: &str) -> (r: Option<Keyword>)
        ensures
            r == Self::keyword_spec(word@),
    {
        if word.eq("self") {
            Some(Keyword::SelfValue)
        } else if word.eq("super") {
            Some(Keyword::Super)
        } else if word.eq("crate") {
            Some(Keyword::Crate)
        } else if word.eq("in") {
            Some(Keyword::In)
        } else {
            None
        }
    }

    /// Reads a restriction from its first word and, for `in`, the path that
    /// follows it. `None` where the word opens no restriction, or where `in`
    /// comes without a path.
    pub fn parse(word: &str, path: Option<String>) -> (r: Option<Restricted>)
        ensures
            r == Self::parse_spec(word@, path),
    {
        match Self::keyword(word) {
            Some(Keyword::SelfValue) => Some(Restricted::PubSelf),
            Some(Keyword::Super) => Some(Restricted::PubSuper),
            Some(Keyword::Crate) => Some(Restricted::PubCrate),
            Some(Keyword::In) => match path {
                Some(path) => Some(Restricted::PubInModule { path }),
                None => None,
            },
            None => None,
        }
    }

    /// The words one of which must open a restriction, as an error message says it.
    pub fn expected() -> (r: String)
        ensures
            r@ == "expected one of: `self`, `super`, `crate`, `in`"@,
    {
        String::from_str("expected one of: `self`, `super`, `crate`, `in`")
    }
}

/// The visibility that an argument `pub` or `pub(..)` asks for.
pub open spec fn as_visibility_spec(arg: Option<&NameArgs<Option<Restricted>>>) -> Option<
    Visibility,
> {
    match arg {
        Some(a) => match a.args {
            Some(r) => Some(Visibility::Restricted(r)),
            None => Some(Visibility::Public),
        },
        None => None,
    }
}

/// An argument that may ask for a visibility.
pub trait AsVisibility {
    /// The visibility asked for, if any.
    spec fn visibility_spec(&self) -> Option<Visibility>;

    /// The visibility asked for: `pub` alone is public, `pub(..)` is the
    /// restriction in its parentheses; `None` where the argument is absent.
    fn as_visibility(&self) -> (r: Option<Visibility>)
        ensures
            r == self.visibility_spec(),
    ;
}

impl AsVisibility for Option<&NameArgs<Option<Restricted>>> {
    open spec fn visibility_spec(&self) -> Option<Visibility> {
        as_visibility_spec(*self)
    }

    fn as_visibility(&self) -> (r: Option<Visibility>) {
        match self {
            Some(a) => match &a.args {
                Some(r) => Some(Visibility::from(r.clone())),
                None => Some(Visibility::Public),
            },
            None => None,
        }
    }
}

impl Visibility {
    /// How the visibility is written in front of an item, with a space after
    /// it where anything is written.
    pub open spec fn text_spec(&self) -> Seq<char> {
        match self {
            Visibility::Public => "pub "@,
            Visibility::Restricted(Restricted::PubSelf) => "pub(self) "@,
            Visibility::Restricted(Restricted::PubSuper) => "pub(super) "@,
            Visibility::Restricted(Restricted::PubCrate) => "pub(crate) "@,
            Visibility::Restricted(Restricted::PubInModule { path }) => "pub(in "@ + path@ + ") "@,
            Visibility::Inherited => Seq::empty(),
        }
    }

    /// The visibility as source text.
    pub fn text(&self) -> (r: String)
        ensures
            r@ == self.text_spec(),
    {
        match self {
            Visibility::Public => String::from_str("pub "),
            Visibility::Restricted(Restricted::PubSelf) => String::from_str("pub(self) "),
            Visibility::Restricted(Restricted::PubSuper) => String::from_str("pub(super) "),
            Visibility::Restricted(Restricted::PubCrate) => String::from_str("pub(crate) "),
            Visibility::Restricted(Restricted::PubInModule { path }) => {
                let mut s = String::from_str("pub(in ");
                s.append(path.as_str());
                s.append(") ");
                s
            },
            Visibility::Inherited => String::new(),
        }
    }
}

} // verus!
