//! The methods that are generated, and how they are written out.

use vstd::prelude::*;

use crate::text::texts;
use crate::vis::Visibility;

verus! {

/// A method.
#[derive(Debug)]
pub struct ItemFn {
    /// The attributes in front of it, each as source text.
    pub attrs: Vec<String>,
    pub vis: Visibility,
    pub constness: bool,
    pub ident: String,
    /// The generic parameters with their angle brackets, or nothing.
    pub generics: String,
    /// What stands between the round brackets.
    pub inputs: String,
    /// The type that is returned.
    pub output: String,
    /// The bounds after `where`, if there are any.
    pub where_clause: Option<String>,
    /// What stands between the braces.
    pub block: String,
}

/// A method, with its texts as sequences of characters.
pub struct ItemFnView {
    pub attrs: Seq<Seq<char>>,
    pub vis: Visibility,
    pub constness: bool,
    pub ident: Seq<char>,
    pub generics: Seq<char>,
    pub inputs: Seq<char>,
    pub output: Seq<char>,
    pub where_clause: Option<Seq<char>>,
    pub block: Seq<char>,
}

impl View for ItemFn {
    type V = ItemFnView;

    open spec fn view(&self) -> ItemFnView {
        ItemFnView {
            attrs: texts(self.attrs@),
            vis: self.vis,
            constness: self.constness,
            ident: self.ident@,
            generics: self.generics@,
            inputs: self.inputs@,
            output: self.output@,
            where_clause: match self.where_clause {
                Some(w) => Some(w@),
                None => None,
            },
            block: self.block@,
        }
    }
}

/// The texts of `lines`, each followed by a line break.
pub open spec fn lines_text(lines: Seq<Seq<char>>) -> Seq<char>
    decreases lines.len(),
{
    if lines.len() == 0 {
        Seq::empty()
    } else {
        lines_text(lines.drop_last()) + lines.last() + "\n"@
    }
}

impl ItemFnView {
    /// The method's header up to its name.
    pub open spec fn head_text(&self) -> Seq<char> {
        lines_text(self.attrs) + "#[inline(always)]\n"@ + self.vis.text_spec() + (if self.constness
        {
            "const "@
        } else {
            Seq::empty()
        }) + "fn "@ + self.ident
    }

    /// The method's header from its generic parameters on.
    pub open spec fn signature_text(&self) -> Seq<char> {
        self.generics + "("@ + self.inputs + ") -> "@ + self.output + (match self.where_clause {
            Some(w) => " where "@ + w,
            None => Seq::empty(),
        })
    }

    /// The method as source text.
    pub open spec fn text(&self) -> Seq<char> {
        self.head_text() + self.signature_text() + " { "@ + self.block + " }\n"@
    }
}

/// The texts of `list`, each followed by a line break.
pub fn lines(list: &Vec<String>) -> (r: String)
    ensures
        r@ == lines_text(texts(list@)),
{
    let ghost all = texts(list@);
    let mut out = String::new();
    let mut i: usize = 0;
    while i < list.len()
        invariant
            i <= list.len(),
            all == texts(list@),
            out@ == lines_text(all.take(i as int)),
        decreases list.len() - i,
    {
        proof {
            assert(all.take(i + 1).drop_last() =~= all.take(i as int));
        }
        out.append(list[i].as_str());
        out.append("\n");
        i += 1;
    }
    proof {
        assert(all.take(i as int) =~= all);
    }
    out
}

impl ItemFn {
    /// The method as source text: its attributes, one on each line, then
    /// `#[inline(always)]`, then the method on one line.
    pub fn to_text(&self) -> (r: String)
        ensures
            r@ == self@.text(),
    {
        let mut out = lines(&self.attrs);
        out.append("#[inline(always)]\n");
        out.append(self.vis.text().as_str());
        if self.constness {
            out.append("const ");
        }
        out.append("fn ");
        out.append(self.ident.as_str());
        assert(out@ == self@.head_text());
        out.append(self.generics.as_str());
        out.append("(");
        out.append(self.inputs.as_str());
        out.append(") -> ");
        out.append(self.output.as_str());
        match &self.where_clause {
            Some(w) => {
                out.append(" where ");
                out.append(w.as_str());
            },
            None => {},
        }
        assert(out@ =~= self@.head_text() + self@.signature_text());
        out.append(" { ");
        out.append(self.block.as_str());
        out.append(" }\n");
        out
    }
}

/// The methods of a list, each with its texts as sequences of characters.
pub open spec fn item_views(items: Seq<ItemFn>) -> Seq<ItemFnView> {
    items.map_values(|f: ItemFn| f@)
}

/// The texts of the methods of a list, one after the other.
pub open spec fn items_text(items: Seq<ItemFnView>) -> Seq<char>
    decreases items.len(),
{
    if items.len() == 0 {
        Seq::empty()
    } else {
        items_text(items.drop_last()) + items.last().text()
    }
}

/// An `impl` block for a structure.
#[derive(Debug)]
pub struct ItemImpl {
    /// The generic parameters after `impl`, with their angle brackets, or nothing.
    pub impl_generics: String,
    /// The name of the structure.
    pub ident: String,
    /// The generic arguments after the name, with their angle brackets, or nothing.
    pub ty_generics: String,
    /// The bounds after `where`, if there are any.
    pub where_clause: Option<String>,
    pub items: Vec<ItemFn>,
}

impl ItemImpl {
    /// The line that opens the block.
    pub open spec fn head_text(&self) -> Seq<char> {
        "impl"@ + self.impl_generics@ + " "@ + self.ident@ + self.ty_generics@ + (
        match self.where_clause {
            Some(w) => " where "@ + w@,
            None => Seq::empty(),
        }) + " {\n"@
    }

    /// The block as source text.
    pub open spec fn text(&self) -> Seq<char> {
        self.head_text() + items_text(item_views(self.items@)) + "}\n"@
    }

    /// The block as source text: the opening line, the methods, the closing brace.
    pub fn to_text(&self) -> (r: String)
        ensures
            r@ == self.text(),
    {
        let mut out = String::from_str("impl");
        out.append(self.impl_generics.as_str());
        out.append(" ");
        out.append(self.ident.as_str());
        out.append(self.ty_generics.as_str());
        match &self.where_clause {
            Some(w) => {
                out.append(" where ");
                out.append(w.as_str());
            },
            None => {},
        }
        out.append(" {\n");
        assert(out@ =~= self.head_text());
        let ghost all = item_views(self.items@);
        let mut i: usize = 0;
        while i < self.items.len()
            invariant
                i <= self.items.len(),
                all == item_views(self.items@),
                out@ == self.head_text() + items_text(all.take(i as int)),
            decreases self.items.len() - i,
        {
            proof {
                assert(all.take(i + 1).drop_last() =~= all.take(i as int));
            }
            let text = self.items[i].to_text();
            out.append(text.as_str());
            assert(out@ =~= self.head_text() + items_text(all.take(i + 1)));
            i += 1;
        }
        proof {
            assert(all.take(i as int) =~= all);
        }
        out.append("}\n");
        out
    }
}

} // verus!
