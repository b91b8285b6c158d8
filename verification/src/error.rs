//! What can be wrong with the input, and where the message points.

use vstd::prelude::*;

verus! {

/// The place in the input that a message points at.
#[derive(Clone, Copy, Debug, PartialEq, Eq)]
pub enum Span {
    /// The whole input.
    Input,
    /// The attribute at this position in the item's list of attributes.
    Attribute { index: usize },
    /// The accessor or mutator attributes of the field.
    FieldArgs,
    /// The accessor or mutator attributes of the structure.
    StructArgs,
    /// The field.
    Field,
    /// The type of the field.
    FieldType,
}

/// A fault in the input.
#[derive(Debug, PartialEq, Eq)]
pub enum Error {
    /// The arguments of an attribute could not be read.
    InvalidAttribute { name: &'static str, index: usize, message: String },
    /// An accessor was asked for on something that is no structure.
    GetterNotStruct,
    /// A mutator was asked for on something that is no structure.
    SetterNotStruct,
    /// A borrowing accessor without the type to borrow as.
    GetBorrowWithoutType { span: Span },
    /// A mutably borrowing accessor without the type to borrow as.
    GetBorrowMutWithoutType { span: Span },
    /// `bytes` on a type whose bytes only a given function can reach.
    GetBytesWithoutPath,
    /// `opt` on a field of an accessor that is no `Option`.
    GetOptNotOption,
    /// `slice` on a field that is neither a `Vec` nor an array.
    GetSliceNotSlice,
    /// `mut_slice` on a field that is neither a `Vec` nor an array.
    GetMutSliceNotSlice,
    /// `str` on a field that is no `String`.
    GetStrNotString,
    /// `mut_str` on a field that is no `String`.
    GetMutStrNotString,
    /// `opt` on a field of a mutator that is no `Option`.
    SetOptNotOption,
    /// `extend` without an item type on a collection that is not well known.
    SetExtendUnknown,
    /// The inner type of a field that is no `Option` was asked for.
    NotOption,
    /// The element type of a field that is neither a `Vec` nor an array was asked for.
    NotSlice,
}

/// A fault and the field it was found at.
#[derive(Debug, PartialEq, Eq)]
pub struct Fault {
    /// The position of the field; `None` for a fault of the structure itself.
    pub field: Option<usize>,
    pub error: Error,
}

impl Error {
    /// The text of the message.
    pub open spec fn message_spec(&self) -> Seq<char> {
        match self {
            Error::InvalidAttribute { name, index, message } => "invalid #["@ + name@
                + "(..)] attribute, "@ + message@,
            Error::GetterNotStruct => "#[derive(Getter)] can only be applied to structure"@,
            Error::SetterNotStruct => "#[derive(Setter)] can only be applied to structure"@,
            Error::GetBorrowWithoutType { span } =>
                "#[get(borrow(..))] should have a Borrowed type"@,
            Error::GetBorrowMutWithoutType { span } =>
                "#[get(borrow_mut(..))] should have a Borrowed type"@,
            Error::GetBytesWithoutPath =>
                "#[get(bytes(...))] need to specify the function that accesses the bytes"@,
            Error::GetOptNotOption => "#[get(opt)] should be applied to an `Option<T>` type"@,
            Error::GetSliceNotSlice =>
                "#[get(slice)] should be applied to a `Vec<T>` or an array `[T; N]` type"@,
            Error::GetMutSliceNotSlice =>
                "#[get(mut_slice)] should be applied to a `Vec<T>` or an array `[T; N]` type"@,
            Error::GetStrNotString => "#[get(str)] should be applied to a String type"@,
            Error::GetMutStrNotString => "#[get(mut_str)] should be applied to a String type"@,
            Error::SetOptNotOption => "#[set(opt)] should be applied to an `Option<T>` type"@,
            Error::SetExtendUnknown =>
                "#[set(extend)] supports only some of the well-known types,\n#[set(extend(Item))] should be used for a type which implements the `Extend<Item>` trait"@,
            Error::NotOption => "field should be an `Option<T>` type"@,
            Error::NotSlice => "field should be `Vec<T>` or an array `[T; N]` type"@,
        }
    }

    /// The place that the message points at.
    pub open spec fn span_spec(&self) -> Span {
        match self {
            Error::InvalidAttribute { name, index, message } => Span::Attribute { index: *index },
            Error::GetterNotStruct => Span::Input,
            Error::SetterNotStruct => Span::Input,
            Error::GetBorrowWithoutType { span } => *span,
            Error::GetBorrowMutWithoutType { span } => *span,
            _ => Span::FieldType,
        }
    }

    /// The text of the message.
    pub fn message(&self) -> (r: String)
        ensures
            r@ == self.message_spec(),
    {
        match self {
            Error::InvalidAttribute { name, index, message } => {
                let mut s = String::from_str("invalid #[");
                s.append(name);
                s.append("(..)] attribute, ");
                s.append(message.as_str());
                s
            },
            Error::GetterNotStruct => String::from_str(
                "#[derive(Getter)] can only be applied to structure",
            ),
            Error::SetterNotStruct => String::from_str(
                "#[derive(Setter)] can only be applied to structure",
            ),
            Error::GetBorrowWithoutType { span } => String::from_str(
                "#[get(borrow(..))] should have a Borrowed type",
            ),
            Error::GetBorrowMutWithoutType { span } => String::from_str(
                "#[get(borrow_mut(..))] should have a Borrowed type",
            ),
            Error::GetBytesWithoutPath => String::from_str(
                "#[get(bytes(...))] need to specify the function that accesses the bytes",
            ),
            Error::GetOptNotOption => String::from_str(
                "#[get(opt)] should be applied to an `Option<T>` type",
            ),
            Error::GetSliceNotSlice => String::from_str(
                "#[get(slice)] should be applied to a `Vec<T>` or an array `[T; N]` type",
            ),
            Error::GetMutSliceNotSlice => String::from_str(
                "#[get(mut_slice)] should be applied to a `Vec<T>` or an array `[T; N]` type",
            ),
            Error::GetStrNotString => String::from_str(
                "#[get(str)] should be applied to a String type",
            ),
            Error::GetMutStrNotString => String::from_str(
                "#[get(mut_str)] should be applied to a String type",
            ),
            Error::SetOptNotOption => String::from_str(
                "#[set(opt)] should be applied to an `Option<T>` type",
            ),
            Error::SetExtendUnknown => String::from_str(
                "#[set(extend)] supports only some of the well-known types,\n#[set(extend(Item))] should be used for a type which implements the `Extend<Item>` trait",
            ),
            Error::NotOption => String::from_str("field should be an `Option<T>` type"),
            Error::NotSlice => String::from_str(
                "field should be `Vec<T>` or an array `[T; N]` type",
            ),
        }
    }

    /// The place that the message points at.
    pub fn span(&self) -> (r: Span)
        ensures
            r == self.span_spec(),
    {
        match self {
            Error::InvalidAttribute { name, index, message } => Span::Attribute { index: *index },
            Error::GetterNotStruct => Span::Input,
            Error::SetterNotStruct => Span::Input,
            Error::GetBorrowWithoutType { span } => *span,
            Error::GetBorrowMutWithoutType { span } => *span,
            _ => Span::FieldType,
        }
    }
}

} // verus!
