//! The ways in which an item cannot be expanded.
use vstd::prelude::*;
use vstd::string::*;
use crate::text::cat3;

verus! {

/// What an expansion refused.
#[derive(PartialEq, Eq, Structural, Clone, Copy, Debug)]
pub enum ErrorKind {
    /// A wrapper method returns `Self` in a form other than the supported ones.
    UnsupportedWrapperReturn,
    /// A core method returns `Self` in a form other than the supported ones.
    UnsupportedCoreReturn,
    /// A method takes `Self` in a form other than the supported ones.
    UnsupportedParameter,
    /// The `impl` block does not name the expanded type.
    WrongImplType,
    /// The `impl` block names a type that is not a path.
    ImplTypeNotPath,
    /// A struct with lifetime parameters.
    LifetimesNotSupported,
    /// A struct whose fields are not named.
    UnnamedFields,
    /// A trait method returns a tuple with more than one mutable reference.
    MultipleMutableReferences,
    /// A trait method returns a tuple with both kinds of references.
    MixedReferences,
    /// A trait method returns a type that is neither a path nor a reference.
    UnsupportedTraitReturn,
}

/// A refused expansion: what was refused and in which method or item.
pub struct ExpansionError {
    pub kind: ErrorKind,
    pub item: String,
}

/// The error is of `kind` and names `item`.
pub open spec fn error_is(e: ExpansionError, kind: ErrorKind, item: Seq<char>) -> bool {
    e.kind == kind && e.item@ == item
}

/// The text with which an expansion reports the refusal.
pub open spec fn error_message(kind: ErrorKind, item: Seq<char>) -> Seq<char> {
    match kind {
        ErrorKind::UnsupportedWrapperReturn => "The return Type with Self allowed in the "@ + item
            + " \n            function are: Self, &Self, &mut Self,Vec<Self>. Other formats are not supported! Slice "@,
        ErrorKind::UnsupportedCoreReturn => "The return types with Self allowed in the "@ + item
            + " \n    function are: Self, &Self, &mut Self, &[Self].\n    Other formats are not supported!"@,
        ErrorKind::UnsupportedParameter => "The types of parameters with Self allowed in the "@
            + item
            + " function are: Self, &Self, &mut Self, &[Self], Vec<Self>. Other formats are not supported!"@,
        ErrorKind::WrongImplType => "This implementation block is not pointing to the correct type!"@,
        ErrorKind::ImplTypeNotPath => "The implementation type is incorrect! Only Path types should be allowed."@,
        ErrorKind::LifetimesNotSupported => "The warcrwlock macro does not support \"lifetimes\"!"@,
        ErrorKind::UnnamedFields => "Structure fields must be named."@,
        ErrorKind::MultipleMutableReferences => "Error(on "@ + item
            + "):A return tuple cannot have more than one mutable reference."@,
        ErrorKind::MixedReferences => "Error(on "@ + item
            + "):A return tuple cannot have both a mutable reference and an immutable reference."@,
        ErrorKind::UnsupportedTraitReturn => "Only three types of type can be accepted: path and reference."@,
    }
}

impl ExpansionError {
    /// The text with which the expansion reports this refusal.
    pub fn message(&self) -> (r: String)
        ensures
            r@ == error_message(self.kind, self.item@),
    {
        let item = self.item.as_str();
        match self.kind {
            ErrorKind::UnsupportedWrapperReturn => cat3(
                "The return Type with Self allowed in the ",
                item,
                " \n            function are: Self, &Self, &mut Self,Vec<Self>. Other formats are not supported! Slice ",
            ),
            ErrorKind::UnsupportedCoreReturn => cat3(
                "The return types with Self allowed in the ",
                item,
                " \n    function are: Self, &Self, &mut Self, &[Self].\n    Other formats are not supported!",
            ),
            ErrorKind::UnsupportedParameter => cat3(
                "The types of parameters with Self allowed in the ",
                item,
                " function are: Self, &Self, &mut Self, &[Self], Vec<Self>. Other formats are not supported!",
            ),
            ErrorKind::WrongImplType => String::from_str("This implementation block is not pointing to the correct type!"),
            ErrorKind::ImplTypeNotPath => String::from_str("The implementation type is incorrect! Only Path types should be allowed."),
            ErrorKind::LifetimesNotSupported => String::from_str("The warcrwlock macro does not support \"lifetimes\"!"),
            ErrorKind::UnnamedFields => String::from_str("Structure fields must be named."),
            ErrorKind::MultipleMutableReferences => cat3(
                "Error(on ",
                item,
                "):A return tuple cannot have more than one mutable reference.",
            ),
            ErrorKind::MixedReferences => cat3(
                "Error(on ",
                item,
                "):A return tuple cannot have both a mutable reference and an immutable reference.",
            ),
            ErrorKind::UnsupportedTraitReturn => String::from_str("Only three types of type can be accepted: path and reference."),
        }
    }
}

} // verus!
