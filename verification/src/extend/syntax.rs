//! What the expansions of this module read of a method and give back for it,
//! their errors, and the checks of generated code that the `syn` parser
//! makes. The parser's answer is not stated: an expansion says what it gives
//! when every check passes, and which texts a refusal can be about.
use vstd::prelude::*;
use vstd::string::*;
use crate::model::SignatureModel;
use crate::text::{cat, cat3, texts};

verus! {

/// Parses `code` with `syn::parse_str::<syn::Stmt>` and tells whether that
/// succeeded. Nothing is claimed of the answer: inside a procedural macro the
/// text is lexed by the compiler, elsewhere by `proc-macro2`'s own lexer, and
/// the two need not agree.
#[verifier::external_body]
pub(crate) fn parses_as_statement(code: &str) -> bool {
    syn::parse_str::<syn::Stmt>(code).is_ok()
}

/// Parses `code` with `syn::parse_str::<syn::Type>` and tells whether that
/// succeeded. Nothing is claimed of the answer, for the same reason.
#[verifier::external_body]
pub(crate) fn parses_as_type(code: &str) -> bool {
    syn::parse_str::<syn::Type>(code).is_ok()
}

/// Parses `code` with `syn::parse_str::<syn::File>` and tells whether that
/// succeeded. Nothing is claimed of the answer, for the same reason.
#[verifier::external_body]
pub(crate) fn parses_as_file(code: &str) -> bool {
    syn::parse_str::<syn::File>(code).is_ok()
}

/// What went wrong in an expansion.
#[derive(PartialEq, Eq, Structural, Clone, Copy, Debug)]
pub enum ExtendErrorKind {
    /// A statement of a method's body does not parse once the type's name is
    /// replaced by `Self`.
    IncorrectStatement,
    /// A generated statement does not parse.
    StatementConstruction,
    /// A generated type does not parse.
    TypeConstruction,
    /// A generated file does not parse.
    FileConstruction,
}

/// An error of an expansion: its kind, the text that did not parse, and the
/// name of the method it belongs to (empty where none is named).
pub struct ExtendError {
    pub kind: ExtendErrorKind,
    pub text: String,
    pub method: String,
}

/// An error as plain values: its kind, the text and the method's name.
pub type ErrorView = (ExtendErrorKind, Seq<char>, Seq<char>);

/// The error as plain values.
pub open spec fn error_view(e: ExtendError) -> (ExtendErrorKind, Seq<char>, Seq<char>) {
    (e.kind, e.text@, e.method@)
}

/// The error is `e`.
pub open spec fn error_matches(x: ExtendError, e: ErrorView) -> bool {
    x.kind == e.0 && x.text@ =~= e.1 && x.method@ =~= e.2
}

/// The message of an error.
pub open spec fn extend_message(kind: ExtendErrorKind, text: Seq<char>, method: Seq<char>) -> Seq<
    char,
> {
    match kind {
        ExtendErrorKind::IncorrectStatement => "The statement("@ + text + ") is incorrect in \""@
            + method + "\" method!"@,
        ExtendErrorKind::StatementConstruction => "Failure in the construction of statement:\n"@
            + text,
        ExtendErrorKind::TypeConstruction => "Failure in the construction of type:\n"@ + text,
        ExtendErrorKind::FileConstruction => "Failure in the construction of file:\n"@ + text,
    }
}

impl ExtendError {
    /// An error of `kind` about `text` in the method named `method`.
    pub fn new(kind: ExtendErrorKind, text: &str, method: &str) -> (r: Self)
        ensures
            error_view(r) == (kind, text@, method@),
    {
        ExtendError { kind, text: String::from_str(text), method: String::from_str(method) }
    }

    /// The message of the error.
    pub fn message(&self) -> (r: String)
        ensures
            r@ == extend_message(self.kind, self.text@, self.method@),
    {
        match self.kind {
            ExtendErrorKind::IncorrectStatement => {
                let a = cat3("The statement(", self.text.as_str(), ") is incorrect in \"");
                cat3(a.as_str(), self.method.as_str(), "\" method!")
            },
            ExtendErrorKind::StatementConstruction => cat(
                "Failure in the construction of statement:\n",
                self.text.as_str(),
            ),
            ExtendErrorKind::TypeConstruction => cat(
                "Failure in the construction of type:\n",
                self.text.as_str(),
            ),
            ExtendErrorKind::FileConstruction => cat(
                "Failure in the construction of file:\n",
                self.text.as_str(),
            ),
        }
    }
}

/// The statement that `code` reads as: `code` itself when the parser takes
/// it, the refusal of `code` otherwise.
pub fn str_to_stmt(code: &str) -> (r: Result<String, ExtendError>)
    ensures
        match r {
            Ok(x) => x@ == code@,
            Err(x) => error_matches(x, (ExtendErrorKind::StatementConstruction, code@, seq![])),
        },
{
    if parses_as_statement(code) {
        Ok(String::from_str(code))
    } else {
        proof {
            reveal_strlit("");
        }
        Err(ExtendError::new(ExtendErrorKind::StatementConstruction, code, ""))
    }
}

/// A method of an `impl` block: its signature and the text of each statement
/// of its body.
pub struct MethodModel {
    pub sig: SignatureModel,
    pub stmts: Vec<String>,
}

/// An item of an `impl` block: a method, or anything else.
pub enum ImplEntry {
    Fn(MethodModel),
    Other,
}

/// An item of a rebuilt `impl` block: the item at `source` of the block as
/// it is written, or that method with its body replaced by `stmts` and, when
/// `self_output` holds, its return type replaced by `Self`.
pub enum RebuiltItem {
    Same(usize),
    Rewritten { source: usize, self_output: bool, stmts: Vec<String> },
}

/// A rebuilt item as plain values.
pub enum RebuiltView {
    Same(nat),
    Rewritten(nat, bool, Seq<Seq<char>>),
}

impl View for RebuiltItem {
    type V = RebuiltView;

    open spec fn view(&self) -> RebuiltView {
        match self {
            RebuiltItem::Same(i) => RebuiltView::Same(*i as nat),
            RebuiltItem::Rewritten { source, self_output, stmts } => RebuiltView::Rewritten(
                *source as nat,
                *self_output,
                texts(stmts@),
            ),
        }
    }
}

/// The plain values of a list of rebuilt items.
pub open spec fn rebuilt_views(v: Seq<RebuiltItem>) -> Seq<RebuiltView> {
    v.map_values(|x: RebuiltItem| x@)
}

/// Appends the items of `other` to `v`.
pub fn append_rebuilt(v: &mut Vec<RebuiltItem>, other: Vec<RebuiltItem>)
    ensures
        rebuilt_views(final(v)@) == rebuilt_views(old(v)@) + rebuilt_views(other@),
{
    let mut other = other;
    let ghost o = other@;
    v.append(&mut other);
    assert(rebuilt_views(v@) =~= rebuilt_views(old(v)@) + rebuilt_views(o));
}

/// Appends `x` to `v`.
pub fn push_rebuilt(v: &mut Vec<RebuiltItem>, x: RebuiltItem)
    ensures
        rebuilt_views(final(v)@) == rebuilt_views(old(v)@).push(x@),
{
    let ghost xv = x@;
    v.push(x);
    assert(rebuilt_views(v@) =~= rebuilt_views(old(v)@).push(xv));
}

} // verus!
