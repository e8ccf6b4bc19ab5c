//! The part of a derive input that the settings derives read: the item's
//! name and the shape of its body.

use vstd::prelude::*;

verus! {

/// The shape of the body of an item handed to a derive.
#[derive(Clone, Copy, Debug, PartialEq, Eq, Structural)]
pub enum DataShape {
    /// `struct S { a: A, .. }`
    NamedStruct,
    /// `struct S(A, ..);`
    TupleStruct,
    /// `struct S;`
    UnitStruct,
    /// `enum E { .. }`
    Enum,
    /// `union U { .. }`
    Union,
}

/// An item handed to a derive, as the expansions see it.
#[derive(Debug)]
pub struct DeriveShape {
    pub ident: String,
    pub data: DataShape,
}

/// The mathematical model of a `DeriveShape`.
pub ghost struct DeriveShapeView {
    pub ident: Seq<char>,
    pub data: DataShape,
}

impl View for DeriveShape {
    type V = DeriveShapeView;

    open spec fn view(&self) -> DeriveShapeView {
        DeriveShapeView { ident: self.ident@, data: self.data }
    }
}

/// Why a derive produced no code.
#[derive(Debug)]
pub enum DeriveError {
    /// The input is not the source text of a Rust item; `message` is the
    /// parser's account of the first problem.
    Parse { message: String },
    /// The item has a body of a shape that the derive does not support.
    UnsupportedShape { observed: DataShape },
}

/// What `syn` makes of an item's source text when the text is lexed by
/// proc-macro2's own lexer: `None` where the text is not a struct, enum or
/// union definition, else the item's name (as written) and body shape.
pub uninterp spec fn syn_derive_input(text: Seq<char>) -> Option<DeriveShapeView>;

/// `shape` is what `syn` reads from `text`: the text is an item with
/// `shape`'s name and body shape.
pub open spec fn reads_as(text: Seq<char>, shape: DeriveShapeView) -> bool {
    syn_derive_input(text) == Some(shape)
}

#[verifier::external_type_specification]
#[verifier::external_body]
pub struct ExSynError(syn::Error);

/// Calls `syn::parse_str::<syn::DeriveInput>` on `text` with proc-macro2
/// held to its own lexer for the call (`proc_macro2::fallback::force`
/// before, `proc_macro2::fallback::unforce` after, which returns to the
/// lexer that proc-macro2 detects; a `force` in effect before the call is
/// undone too), and keeps the parsed item's `ident` (as text) and which
/// variant its `data` is. Claimed: with the lexer fixed, the outcome is a
/// function of the text alone, named `syn_derive_input`.
#[verifier::external_body]
fn parse_with_syn(text: &str) -> (res: Result<DeriveShape, syn::Error>)
    ensures
        res is Ok <==> syn_derive_input(text@) is Some,
        res matches Ok(shape) ==> syn_derive_input(text@) == Some(shape@),
{
    proc_macro2::fallback::force();
    let parsed = syn::parse_str::<syn::DeriveInput>(text);
    proc_macro2::fallback::unforce();
    let input = parsed?;
    let data = match input.data {
        syn::Data::Struct(body) => match body.fields {
            syn::Fields::Named(_) => DataShape::NamedStruct,
            syn::Fields::Unnamed(_) => DataShape::TupleStruct,
            syn::Fields::Unit => DataShape::UnitStruct,
        },
        syn::Data::Enum(_) => DataShape::Enum,
        syn::Data::Union(_) => DataShape::Union,
    };
    Ok(DeriveShape { ident: input.ident.to_string(), data })
}

/// Calls `ToString::to_string` on a `syn::Error`, which renders the first
/// of the error's messages. Nothing is claimed of the text, whose wording
/// is syn's.
#[verifier::external_body]
fn syn_error_message(error: &syn::Error) -> String {
    error.to_string()
}

/// Reads the name and body shape of the item whose source text is `text`;
/// a parse error carries syn's message.
pub fn parse_derive_input(text: &str) -> (res: Result<DeriveShape, DeriveError>)
    ensures
        res is Ok <==> syn_derive_input(text@) is Some,
        res matches Ok(shape) ==> reads_as(text@, shape@),
        syn_derive_input(text@) is None ==> res is Err,
        res matches Err(e) ==> e is Parse,
{
    match parse_with_syn(text) {
        Ok(shape) => Ok(shape),
        Err(error) => Err(DeriveError::Parse { message: syn_error_message(&error) }),
    }
}

} // verus!
