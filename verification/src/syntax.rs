//! The boundary to the parser and to the case conversion.
//!
//! What `syn` accepts as an identifier, a type, an expression or a function is
//! Rust's own grammar. It is not restated here: each result has a name, and
//! the contracts of the library speak of these names. Nothing in this file is
//! proved.
//!
//! `proc_macro2` lexes and prints with its own code, unless it finds itself
//! inside a compiler's macro expansion: there it hands both to the compiler,
//! whose printing differs. Each function here that lexes or prints switches to
//! `proc_macro2`'s own code first, so that a text has one result wherever the
//! library runs. A caller inside an expansion that wants the compiler's
//! tokens back switches over again (`proc_macro2::fallback::unforce`).

use crate::model::{FunctionItem, FunctionView, Invocation, Statement};
use case::CaseExt;
use proc_macro2::fallback;
use quote::ToTokens;
use syn::{Expr, Ident, ItemFn, Stmt, StmtMacro, Type};
use vstd::prelude::*;

verus! {

/// What `syn::parse_str::<syn::Ident>` makes of `text`: the identifier's name
/// where the whole text is one identifier that is no keyword, else nothing.
pub uninterp spec fn syn_ident(text: Seq<char>) -> Option<Seq<char>>;

/// What `syn::parse_str::<syn::Type>` makes of `text`: the type's tokens as
/// text where the whole text is one type, else nothing.
pub uninterp spec fn syn_type(text: Seq<char>) -> Option<Seq<char>>;

/// What `syn::parse_str::<syn::Expr>` makes of `text`: the expression's tokens
/// as text where the whole text is one expression, else nothing.
pub uninterp spec fn syn_expr(text: Seq<char>) -> Option<Seq<char>>;

/// What `syn::parse_str::<syn::ItemFn>` makes of `source`: the function's
/// name, parameters, return type and statements, or the parser's message.
pub uninterp spec fn syn_item_fn(source: Seq<char>) -> Result<FunctionView, Seq<char>>;

/// The view of a parsed function, or the message as it stands.
pub open spec fn parsed_view(r: Result<FunctionItem, String>) -> Result<FunctionView, Seq<char>> {
    match r {
        Ok(function) => Ok(function@),
        Err(message) => Err(message@),
    }
}

/// Calls `syn::parse_str::<syn::Ident>` and gives the identifier's name as
/// `Ident::to_string` writes it. Nothing is claimed of which texts are
/// identifiers: the result is `syn_ident` of the text.
#[verifier::external_body]
pub(crate) fn parse_ident(text: &str) -> (r: Option<String>)
    ensures
        r.deep_view() == syn_ident(text@),
{
    fallback::force();
    syn::parse_str::<Ident>(text).ok().map(|ident| ident.to_string())
}

/// Calls `syn::parse_str::<syn::Type>` and gives the type's tokens as
/// `proc_macro2` prints them. Nothing is claimed of which texts are types:
/// the result is `syn_type` of the text.
#[verifier::external_body]
pub(crate) fn parse_type(text: &str) -> (r: Option<String>)
    ensures
        r.deep_view() == syn_type(text@),
{
    fallback::force();
    syn::parse_str::<Type>(text).ok().map(|ty| ty.to_token_stream().to_string())
}

/// Calls `syn::parse_str::<syn::Expr>` and gives the expression's tokens as
/// `proc_macro2` prints them. Nothing is claimed of which texts are
/// expressions: the result is `syn_expr` of the text.
#[verifier::external_body]
pub(crate) fn parse_expr(text: &str) -> (r: Option<String>)
    ensures
        r.deep_view() == syn_expr(text@),
{
    fallback::force();
    syn::parse_str::<Expr>(text).ok().map(|expr| expr.to_token_stream().to_string())
}

/// Calls `syn::parse_str::<syn::ItemFn>`. Of a function it keeps the name,
/// the parameter list and the return type as text, and each statement of the
/// body in order: its tokens as text and, for a `syn::Stmt::Macro`, the
/// macro's path and argument tokens as text. Of a failure it keeps the
/// message. Nothing is claimed of which texts are functions: the result is
/// `syn_item_fn` of the source.
#[verifier::external_body]
pub(crate) fn parse_function(source: &str) -> (r: Result<FunctionItem, String>)
    ensures
        parsed_view(r) == syn_item_fn(source@),
{
    fallback::force();
    let function = syn::parse_str::<ItemFn>(source).map_err(|error| error.to_string())?;
    let print = |tokens: &dyn ToTokens| tokens.to_token_stream().to_string();
    let invocation =
        |m: &StmtMacro| Invocation { path: print(&m.mac.path), arguments: print(&m.mac.tokens) };
    let statement = |stmt: &Stmt| Statement {
        text: print(stmt),
        invocation: match stmt { Stmt::Macro(m) => Some(invocation(m)), _ => None },
    };
    Ok(FunctionItem {
        name: function.sig.ident.to_string(),
        inputs: print(&function.sig.inputs),
        output: print(&function.sig.output),
        statements: function.block.stmts.iter().map(statement).collect(),
    })
}

/// The character that `char::to_ascii_uppercase` gives.
pub open spec fn ascii_upper(c: char) -> char {
    if 'a' <= c && c <= 'z' {
        ((c as u8) - 32) as char
    } else {
        c
    }
}

/// A snake-case name in capitalized camel case: the underscores are dropped,
/// and the character that opens the name or follows an underscore is put in
/// ASCII upper case. `fresh` says that the next character opens a word.
pub open spec fn camel_from(name: Seq<char>, fresh: bool) -> Seq<char>
    decreases name.len(),
{
    if name.len() == 0 {
        name
    } else if name[0] == '_' {
        camel_from(name.drop_first(), true)
    } else if fresh {
        seq![ascii_upper(name[0])] + camel_from(name.drop_first(), false)
    } else {
        seq![name[0]] + camel_from(name.drop_first(), false)
    }
}

/// The name of the type generated for a function named `name`.
pub open spec fn camel_case(name: Seq<char>) -> Seq<char> {
    camel_from(name, true)
}

/// Calls `case::CaseExt::to_camel`, which walks the characters once, drops
/// each underscore and upper-cases, in ASCII, the first character and each
/// one that follows an underscore.
#[verifier::external_body]
pub(crate) fn to_camel(name: &str) -> (r: String)
    ensures
        r@ == camel_case(name@),
{
    name.to_camel()
}

} // verus!
