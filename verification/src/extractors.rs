//! Recognizes the three marker statements.
//!
//! A marker is a macro invocation in statement position whose path is one of
//! three fixed names. The arguments of two of them follow a small grammar:
//!
//! ```text
//! component_property!(name : Type)
//! component_property!(name : Type = expression)
//! subscribe!(source, handler)
//! init_with_context!(..)
//! ```
//!
//! Where the arguments of a marker do not follow its grammar, the statement is
//! no marker: it is passed through like any other statement. A mistyped
//! marker is therefore not reported here. It reaches the generated method,
//! where the compiler meets it.

use crate::model::{
    KindView, PropertyDecl, PropertyView, Statement, StatementKind, StatementView,
    SubscriptionDecl, SubscriptionView,
};
use crate::syntax::{parse_expr, parse_ident, parse_type, syn_expr, syn_ident, syn_type};
use crate::text::{chars_of, find_char, first_index, first_index_is_least, same_text};
use vstd::prelude::*;
use vstd::string::*;

verus! {

/// The name of the marker that declares a property.
pub open spec fn property_marker() -> Seq<char> {
    "component_property"@
}

/// The name of the marker that declares a subscription.
pub open spec fn subscription_marker() -> Seq<char> {
    "subscribe"@
}

/// The name of the marker that asks for the context in the constructor.
pub open spec fn context_marker() -> Seq<char> {
    "init_with_context"@
}

/// Whether the statement invokes the macro called `name`.
pub open spec fn invokes(stmt: StatementView, name: Seq<char>) -> bool {
    stmt.invocation matches Some(invocation) && invocation.path == name
}

/// Whether `rest` splits at `at` into a type, an equals sign and an
/// expression.
pub open spec fn splits_at(rest: Seq<char>, at: int) -> bool {
    &&& 0 <= at < rest.len()
    &&& rest[at] == '='
    &&& syn_type(rest.subrange(0, at)) is Some
    &&& syn_expr(rest.subrange(at + 1, rest.len() as int)) is Some
}

/// The least index from `from` on at which `rest` splits into a type and an
/// initializer, if there is one.
pub open spec fn first_split(rest: Seq<char>, from: int) -> Option<int>
    decreases rest.len() - from,
{
    if from < 0 || from >= rest.len() {
        None
    } else if splits_at(rest, from) {
        Some(from)
    } else {
        first_split(rest, from + 1)
    }
}

/// `first_split` finds a split, skips none, and finds nothing only where
/// there is none.
pub proof fn first_split_is_least(rest: Seq<char>, from: int)
    requires
        0 <= from,
    ensures
        match first_split(rest, from) {
            Some(at) => from <= at && splits_at(rest, at) && forall|j: int|
                from <= j < at ==> !splits_at(rest, j),
            None => forall|j: int| from <= j < rest.len() ==> !splits_at(rest, j),
        },
    decreases rest.len() - from,
{
    if from < rest.len() && !splits_at(rest, from) {
        first_split_is_least(rest, from + 1);
    }
}

/// What follows the colon of a property declaration: a type, or a type, an
/// equals sign and an expression. Where the text as a whole is a type, it has
/// no initializer. Else it is split at the first equals sign that leaves a
/// type before it and an expression after it.
pub open spec fn typed_value(rest: Seq<char>) -> Option<(Seq<char>, Option<Seq<char>>)> {
    match syn_type(rest) {
        Some(ty) => Some((ty, None)),
        None => match first_split(rest, 0) {
            Some(at) => Some(
                (
                    syn_type(rest.subrange(0, at))->0,
                    Some(syn_expr(rest.subrange(at + 1, rest.len() as int))->0),
                ),
            ),
            None => None,
        },
    }
}

/// The property that the arguments `name : Type` or `name : Type =
/// expression` declare. The name ends at the first colon.
pub open spec fn property_arguments(arguments: Seq<char>) -> Option<PropertyView> {
    match first_index(arguments, ':', 0) {
        Some(colon) => match (
            syn_ident(arguments.subrange(0, colon)),
            typed_value(arguments.subrange(colon + 1, arguments.len() as int)),
        ) {
            (Some(name), Some((ty, initializer))) => Some(PropertyView { name, ty, initializer }),
            _ => None,
        },
        None => None,
    }
}

/// The subscription that the arguments `source, handler` declare. The source
/// ends at the first comma.
pub open spec fn subscription_arguments(arguments: Seq<char>) -> Option<SubscriptionView> {
    match first_index(arguments, ',', 0) {
        Some(comma) => match (
            syn_ident(arguments.subrange(0, comma)),
            syn_expr(arguments.subrange(comma + 1, arguments.len() as int)),
        ) {
            (Some(source), Some(handler)) => Some(SubscriptionView { source, handler }),
            _ => None,
        },
        None => None,
    }
}

/// The property that a statement declares, if it declares one.
pub open spec fn property_of(stmt: StatementView) -> Option<PropertyView> {
    if invokes(stmt, property_marker()) {
        property_arguments(stmt.invocation->0.arguments)
    } else {
        None
    }
}

/// The subscription that a statement declares, if it declares one.
pub open spec fn subscription_of(stmt: StatementView) -> Option<SubscriptionView> {
    if invokes(stmt, subscription_marker()) {
        subscription_arguments(stmt.invocation->0.arguments)
    } else {
        None
    }
}

/// Whether a statement is the context marker. Its arguments are not looked at.
pub open spec fn is_context_marker(stmt: StatementView) -> bool {
    invokes(stmt, context_marker())
}

/// What a statement is to the transformation. The three marker forms are
/// tried in turn, and what is none of them is ordinary.
pub open spec fn kind_of(stmt: StatementView) -> KindView {
    if property_of(stmt) is Some {
        KindView::Property(property_of(stmt)->0)
    } else if subscription_of(stmt) is Some {
        KindView::Subscription(subscription_of(stmt)->0)
    } else if is_context_marker(stmt) {
        KindView::ContextRequirement
    } else {
        KindView::Ordinary(stmt.text)
    }
}

/// The kind of each statement of a body, in order.
pub open spec fn kinds_of(statements: Seq<StatementView>) -> Seq<KindView> {
    Seq::new(statements.len(), |i: int| kind_of(statements[i]))
}

/// Whether the statement invokes the macro called `name`.
fn is_invocation_of(stmt: &Statement, name: &str) -> (r: bool)
    ensures
        r == invokes(stmt@, name@),
{
    match &stmt.invocation {
        Some(invocation) => same_text(invocation.path.as_str(), name),
        None => false,
    }
}

/// Parses what follows the colon of a property declaration.
pub fn parse_typed_value(rest: &str) -> (r: Option<(String, Option<String>)>)
    ensures
        r.deep_view() == typed_value(rest@),
{
    if let Some(ty) = parse_type(rest) {
        return Some((ty, None));
    }
    let chars = chars_of(rest);
    let n = chars.len();
    let mut at: usize = 0;
    while at < n
        invariant
            at <= n,
            n == rest@.len(),
            chars@ == rest@,
            syn_type(rest@) is None,
            first_split(rest@, 0) == first_split(rest@, at as int),
        decreases n - at,
    {
        if chars[at] == '=' {
            if let Some(ty) = parse_type(rest.substring_char(0, at)) {
                if let Some(value) = parse_expr(rest.substring_char(at + 1, n)) {
                    return Some((ty, Some(value)));
                }
            }
        }
        at += 1;
    }
    None
}

/// Parses the arguments of a property marker.
pub fn parse_property(arguments: &str) -> (r: Option<PropertyDecl>)
    ensures
        r.deep_view() == property_arguments(arguments@),
{
    let n = arguments.unicode_len();
    match find_char(arguments, ':', 0) {
        Some(colon) => {
            proof {
                first_index_is_least(arguments@, ':', 0);
            }
            match parse_ident(arguments.substring_char(0, colon)) {
                Some(name) => match parse_typed_value(arguments.substring_char(colon + 1, n)) {
                    Some((ty, initializer)) => Some(PropertyDecl { name, ty, initializer }),
                    None => None,
                },
                None => None,
            }
        },
        None => None,
    }
}

/// Parses the arguments of a subscription marker.
pub fn parse_subscription(arguments: &str) -> (r: Option<SubscriptionDecl>)
    ensures
        r.deep_view() == subscription_arguments(arguments@),
{
    let n = arguments.unicode_len();
    match find_char(arguments, ',', 0) {
        Some(comma) => {
            proof {
                first_index_is_least(arguments@, ',', 0);
            }
            match parse_ident(arguments.substring_char(0, comma)) {
                Some(source) => match parse_expr(arguments.substring_char(comma + 1, n)) {
                    Some(handler) => Some(SubscriptionDecl { source, handler }),
                    None => None,
                },
                None => None,
            }
        },
        None => None,
    }
}

/// Reads a statement such as `component_property!(name: Type = expr);` or
/// `component_property!(name: Type);`.
pub fn extract_component_property(stmt: &Statement) -> (r: Option<PropertyDecl>)
    ensures
        r.deep_view() == property_of(stmt@),
{
    if is_invocation_of(stmt, "component_property") {
        match &stmt.invocation {
            Some(invocation) => parse_property(invocation.arguments.as_str()),
            None => None,
        }
    } else {
        None
    }
}

/// Reads a statement such as `subscribe!(state, move |this, _, event, _, cx| { .. });`.
pub fn extract_subscribe(stmt: &Statement) -> (r: Option<SubscriptionDecl>)
    ensures
        r.deep_view() == subscription_of(stmt@),
{
    if is_invocation_of(stmt, "subscribe") {
        match &stmt.invocation {
            Some(invocation) => parse_subscription(invocation.arguments.as_str()),
            None => None,
        }
    } else {
        None
    }
}

/// Tells whether a statement is `init_with_context!();`.
pub fn extract_with_context(stmt: &Statement) -> (r: bool)
    ensures
        r == is_context_marker(stmt@),
{
    is_invocation_of(stmt, "init_with_context")
}

/// Classifies one statement.
pub fn classify(stmt: &Statement) -> (kind: StatementKind)
    ensures
        kind@ == kind_of(stmt@),
{
    if let Some(property) = extract_component_property(stmt) {
        StatementKind::Property(property)
    } else if let Some(subscription) = extract_subscribe(stmt) {
        StatementKind::Subscription(subscription)
    } else if extract_with_context(stmt) {
        StatementKind::ContextRequirement
    } else {
        StatementKind::Ordinary(stmt.text.clone())
    }
}

/// Classifies the statements of a body, one after the other.
pub fn classify_all(statements: &Vec<Statement>) -> (kinds: Vec<StatementKind>)
    ensures
        kinds.deep_view() == kinds_of(statements.deep_view()),
{
    let mut kinds: Vec<StatementKind> = Vec::new();
    let mut i: usize = 0;
    while i < statements.len()
        invariant
            i <= statements.len(),
            kinds.len() == i,
            forall|j: int| 0 <= j < i ==> (#[trigger] kinds[j])@ == kind_of(statements[j]@),
        decreases statements.len() - i,
    {
        kinds.push(classify(&statements[i]));
        i += 1;
    }
    assert(kinds.deep_view() =~= kinds_of(statements.deep_view()));
    kinds
}

} // verus!
