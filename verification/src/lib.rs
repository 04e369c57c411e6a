//! Turns a function written against three marker statements into a component
//! type: a struct, a constructor, chained setters and a render method.
//!
//! ```text
//! fn hello_world(window: &mut Window, cx: &mut Context<Self>) -> impl IntoElement {
//!     component_property!(text: SharedString = SharedString::new("World"));
//!     component_property!(name: SharedString);
//!     div().child(format!("{}, {}", &self.text, &self.name))
//! }
//! ```
//!
//! becomes a struct `HelloWorld` with the fields `text` and `name`, a
//! constructor `new(name: SharedString)` that computes `text`, the setters
//! `text` and `name`, and an `impl Render` whose method holds the last line.
//!
//! The transformation runs in one direction: the statements are classified
//! ([`extractors`]), gathered into a schema and checked ([`schema`]), and the
//! schema is written out as text ([`methods`] and this file). Code fragments
//! are text throughout; what is an identifier, a type or an expression is
//! asked of the parser ([`syntax`]).

pub mod extractors;
pub mod laws;
pub mod methods;
pub mod model;
pub mod order;
pub mod schema;
pub mod syntax;
pub mod text;

use crate::extractors::{classify_all, kinds_of};
use crate::methods::{
    generate_new_method, generate_set_method, new_method_text, set_methods_text, slot_lines,
    write_slots,
};
use crate::model::{
    ComponentError, ErrorView, Field, FunctionItem, FunctionView, PropertyDecl, PropertyView,
    SubscriptionDecl, SubscriptionView,
};
use crate::schema::{build_schema, checked_schema, field_list, fields_of, Schema, SchemaView};
use crate::syntax::{camel_case, parse_function, syn_item_fn, to_camel};
use crate::text::lines;
use vstd::prelude::*;
use vstd::string::*;

verus! {

/// The text of the struct definition.
pub open spec fn struct_text(
    name: Seq<char>,
    properties: Seq<PropertyView>,
    subscriptions: Seq<SubscriptionView>,
) -> Seq<char> {
    "pub struct "@ + name + " {\n"@ + slot_lines("    "@, fields_of(properties, subscriptions))
        + "}\n"@
}

/// A statement of the generated method on a line of its own.
pub open spec fn statement_line(statement: Seq<char>) -> Seq<char> {
    "        "@ + statement + "\n"@
}

/// The statements of the generated method, one to a line, in their order.
pub open spec fn statement_lines(statements: Seq<Seq<char>>) -> Seq<char> {
    lines(statements, |statement: Seq<char>| statement_line(statement))
}

/// The text of the generated method: the parameters and the return type of
/// the function, and the ordinary statements of its body in their order.
pub open spec fn render_method_text(
    inputs: Seq<char>,
    output: Seq<char>,
    body: Seq<Seq<char>>,
) -> Seq<char> {
    "    fn render(&mut self, "@ + inputs + ") "@ + output + " {\n"@ + statement_lines(body)
        + "    }\n"@
}

/// The text of a component: the struct, the constructor with the setters, and
/// the implementation of `Render`.
pub open spec fn component_text(
    name: Seq<char>,
    schema: SchemaView,
    inputs: Seq<char>,
    output: Seq<char>,
) -> Seq<char> {
    struct_text(name, schema.properties, schema.subscriptions) + "\nimpl "@ + name + " {\n"@
        + new_method_text(
        schema.properties,
        Seq::empty(),
        schema.subscriptions,
        schema.with_context,
    ) + set_methods_text(schema.properties) + "}\n\nimpl Render for "@ + name + " {\n"@
        + render_method_text(inputs, output, schema.body) + "}\n"@
}

/// What a function becomes: the text of its component, named after the
/// function in camel case, or the rule that its body breaks.
pub open spec fn synthesized(function: FunctionView) -> Result<Seq<char>, ErrorView> {
    match checked_schema(kinds_of(function.statements)) {
        Ok(schema) => Ok(
            component_text(camel_case(function.name), schema, function.inputs, function.output),
        ),
        Err(error) => Err(error),
    }
}

/// What a source text becomes: what the function in it becomes, or the
/// parser's message where it holds no function.
pub open spec fn transformed(item: Seq<char>) -> Result<Seq<char>, ErrorView> {
    match syn_item_fn(item) {
        Ok(function) => synthesized(function),
        Err(message) => Err(ErrorView::Syntax { message }),
    }
}

/// The view of a generated text, or of the error in its place.
pub open spec fn outcome_view(r: Result<String, ComponentError>) -> Result<Seq<char>, ErrorView> {
    match r {
        Ok(text) => Ok(text@),
        Err(error) => Err(error@),
    }
}

/// Generates the struct definition.
pub fn generate_struct(
    name: &str,
    properties: &Vec<PropertyDecl>,
    subscriptions: &Vec<SubscriptionDecl>,
) -> (text: String)
    ensures
        text@ == struct_text(name@, properties.deep_view(), subscriptions.deep_view()),
{
    let fields = field_list(properties, subscriptions);
    let mut text = String::from_str("pub struct ");
    text.append(name);
    text.append(" {\n");
    text.append(write_slots("    ", &fields).as_str());
    text.append("}\n");
    text
}

/// Generates the method that holds the ordinary statements.
pub fn generate_render_method(inputs: &str, output: &str, body: &Vec<String>) -> (text: String)
    ensures
        text@ == render_method_text(inputs@, output@, body.deep_view()),
{
    let ghost all = body.deep_view();
    let mut lines = String::new();
    let mut i: usize = 0;
    assert(all.take(0) =~= Seq::empty());
    while i < body.len()
        invariant
            i <= body.len(),
            all == body.deep_view(),
            lines@ == statement_lines(all.take(i as int)),
        decreases body.len() - i,
    {
        assert(all.take(i + 1).drop_last() =~= all.take(i as int));
        let mut line = String::from_str("        ");
        line.append(body[i].as_str());
        line.append("\n");
        lines.append(line.as_str());
        i += 1;
    }
    assert(all.take(i as int) =~= all);
    let mut text = String::from_str("    fn render(&mut self, ");
    text.append(inputs);
    text.append(") ");
    text.append(output);
    text.append(" {\n");
    text.append(lines.as_str());
    text.append("    }\n");
    text
}

/// Writes out a component: the struct called `name` with the declarations of
/// the schema, and the generated method with the signature given.
pub fn generate_component(name: &str, schema: &Schema, inputs: &str, output: &str) -> (text: String)
    ensures
        text@ == component_text(name@, schema@, inputs@, output@),
{
    let extra: Vec<Field> = Vec::new();
    assert(extra.deep_view() =~= Seq::empty());
    let mut text = generate_struct(name, &schema.properties, &schema.subscriptions);
    text.append("\nimpl ");
    text.append(name);
    text.append(" {\n");
    text.append(
        generate_new_method(
            &schema.properties,
            &extra,
            &schema.subscriptions,
            schema.with_context,
        ).as_str(),
    );
    text.append(generate_set_method(&schema.properties).as_str());
    text.append("}\n\nimpl Render for ");
    text.append(name);
    text.append(" {\n");
    text.append(generate_render_method(inputs, output, &schema.body).as_str());
    text.append("}\n");
    text
}

/// Transforms a function: classifies its statements, builds and checks the
/// schema, and writes out the component. There is no partial output.
pub fn synthesize(function: &FunctionItem) -> (r: Result<String, ComponentError>)
    ensures
        outcome_view(r) == synthesized(function@),
{
    let kinds = classify_all(&function.statements);
    match build_schema(&kinds) {
        Ok(schema) => {
            let name = to_camel(function.name.as_str());
            Ok(
                generate_component(
                    name.as_str(),
                    &schema,
                    function.inputs.as_str(),
                    function.output.as_str(),
                ),
            )
        },
        Err(error) => Err(error),
    }
}

/// The transformation behind the `component` attribute: from the source text
/// of a function to the source text of its component. The attribute takes no
/// arguments, and what it is given as such is not looked at.
pub fn component(_attr: &str, item: &str) -> (r: Result<String, ComponentError>)
    ensures
        outcome_view(r) == transformed(item@),
{
    match parse_function(item) {
        Ok(function) => synthesize(&function),
        Err(message) => Err(ComponentError::Syntax { message }),
    }
}

} // verus!
