//! Writes the constructor and the setters of a component.
//!
//! The constructor takes its parameters, binds each property that has an
//! initializer to a local, in declaration order, so that an initializer may
//! read what was bound before it, registers the subscriptions, in declaration
//! order, and builds the struct from the parameters and the locals. A setter
//! takes the component, replaces one field and gives the component back.
//!
//! The text is laid out one item to a line, each list with a trailing comma.

use crate::model::{
    Binding, BindingView, Field, FieldView, PropertyDecl, PropertyView, SubscriptionDecl,
    SubscriptionView,
};
use crate::schema::{
    computed_bindings, computed_of, constructor_params, field_list, fields_of, params_of,
};
use crate::text::lines;
use vstd::prelude::*;
use vstd::string::*;

verus! {

/// A field or a parameter on a line of its own.
pub open spec fn slot_line(indent: Seq<char>, slot: FieldView) -> Seq<char> {
    indent + slot.name + ": "@ + slot.ty + ",\n"@
}

/// Fields or parameters, one to a line.
pub open spec fn slot_lines(indent: Seq<char>, slots: Seq<FieldView>) -> Seq<char> {
    lines(slots, |slot: FieldView| slot_line(indent, slot))
}

/// The statement that binds a computed property.
pub open spec fn binding_line(binding: BindingView) -> Seq<char> {
    "        let "@ + binding.name + ": "@ + binding.ty + " = "@ + binding.value + ";\n"@
}

/// The bindings, one to a line, in their order.
pub open spec fn binding_lines(bindings: Seq<BindingView>) -> Seq<char> {
    lines(bindings, |binding: BindingView| binding_line(binding))
}

/// The expression that registers one subscription.
pub open spec fn registration_line(subscription: SubscriptionView) -> Seq<char> {
    "            cx.subscribe_in(&"@ + subscription.source + ", window, "@ + subscription.handler
        + "),\n"@
}

/// The registrations, one to a line, in the order of the subscriptions.
pub open spec fn registration_lines(subscriptions: Seq<SubscriptionView>) -> Seq<char> {
    lines(subscriptions, |subscription: SubscriptionView| registration_line(subscription))
}

/// The statement that fills the subscription storage, where there is a
/// subscription.
pub open spec fn storage_text(subscriptions: Seq<SubscriptionView>) -> Seq<char> {
    if subscriptions.len() > 0 {
        "        let _subscriptions: Vec<Subscription> = vec![\n"@ + registration_lines(
            subscriptions,
        ) + "        ];\n"@
    } else {
        Seq::empty()
    }
}

/// A field of the struct expression, set from the local of the same name.
pub open spec fn init_line(slot: FieldView) -> Seq<char> {
    "            "@ + slot.name + ",\n"@
}

/// The fields of the struct expression, one to a line.
pub open spec fn init_lines(slots: Seq<FieldView>) -> Seq<char> {
    lines(slots, |slot: FieldView| init_line(slot))
}

/// The text of the constructor.
pub open spec fn new_method_text(
    properties: Seq<PropertyView>,
    extra: Seq<FieldView>,
    subscriptions: Seq<SubscriptionView>,
    with_context: bool,
) -> Seq<char> {
    "    pub fn new(\n"@ + slot_lines(
        "        "@,
        params_of(properties, extra, subscriptions, with_context),
    ) + "    ) -> Self {\n"@ + binding_lines(computed_of(properties)) + storage_text(subscriptions)
        + "        Self {\n"@ + init_lines(fields_of(properties, subscriptions))
        + "        }\n    }\n"@
}

/// The text of the setter of one property: it takes the component, replaces
/// the one field and gives the component back.
pub open spec fn setter_text(property: PropertyView) -> Seq<char> {
    "\n    pub fn "@ + property.name + "(mut self, value: "@ + property.ty
        + ") -> Self {\n        self."@ + property.name + " = value;\n        self\n    }\n"@
}

/// The text of the setters: one for each property, in declaration order.
pub open spec fn set_methods_text(properties: Seq<PropertyView>) -> Seq<char> {
    lines(properties, |property: PropertyView| setter_text(property))
}

/// Writes a field or a parameter on a line of its own.
fn write_slot(indent: &str, slot: &Field) -> (line: String)
    ensures
        line@ == slot_line(indent@, slot@),
{
    let mut line = String::from_str(indent);
    line.append(slot.name.as_str());
    line.append(": ");
    line.append(slot.ty.as_str());
    line.append(",\n");
    line
}

/// Writes fields or parameters, one to a line.
pub fn write_slots(indent: &str, slots: &Vec<Field>) -> (text: String)
    ensures
        text@ == slot_lines(indent@, slots.deep_view()),
{
    let ghost all = slots.deep_view();
    let mut text = String::new();
    let mut i: usize = 0;
    assert(all.take(0) =~= Seq::empty());
    while i < slots.len()
        invariant
            i <= slots.len(),
            all == slots.deep_view(),
            text@ == slot_lines(indent@, all.take(i as int)),
        decreases slots.len() - i,
    {
        assert(all.take(i + 1).drop_last() =~= all.take(i as int));
        let line = write_slot(indent, &slots[i]);
        text.append(line.as_str());
        i += 1;
    }
    assert(all.take(i as int) =~= all);
    text
}

/// Writes the statement that binds a computed property.
fn write_binding(binding: &Binding) -> (line: String)
    ensures
        line@ == binding_line(binding@),
{
    let mut line = String::from_str("        let ");
    line.append(binding.name.as_str());
    line.append(": ");
    line.append(binding.ty.as_str());
    line.append(" = ");
    line.append(binding.value.as_str());
    line.append(";\n");
    line
}

/// Writes the bindings, in order.
fn write_bindings(bindings: &Vec<Binding>) -> (text: String)
    ensures
        text@ == binding_lines(bindings.deep_view()),
{
    let ghost all = bindings.deep_view();
    let mut text = String::new();
    let mut i: usize = 0;
    assert(all.take(0) =~= Seq::empty());
    while i < bindings.len()
        invariant
            i <= bindings.len(),
            all == bindings.deep_view(),
            text@ == binding_lines(all.take(i as int)),
        decreases bindings.len() - i,
    {
        assert(all.take(i + 1).drop_last() =~= all.take(i as int));
        let line = write_binding(&bindings[i]);
        text.append(line.as_str());
        i += 1;
    }
    assert(all.take(i as int) =~= all);
    text
}

/// Writes the expression that registers one subscription.
fn write_registration(subscription: &SubscriptionDecl) -> (line: String)
    ensures
        line@ == registration_line(subscription@),
{
    let mut line = String::from_str("            cx.subscribe_in(&");
    line.append(subscription.source.as_str());
    line.append(", window, ");
    line.append(subscription.handler.as_str());
    line.append("),\n");
    line
}

/// Writes the statement that fills the subscription storage, or nothing where
/// there is no subscription.
fn write_storage(subscriptions: &Vec<SubscriptionDecl>) -> (text: String)
    ensures
        text@ == storage_text(subscriptions.deep_view()),
{
    if subscriptions.len() == 0 {
        return String::new();
    }
    let ghost all = subscriptions.deep_view();
    let mut lines = String::new();
    let mut i: usize = 0;
    assert(all.take(0) =~= Seq::empty());
    while i < subscriptions.len()
        invariant
            i <= subscriptions.len(),
            all == subscriptions.deep_view(),
            lines@ == registration_lines(all.take(i as int)),
        decreases subscriptions.len() - i,
    {
        assert(all.take(i + 1).drop_last() =~= all.take(i as int));
        let line = write_registration(&subscriptions[i]);
        lines.append(line.as_str());
        i += 1;
    }
    assert(all.take(i as int) =~= all);
    let mut text = String::from_str("        let _subscriptions: Vec<Subscription> = vec![\n");
    text.append(lines.as_str());
    text.append("        ];\n");
    text
}

/// Writes the fields of the struct expression, one to a line.
fn write_inits(slots: &Vec<Field>) -> (text: String)
    ensures
        text@ == init_lines(slots.deep_view()),
{
    let ghost all = slots.deep_view();
    let mut text = String::new();
    let mut i: usize = 0;
    assert(all.take(0) =~= Seq::empty());
    while i < slots.len()
        invariant
            i <= slots.len(),
            all == slots.deep_view(),
            text@ == init_lines(all.take(i as int)),
        decreases slots.len() - i,
    {
        assert(all.take(i + 1).drop_last() =~= all.take(i as int));
        let mut line = String::from_str("            ");
        line.append(slots[i].name.as_str());
        line.append(",\n");
        text.append(line.as_str());
        i += 1;
    }
    assert(all.take(i as int) =~= all);
    text
}

/// Generates the constructor. Every property without an initializer is
/// required as a parameter.
pub fn generate_new_method(
    properties: &Vec<PropertyDecl>,
    temp_properties: &Vec<Field>,
    subscribes: &Vec<SubscriptionDecl>,
    with_context: bool,
) -> (text: String)
    ensures
        text@ == new_method_text(
            properties.deep_view(),
            temp_properties.deep_view(),
            subscribes.deep_view(),
            with_context,
        ),
{
    let params = constructor_params(properties, temp_properties, subscribes, with_context);
    let bindings = computed_bindings(properties);
    let fields = field_list(properties, subscribes);
    let mut text = String::from_str("    pub fn new(\n");
    text.append(write_slots("        ", &params).as_str());
    text.append("    ) -> Self {\n");
    text.append(write_bindings(&bindings).as_str());
    text.append(write_storage(subscribes).as_str());
    text.append("        Self {\n");
    text.append(write_inits(&fields).as_str());
    text.append("        }\n    }\n");
    text
}

/// Writes the setter of one property.
fn write_setter(property: &PropertyDecl) -> (text: String)
    ensures
        text@ == setter_text(property@),
{
    let mut text = String::from_str("\n    pub fn ");
    text.append(property.name.as_str());
    text.append("(mut self, value: ");
    text.append(property.ty.as_str());
    text.append(") -> Self {\n        self.");
    text.append(property.name.as_str());
    text.append(" = value;\n        self\n    }\n");
    text
}

/// Generates a setter for each property.
pub fn generate_set_method(properties: &Vec<PropertyDecl>) -> (text: String)
    ensures
        text@ == set_methods_text(properties.deep_view()),
{
    let ghost all = properties.deep_view();
    let mut text = String::new();
    let mut i: usize = 0;
    assert(all.take(0) =~= Seq::empty());
    while i < properties.len()
        invariant
            i <= properties.len(),
            all == properties.deep_view(),
            text@ == set_methods_text(all.take(i as int)),
        decreases properties.len() - i,
    {
        assert(all.take(i + 1).drop_last() =~= all.take(i as int));
        let setter = write_setter(&properties[i]);
        text.append(setter.as_str());
        i += 1;
    }
    assert(all.take(i as int) =~= all);
    text
}

} // verus!
