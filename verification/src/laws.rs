//! What holds of every transformation, proved from the definitions that the
//! contracts use.

use crate::extractors::{
    context_marker, invokes, kind_of, property_arguments, property_marker,
    subscription_arguments, subscription_marker,
};
use crate::methods::{
    binding_line, binding_lines, new_method_text, registration_line, registration_lines,
    set_methods_text, setter_text, storage_text,
};
use crate::model::{
    BindingView, ComponentError, ErrorView, FieldView, FunctionItem, KindView, PropertyView,
    StatementView, SubscriptionView,
};
use crate::order::{
    every_place_is_taken, kept_before, places_follow_the_items, selected_item_has_its_place,
};
use crate::schema::{
    checked_schema, computed_binding, computed_of, context_identifier, declared_before,
    declared_fields, field_of,
    fields_of, first_offence, has_property, offence_at, ordinary_text, params_of, properties_in,
    property_in, required_field, required_of, schema_of, storage_field, subscription_in,
    SchemaView,
};
use crate::{
    outcome_view, statement_line, statement_lines, struct_text, synthesized, transformed,
};
use crate::text::lines_follow_the_items;
use vstd::prelude::*;

verus! {

/// The three markers have three names, so that a statement is at most one of
/// them and the order in which the forms are tried decides nothing.
pub proof fn marker_names_differ()
    ensures
        property_marker() != subscription_marker(),
        property_marker() != context_marker(),
        subscription_marker() != context_marker(),
{
    reveal_strlit("component_property");
    reveal_strlit("subscribe");
    reveal_strlit("init_with_context");
    assert(property_marker().len() == 18);
    assert(subscription_marker().len() == 9);
    assert(context_marker().len() == 17);
}

/// A property marker or a subscription marker whose arguments do not follow
/// its grammar is no error: the statement is passed through as it stands.
/// So is every statement that invokes none of the three markers.
pub proof fn malformed_marker_is_passed_through(stmt: StatementView)
    requires
        ({
            ||| invokes(stmt, property_marker()) && property_arguments(
                stmt.invocation->0.arguments,
            ) is None
            ||| invokes(stmt, subscription_marker()) && subscription_arguments(
                stmt.invocation->0.arguments,
            ) is None
            ||| !invokes(stmt, property_marker()) && !invokes(stmt, subscription_marker())
                && !invokes(stmt, context_marker())
        }),
    ensures
        kind_of(stmt) == KindView::Ordinary(stmt.text),
{
    marker_names_differ();
}

/// The place among the constructor's parameters of the property at index `i`,
/// if it has no initializer.
pub open spec fn parameter_place(properties: Seq<PropertyView>, i: int) -> int {
    kept_before(properties, |property: PropertyView| required_field(property), i)
}

/// The place among the constructor's bindings of the property at index `i`,
/// if it has an initializer.
pub open spec fn binding_place(properties: Seq<PropertyView>, i: int) -> int {
    kept_before(properties, |property: PropertyView| computed_binding(property), i)
}

/// The place among the properties of the statement at index `i`, if it
/// declares one.
pub open spec fn property_place(kinds: Seq<KindView>, i: int) -> int {
    kept_before(kinds, |kind: KindView| property_in(kind), i)
}

/// The place among the subscriptions of the statement at index `i`, if it
/// declares one.
pub open spec fn subscription_place(kinds: Seq<KindView>, i: int) -> int {
    kept_before(kinds, |kind: KindView| subscription_in(kind), i)
}

/// The place in the generated method of the statement at index `i`, if it is
/// ordinary.
pub open spec fn ordinary_place(kinds: Seq<KindView>, i: int) -> int {
    kept_before(kinds, |kind: KindView| ordinary_text(kind), i)
}

/// A property without an initializer has a parameter of the constructor, with
/// its name and its type. Of two such properties, the one declared first has
/// the earlier parameter.
pub proof fn required_property_has_its_parameter(
    properties: Seq<PropertyView>,
    extra: Seq<FieldView>,
    subscriptions: Seq<SubscriptionView>,
    with_context: bool,
    i: int,
    j: int,
)
    requires
        0 <= i < properties.len(),
        properties[i].initializer is None,
    ensures
        0 <= parameter_place(properties, i) < required_of(properties).len(),
        params_of(properties, extra, subscriptions, with_context)[parameter_place(properties, i)]
            == field_of(properties[i]),
        i < j < properties.len() && properties[j].initializer is None ==> parameter_place(
            properties,
            i,
        ) < parameter_place(properties, j),
{
    let pick = |property: PropertyView| required_field(property);
    selected_item_has_its_place(properties, pick, i);
    if i < j < properties.len() {
        places_follow_the_items(properties, pick, i, j);
    }
}

/// Each of the parameters that the constructor takes for the properties
/// belongs to one property, which has no initializer, and to no other.
pub proof fn parameter_has_its_one_property(properties: Seq<PropertyView>, k: int) -> (i: int)
    requires
        0 <= k < required_of(properties).len(),
    ensures
        0 <= i < properties.len(),
        properties[i].initializer is None,
        parameter_place(properties, i) == k,
        forall|j: int|
            0 <= j < properties.len() && properties[j].initializer is None && parameter_place(
                properties,
                j,
            ) == k ==> j == i,
{
    let pick = |property: PropertyView| required_field(property);
    let i = every_place_is_taken(properties, pick, k);
    assert forall|j: int|
        0 <= j < properties.len() && properties[j].initializer is None && parameter_place(
            properties,
            j,
        ) == k implies j == i by {
        if j < i {
            places_follow_the_items(properties, pick, j, i);
        } else if i < j {
            places_follow_the_items(properties, pick, i, j);
        }
    }
    i
}

/// A property with an initializer has a binding in the constructor, with its
/// name, its type and its initializer. Of two such properties, the one
/// declared first is bound first, so that the later initializer can read the
/// earlier value and not the other way round.
pub proof fn computed_property_has_its_binding(properties: Seq<PropertyView>, i: int, j: int)
    requires
        0 <= i < properties.len(),
        properties[i].initializer is Some,
    ensures
        0 <= binding_place(properties, i) < computed_of(properties).len(),
        computed_of(properties)[binding_place(properties, i)] == (BindingView {
            name: properties[i].name,
            ty: properties[i].ty,
            value: properties[i].initializer->0,
        }),
        i < j < properties.len() && properties[j].initializer is Some ==> binding_place(
            properties,
            i,
        ) < binding_place(properties, j),
{
    let pick = |property: PropertyView| computed_binding(property);
    selected_item_has_its_place(properties, pick, i);
    if i < j < properties.len() {
        places_follow_the_items(properties, pick, i, j);
    }
}

/// Every property is a parameter or a binding, and none is both: the
/// constructor takes as many parameters for the properties as there are
/// properties without an initializer.
pub proof fn parameters_and_bindings_part_the_properties(properties: Seq<PropertyView>)
    ensures
        required_of(properties).len() + computed_of(properties).len() == properties.len(),
    decreases properties.len(),
{
    if properties.len() > 0 {
        parameters_and_bindings_part_the_properties(properties.drop_last());
    }
}

/// Where no two properties share a name, no parameter that the constructor
/// takes for the properties has the name of a property with an initializer.
pub proof fn computed_property_takes_no_parameter(properties: Seq<PropertyView>, i: int, k: int)
    requires
        forall|a: int, b: int|
            0 <= a < b < properties.len() ==> (#[trigger] properties[a]).name != (
            #[trigger] properties[b]).name,
        0 <= i < properties.len(),
        properties[i].initializer is Some,
        0 <= k < required_of(properties).len(),
    ensures
        required_of(properties)[k].name != properties[i].name,
{
    let j = parameter_has_its_one_property(properties, k);
    selected_item_has_its_place(
        properties,
        |property: PropertyView| required_field(property),
        j,
    );
    assert(required_of(properties)[k] == field_of(properties[j]));
    if j < i {
        assert(properties[j].name != properties[i].name);
    } else {
        assert(properties[i].name != properties[j].name);
    }
}

/// A property is declared before a statement exactly if one of the earlier
/// statements declares it.
pub proof fn declared_before_means_an_earlier_statement(
    kinds: Seq<KindView>,
    at: int,
    name: Seq<char>,
)
    requires
        0 <= at <= kinds.len(),
    ensures
        declared_before(kinds, at, name) <==> exists|i: int|
            0 <= i < at && (#[trigger] property_in(kinds[i])) is Some && property_in(
                kinds[i],
            )->0.name == name,
{
    let pick = |kind: KindView| property_in(kind);
    let before = kinds.take(at);
    if declared_before(kinds, at, name) {
        let k = choose|k: int|
            0 <= k < properties_in(before).len() && (#[trigger] properties_in(before)[k]).name
                == name;
        let i = every_place_is_taken(before, pick, k);
        selected_item_has_its_place(before, pick, i);
        assert(before[i] == kinds[i]);
        assert(property_in(kinds[i]) is Some && property_in(kinds[i])->0.name == name);
    }
    if exists|i: int|
        0 <= i < at && (#[trigger] property_in(kinds[i])) is Some && property_in(kinds[i])->0.name
            == name {
        let i = choose|i: int|
            0 <= i < at && (#[trigger] property_in(kinds[i])) is Some && property_in(
                kinds[i],
            )->0.name == name;
        assert(before[i] == kinds[i]);
        selected_item_has_its_place(before, pick, i);
        let k = kept_before(before, pick, i);
        assert(properties_in(before)[k].name == name);
    }
}

/// The error of a body is that of its first offending statement: none before
/// it offends. A body has no error exactly if no statement offends.
pub proof fn first_offence_is_first(kinds: Seq<KindView>, from: int)
    requires
        0 <= from,
    ensures
        match first_offence(kinds, from) {
            Some(error) => exists|at: int|
                from <= at < kinds.len() && #[trigger] offence_at(kinds, at) == Some(error)
                    && forall|earlier: int|
                    from <= earlier < at ==> (#[trigger] offence_at(kinds, earlier)) is None,
            None => forall|at: int|
                from <= at < kinds.len() ==> (#[trigger] offence_at(kinds, at)) is None,
        },
    decreases kinds.len() - from,
{
    if from < kinds.len() {
        if offence_at(kinds, from) is Some {
            assert(offence_at(kinds, from) == first_offence(kinds, from));
        } else {
            first_offence_is_first(kinds, from + 1);
            if first_offence(kinds, from) is Some {
                let error = first_offence(kinds, from)->0;
                let at = choose|at: int|
                    from + 1 <= at < kinds.len() && #[trigger] offence_at(kinds, at) == Some(error)
                        && forall|earlier: int|
                        from + 1 <= earlier < at ==> (#[trigger] offence_at(kinds, earlier))
                            is None;
                assert(from <= at < kinds.len() && offence_at(kinds, at) == Some(error)
                    && forall|earlier: int|
                    from <= earlier < at ==> (#[trigger] offence_at(kinds, earlier)) is None);
            }
        }
    }
}

/// Two statements that declare a property under one name make the body fail,
/// whatever the types and the initializers are. The second of them breaks
/// the rule, and the error of the body is a duplicate field wherever no
/// subscription stands before it.
pub proof fn duplicate_names_are_rejected(kinds: Seq<KindView>, i: int, j: int)
    requires
        0 <= i < j < kinds.len(),
        kinds[i] is Property,
        kinds[j] is Property,
        kinds[i]->Property_0.name == kinds[j]->Property_0.name,
    ensures
        checked_schema(kinds) is Err,
        offence_at(kinds, j) == Some(
            ErrorView::DuplicateField { name: kinds[j]->Property_0.name, statement: j },
        ),
        (forall|s: int| 0 <= s < j ==> !(#[trigger] kinds[s] is Subscription)) ==> checked_schema(
            kinds,
        ) is Err && checked_schema(kinds)->Err_0 is DuplicateField,
{
    let name = kinds[j]->Property_0.name;
    declared_before_means_an_earlier_statement(kinds, j, name);
    assert(property_in(kinds[i]) is Some && property_in(kinds[i])->0.name == name);
    assert(declared_before(kinds, j, name));
    first_offence_is_first(kinds, 0);
    if forall|s: int| 0 <= s < j ==> !(#[trigger] kinds[s] is Subscription) {
        let error = first_offence(kinds, 0)->0;
        let at = choose|at: int|
            0 <= at < kinds.len() && #[trigger] offence_at(kinds, at) == Some(error)
                && forall|earlier: int|
                0 <= earlier < at ==> (#[trigger] offence_at(kinds, earlier)) is None;
        assert(at <= j) by {
            if j < at {
                assert(offence_at(kinds, j) is None);
            }
        }
        assert(!(kinds[at] is Subscription));
    }
}

/// A body that is accepted declares no property twice: the properties of its
/// schema have different names.
pub proof fn accepted_body_has_distinct_properties(kinds: Seq<KindView>, a: int, b: int)
    requires
        checked_schema(kinds) is Ok,
        0 <= a < b < schema_of(kinds).properties.len(),
    ensures
        schema_of(kinds).properties[a].name != schema_of(kinds).properties[b].name,
{
    let pick = |kind: KindView| property_in(kind);
    let i = every_place_is_taken(kinds, pick, a);
    let j = every_place_is_taken(kinds, pick, b);
    selected_item_has_its_place(kinds, pick, i);
    selected_item_has_its_place(kinds, pick, j);
    if j < i {
        places_follow_the_items(kinds, pick, j, i);
    }
    assert(i < j);
    let name = schema_of(kinds).properties[b].name;
    first_offence_is_first(kinds, 0);
    assert(offence_at(kinds, j) is None);
    declared_before_means_an_earlier_statement(kinds, j, name);
    if schema_of(kinds).properties[a].name == name {
        assert(property_in(kinds[i]) is Some && property_in(kinds[i])->0.name == name);
        assert(declared_before(kinds, j, name));
    }
}

/// A body that is accepted leaves no subscription without its source: each
/// source is a property of the schema, or one of the identifiers that the
/// context marker of the body brings in.
pub proof fn accepted_body_resolves_every_subscription(kinds: Seq<KindView>, k: int)
    requires
        checked_schema(kinds) is Ok,
        0 <= k < schema_of(kinds).subscriptions.len(),
    ensures
        has_property(schema_of(kinds).properties, schema_of(kinds).subscriptions[k].source) || (
        schema_of(kinds).with_context && context_identifier(
            schema_of(kinds).subscriptions[k].source,
        )),
{
    let pick = |kind: KindView| subscription_in(kind);
    let at = every_place_is_taken(kinds, pick, k);
    selected_item_has_its_place(kinds, pick, at);
    let source = schema_of(kinds).subscriptions[k].source;
    first_offence_is_first(kinds, 0);
    assert(offence_at(kinds, at) is None);
    if declared_before(kinds, at, source) {
        declared_before_means_an_earlier_statement(kinds, at, source);
        let i = choose|i: int|
            0 <= i < at && (#[trigger] property_in(kinds[i])) is Some && property_in(
                kinds[i],
            )->0.name == source;
        let declare = |kind: KindView| property_in(kind);
        selected_item_has_its_place(kinds, declare, i);
        assert(schema_of(kinds).properties[kept_before(kinds, declare, i)].name == source);
    }
}

/// Without a subscription the struct has the fields of the properties and no
/// other, the constructor takes no context and no window, whether or not the
/// context marker is present, and it fills no storage.
pub proof fn without_subscriptions_nothing_is_added(
    properties: Seq<PropertyView>,
    extra: Seq<FieldView>,
    with_context: bool,
)
    ensures
        fields_of(properties, Seq::empty()) == declared_fields(properties),
        params_of(properties, extra, Seq::empty(), with_context) == required_of(properties)
            + extra,
        storage_text(Seq::empty()) == Seq::<char>::empty(),
{
    assert(params_of(properties, extra, Seq::empty(), with_context) =~= required_of(properties)
        + extra);
}

/// With a subscription the struct has the fields of the properties and, after
/// them, the subscription storage: one field more, and the only one of its
/// name unless a property takes that name.
pub proof fn with_subscriptions_one_storage_field(
    properties: Seq<PropertyView>,
    subscriptions: Seq<SubscriptionView>,
)
    requires
        subscriptions.len() > 0,
    ensures
        fields_of(properties, subscriptions).len() == properties.len() + 1,
        fields_of(properties, subscriptions).last() == storage_field(),
        fields_of(properties, subscriptions).drop_last() == declared_fields(properties),
        !has_property(properties, storage_field().name) ==> forall|k: int|
            0 <= k < properties.len() ==> (#[trigger] fields_of(properties, subscriptions)[k]).name
                != storage_field().name,
{
    assert(fields_of(properties, subscriptions).drop_last() =~= declared_fields(properties));
    if !has_property(properties, storage_field().name) {
        assert forall|k: int| 0 <= k < properties.len() implies (#[trigger] fields_of(
            properties,
            subscriptions,
        )[k]).name != storage_field().name by {
            assert(properties[k].name != storage_field().name);
        }
    }
}

/// The constructor registers every subscription of the body, in declaration
/// order: the subscription of a statement stands among those of the schema,
/// and of two the one declared first stands first.
pub proof fn subscriptions_keep_their_order(kinds: Seq<KindView>, i: int, j: int)
    requires
        0 <= i < kinds.len(),
        kinds[i] is Subscription,
    ensures
        0 <= subscription_place(kinds, i) < schema_of(kinds).subscriptions.len(),
        schema_of(kinds).subscriptions[subscription_place(kinds, i)] == kinds[i]->Subscription_0,
        i < j < kinds.len() && kinds[j] is Subscription ==> subscription_place(kinds, i)
            < subscription_place(kinds, j),
{
    let pick = |kind: KindView| subscription_in(kind);
    selected_item_has_its_place(kinds, pick, i);
    if i < j < kinds.len() {
        places_follow_the_items(kinds, pick, i, j);
    }
}

/// The fields of the struct follow the declarations: the property of a
/// statement stands among those of the schema, and of two the one declared
/// first stands first.
pub proof fn properties_keep_their_order(kinds: Seq<KindView>, i: int, j: int)
    requires
        0 <= i < kinds.len(),
        kinds[i] is Property,
    ensures
        0 <= property_place(kinds, i) < schema_of(kinds).properties.len(),
        schema_of(kinds).properties[property_place(kinds, i)] == kinds[i]->Property_0,
        i < j < kinds.len() && kinds[j] is Property ==> property_place(kinds, i) < property_place(
            kinds,
            j,
        ),
{
    let pick = |kind: KindView| property_in(kind);
    selected_item_has_its_place(kinds, pick, i);
    if i < j < kinds.len() {
        places_follow_the_items(kinds, pick, i, j);
    }
}

/// The generated method holds every ordinary statement, as it was written,
/// and of two the one written first stands first.
pub proof fn ordinary_statements_keep_their_order(kinds: Seq<KindView>, i: int, j: int)
    requires
        0 <= i < kinds.len(),
        kinds[i] is Ordinary,
    ensures
        0 <= ordinary_place(kinds, i) < schema_of(kinds).body.len(),
        schema_of(kinds).body[ordinary_place(kinds, i)] == kinds[i]->Ordinary_0,
        i < j < kinds.len() && kinds[j] is Ordinary ==> ordinary_place(kinds, i) < ordinary_place(
            kinds,
            j,
        ),
{
    let pick = |kind: KindView| ordinary_text(kind);
    selected_item_has_its_place(kinds, pick, i);
    if i < j < kinds.len() {
        places_follow_the_items(kinds, pick, i, j);
    }
}

/// The generated method holds nothing but the ordinary statements: each of
/// its statements is one of them.
pub proof fn method_holds_ordinary_statements_only(kinds: Seq<KindView>, k: int) -> (i: int)
    requires
        0 <= k < schema_of(kinds).body.len(),
    ensures
        0 <= i < kinds.len(),
        kinds[i] is Ordinary,
        kinds[i]->Ordinary_0 == schema_of(kinds).body[k],
        ordinary_place(kinds, i) == k,
{
    let pick = |kind: KindView| ordinary_text(kind);
    let i = every_place_is_taken(kinds, pick, k);
    selected_item_has_its_place(kinds, pick, i);
    i
}

/// No ordinary statement reaches the struct, the constructor or the setters:
/// two bodies with the same declarations give the same text for them,
/// whatever their ordinary statements are.
pub proof fn ordinary_statements_stay_out_of_the_constructor(
    name: Seq<char>,
    first: SchemaView,
    second: SchemaView,
)
    requires
        first.properties == second.properties,
        first.subscriptions == second.subscriptions,
        first.with_context == second.with_context,
    ensures
        struct_text(name, first.properties, first.subscriptions) == struct_text(
            name,
            second.properties,
            second.subscriptions,
        ),
        new_method_text(first.properties, Seq::empty(), first.subscriptions, first.with_context)
            == new_method_text(
            second.properties,
            Seq::empty(),
            second.subscriptions,
            second.with_context,
        ),
        set_methods_text(first.properties) == set_methods_text(second.properties),
{
}

/// The constructor binds the computed properties in their order: the text
/// for the first `k + 1` bindings is the text for the first `k`, followed by
/// the binding at `k`.
pub proof fn bindings_are_written_in_order(bindings: Seq<BindingView>, k: int)
    requires
        0 <= k < bindings.len(),
    ensures
        binding_lines(bindings.take(k + 1)) == binding_lines(bindings.take(k)) + binding_line(
            bindings[k],
        ),
{
    lines_follow_the_items(bindings, |binding: BindingView| binding_line(binding), k);
}

/// The constructor registers the subscriptions in their order: the text for
/// the first `k + 1` registrations is the text for the first `k`, followed by
/// the registration at `k`.
pub proof fn registrations_are_written_in_order(subscriptions: Seq<SubscriptionView>, k: int)
    requires
        0 <= k < subscriptions.len(),
    ensures
        registration_lines(subscriptions.take(k + 1)) == registration_lines(subscriptions.take(k))
            + registration_line(subscriptions[k]),
{
    lines_follow_the_items(
        subscriptions,
        |subscription: SubscriptionView| registration_line(subscription),
        k,
    );
}

/// The generated method holds its statements in their order: the text for
/// the first `k + 1` statements is the text for the first `k`, followed by
/// the statement at `k` as it was written.
pub proof fn statements_are_written_in_order(body: Seq<Seq<char>>, k: int)
    requires
        0 <= k < body.len(),
    ensures
        statement_lines(body.take(k + 1)) == statement_lines(body.take(k)) + statement_line(
            body[k],
        ),
{
    lines_follow_the_items(body, |statement: Seq<char>| statement_line(statement), k);
}

/// There is one setter for each property, with or without an initializer,
/// and the setters stand in the order of the declarations: the text for the
/// first `k + 1` properties is the text for the first `k`, followed by the
/// setter of the property at `k`.
pub proof fn setters_are_written_in_order(properties: Seq<PropertyView>, k: int)
    requires
        0 <= k < properties.len(),
    ensures
        set_methods_text(properties.take(k + 1)) == set_methods_text(properties.take(k))
            + setter_text(properties[k]),
{
    lines_follow_the_items(properties, |property: PropertyView| setter_text(property), k);
}

/// Synthesis is deterministic: two runs on functions that are the same, part
/// for part, end in the same text or in the same error.
pub proof fn synthesis_is_deterministic(
    function: FunctionItem,
    again: FunctionItem,
    first: Result<String, ComponentError>,
    second: Result<String, ComponentError>,
)
    requires
        function@ == again@,
        outcome_view(first) == synthesized(function@),
        outcome_view(second) == synthesized(again@),
    ensures
        outcome_view(first) == outcome_view(second),
{
}

/// The whole transformation is deterministic: two runs on one source text
/// end in the same text or in the same error.
pub proof fn transformation_is_deterministic(
    item: Seq<char>,
    first: Result<String, ComponentError>,
    second: Result<String, ComponentError>,
)
    requires
        outcome_view(first) == transformed(item),
        outcome_view(second) == transformed(item),
    ensures
        outcome_view(first) == outcome_view(second),
{
}

} // verus!
