//! Gathers the classified statements of one body into a schema, and rejects a
//! body whose declarations do not fit together.
//!
//! Two rules are checked, statement by statement, and the first statement
//! that breaks one decides the error:
//!
//! - no property is declared under a name that an earlier statement declared;
//! - the source of a subscription is a property that an earlier statement
//!   declared, or, in a body that holds the context marker, one of the two
//!   identifiers that the marker brings in.
//!
//! From the schema follow the lists that the generated code is written from:
//! the fields of the struct, the parameters of the constructor and the locals
//! that it binds. Each keeps the order of the declarations.

use crate::model::{
    Binding, BindingView, ComponentError, ErrorView, Field, FieldView, KindView, PropertyDecl,
    PropertyView, StatementKind, SubscriptionDecl, SubscriptionView,
};
use crate::text::same_text;
use vstd::prelude::*;
use vstd::string::*;

verus! {

/// The declarations of one body, in the order in which they were written.
#[derive(Debug, PartialEq, Eq)]
pub struct Schema {
    /// The properties: the fields of the generated struct.
    pub properties: Vec<PropertyDecl>,
    /// The subscriptions that the constructor registers.
    pub subscriptions: Vec<SubscriptionDecl>,
    /// Whether the body holds the context marker.
    pub with_context: bool,
    /// The ordinary statements: the body of the generated method.
    pub body: Vec<String>,
}

/// What a [`Schema`] holds, as mathematical values.
pub struct SchemaView {
    pub properties: Seq<PropertyView>,
    pub subscriptions: Seq<SubscriptionView>,
    pub with_context: bool,
    pub body: Seq<Seq<char>>,
}

impl View for Schema {
    type V = SchemaView;

    open spec fn view(&self) -> SchemaView {
        SchemaView {
            properties: self.properties.deep_view(),
            subscriptions: self.subscriptions.deep_view(),
            with_context: self.with_context,
            body: self.body.deep_view(),
        }
    }
}

/// The property that a classified statement declares, if it declares one.
pub open spec fn property_in(kind: KindView) -> Option<PropertyView> {
    match kind {
        KindView::Property(property) => Some(property),
        _ => None,
    }
}

/// The subscription that a classified statement declares, if it declares one.
pub open spec fn subscription_in(kind: KindView) -> Option<SubscriptionView> {
    match kind {
        KindView::Subscription(subscription) => Some(subscription),
        _ => None,
    }
}

/// The text of a classified statement, if it is ordinary.
pub open spec fn ordinary_text(kind: KindView) -> Option<Seq<char>> {
    match kind {
        KindView::Ordinary(text) => Some(text),
        _ => None,
    }
}

/// The properties that the statements declare, in order.
pub open spec fn properties_in(kinds: Seq<KindView>) -> Seq<PropertyView> {
    kinds.filter_map(|kind: KindView| property_in(kind))
}

/// The subscriptions that the statements declare, in order.
pub open spec fn subscriptions_in(kinds: Seq<KindView>) -> Seq<SubscriptionView> {
    kinds.filter_map(|kind: KindView| subscription_in(kind))
}

/// The ordinary statements, in order.
pub open spec fn ordinary_in(kinds: Seq<KindView>) -> Seq<Seq<char>> {
    kinds.filter_map(|kind: KindView| ordinary_text(kind))
}

/// Whether one of the statements is the context marker.
pub open spec fn asks_for_context(kinds: Seq<KindView>) -> bool {
    exists|i: int| 0 <= i < kinds.len() && #[trigger] kinds[i] is ContextRequirement
}

/// The schema of a body: its declarations, each kind in its written order.
pub open spec fn schema_of(kinds: Seq<KindView>) -> SchemaView {
    SchemaView {
        properties: properties_in(kinds),
        subscriptions: subscriptions_in(kinds),
        with_context: asks_for_context(kinds),
        body: ordinary_in(kinds),
    }
}

/// Whether one of the properties is called `name`.
pub open spec fn has_property(properties: Seq<PropertyView>, name: Seq<char>) -> bool {
    exists|k: int| 0 <= k < properties.len() && (#[trigger] properties[k]).name == name
}

/// Whether a statement before the one at index `at` declares a property
/// called `name`.
pub open spec fn declared_before(kinds: Seq<KindView>, at: int, name: Seq<char>) -> bool {
    has_property(properties_in(kinds.take(at)), name)
}

/// Whether `name` is one of the identifiers that the context marker brings
/// into the constructor.
pub open spec fn context_identifier(name: Seq<char>) -> bool {
    name == "cx"@ || name == "window"@
}

/// Whether the subscription at index `at` may take `source` as its source.
pub open spec fn resolves(kinds: Seq<KindView>, at: int, source: Seq<char>) -> bool {
    declared_before(kinds, at, source) || (asks_for_context(kinds) && context_identifier(source))
}

/// The rule that the statement at index `at` breaks, if it breaks one.
pub open spec fn offence_at(kinds: Seq<KindView>, at: int) -> Option<ErrorView> {
    match kinds[at] {
        KindView::Property(property) => if declared_before(kinds, at, property.name) {
            Some(ErrorView::DuplicateField { name: property.name, statement: at })
        } else {
            None
        },
        KindView::Subscription(subscription) => if resolves(kinds, at, subscription.source) {
            None
        } else {
            Some(
                ErrorView::UnresolvedSubscriptionSource {
                    name: subscription.source,
                    statement: at,
                },
            )
        },
        _ => None,
    }
}

/// The rule that the first offending statement from index `from` on breaks.
pub open spec fn first_offence(kinds: Seq<KindView>, from: int) -> Option<ErrorView>
    decreases kinds.len() - from,
{
    if from < 0 || from >= kinds.len() {
        None
    } else if offence_at(kinds, from) is Some {
        offence_at(kinds, from)
    } else {
        first_offence(kinds, from + 1)
    }
}

/// What the schema builder returns for a body: its schema, or the rule that
/// its first offending statement breaks.
pub open spec fn checked_schema(kinds: Seq<KindView>) -> Result<SchemaView, ErrorView> {
    match first_offence(kinds, 0) {
        Some(error) => Err(error),
        None => Ok(schema_of(kinds)),
    }
}

/// The view of a schema, or of the error in its place.
pub open spec fn built_view(r: Result<Schema, ComponentError>) -> Result<SchemaView, ErrorView> {
    match r {
        Ok(schema) => Ok(schema@),
        Err(error) => Err(error@),
    }
}

/// The field that a property becomes.
pub open spec fn field_of(property: PropertyView) -> FieldView {
    FieldView { name: property.name, ty: property.ty }
}

/// One field for each property, in declaration order.
pub open spec fn declared_fields(properties: Seq<PropertyView>) -> Seq<FieldView> {
    Seq::new(properties.len(), |i: int| field_of(properties[i]))
}

/// The parameter that a property asks of the constructor: none where it has
/// an initializer.
pub open spec fn required_field(property: PropertyView) -> Option<FieldView> {
    match property.initializer {
        Some(_) => None,
        None => Some(field_of(property)),
    }
}

/// The local that the constructor binds for a property: none where it has no
/// initializer.
pub open spec fn computed_binding(property: PropertyView) -> Option<BindingView> {
    match property.initializer {
        Some(value) => Some(BindingView { name: property.name, ty: property.ty, value }),
        None => None,
    }
}

/// The properties without an initializer, in declaration order: the
/// parameters that the constructor requires.
pub open spec fn required_of(properties: Seq<PropertyView>) -> Seq<FieldView> {
    properties.filter_map(|property: PropertyView| required_field(property))
}

/// The properties with an initializer, in declaration order: the locals that
/// the constructor binds.
pub open spec fn computed_of(properties: Seq<PropertyView>) -> Seq<BindingView> {
    properties.filter_map(|property: PropertyView| computed_binding(property))
}

/// The field that keeps the subscriptions alive as long as the component.
pub open spec fn storage_field() -> FieldView {
    FieldView { name: "_subscriptions"@, ty: "Vec<Subscription>"@ }
}

/// The fields of the generated struct: one for each property, and the
/// subscription storage where there is a subscription.
pub open spec fn fields_of(
    properties: Seq<PropertyView>,
    subscriptions: Seq<SubscriptionView>,
) -> Seq<FieldView> {
    if subscriptions.len() > 0 {
        declared_fields(properties).push(storage_field())
    } else {
        declared_fields(properties)
    }
}

/// The context and the window, in this order.
pub open spec fn context_params() -> Seq<FieldView> {
    seq![
        FieldView { name: "cx"@, ty: "&mut Context<Self>"@ },
        FieldView { name: "window"@, ty: "&mut Window"@ },
    ]
}

/// The context parameters that the constructor takes: both where there is a
/// subscription and the context marker was present, else none.
pub open spec fn context_of(subscriptions: Seq<SubscriptionView>, with_context: bool) -> Seq<
    FieldView,
> {
    if subscriptions.len() > 0 && with_context {
        context_params()
    } else {
        Seq::empty()
    }
}

/// The parameters of the constructor.
pub open spec fn params_of(
    properties: Seq<PropertyView>,
    extra: Seq<FieldView>,
    subscriptions: Seq<SubscriptionView>,
    with_context: bool,
) -> Seq<FieldView> {
    required_of(properties) + extra + context_of(subscriptions, with_context)
}

/// Tells whether one of the properties is called `name`.
pub fn declares(properties: &Vec<PropertyDecl>, name: &str) -> (r: bool)
    ensures
        r == has_property(properties.deep_view(), name@),
{
    let mut k: usize = 0;
    while k < properties.len()
        invariant
            k <= properties.len(),
            forall|j: int| 0 <= j < k ==> (#[trigger] properties.deep_view()[j]).name != name@,
        decreases properties.len() - k,
    {
        if same_text(properties[k].name.as_str(), name) {
            assert(properties.deep_view()[k as int].name == name@);
            return true;
        }
        k += 1;
    }
    false
}

/// Tells whether `name` is `cx` or `window`.
pub fn is_context_identifier(name: &str) -> (r: bool)
    ensures
        r == context_identifier(name@),
{
    same_text(name, "cx") || same_text(name, "window")
}

/// Tells whether one of the statements is the context marker.
pub fn has_context_marker(kinds: &Vec<StatementKind>) -> (r: bool)
    ensures
        r == asks_for_context(kinds.deep_view()),
{
    let mut i: usize = 0;
    while i < kinds.len()
        invariant
            i <= kinds.len(),
            forall|j: int| 0 <= j < i ==> !(#[trigger] kinds.deep_view()[j] is ContextRequirement),
        decreases kinds.len() - i,
    {
        if let StatementKind::ContextRequirement = &kinds[i] {
            assert(kinds.deep_view()[i as int] is ContextRequirement);
            return true;
        }
        i += 1;
    }
    false
}

/// Builds the schema of a body from its classified statements, or names the
/// rule that the first offending statement breaks.
pub fn build_schema(kinds: &Vec<StatementKind>) -> (r: Result<Schema, ComponentError>)
    ensures
        built_view(r) == checked_schema(kinds.deep_view()),
{
    let ghost all = kinds.deep_view();
    let with_context = has_context_marker(kinds);
    let mut properties: Vec<PropertyDecl> = Vec::new();
    let mut subscriptions: Vec<SubscriptionDecl> = Vec::new();
    let mut body: Vec<String> = Vec::new();
    let mut i: usize = 0;
    assert(all.take(0) =~= Seq::empty());
    while i < kinds.len()
        invariant
            i <= kinds.len(),
            all == kinds.deep_view(),
            with_context == asks_for_context(all),
            first_offence(all, 0) == first_offence(all, i as int),
            properties.deep_view() == properties_in(all.take(i as int)),
            subscriptions.deep_view() == subscriptions_in(all.take(i as int)),
            body.deep_view() == ordinary_in(all.take(i as int)),
        decreases kinds.len() - i,
    {
        proof {
            all.lemma_filter_map_take_succ(|kind: KindView| property_in(kind), i as int);
            all.lemma_filter_map_take_succ(|kind: KindView| subscription_in(kind), i as int);
            all.lemma_filter_map_take_succ(|kind: KindView| ordinary_text(kind), i as int);
        }
        assert(all[i as int] == kinds[i as int]@);
        match &kinds[i] {
            StatementKind::Property(property) => {
                if declares(&properties, property.name.as_str()) {
                    return Err(
                        ComponentError::DuplicateField {
                            name: property.name.clone(),
                            statement: i,
                        },
                    );
                }
                let ghost old_properties = properties.deep_view();
                properties.push(property.clone());
                assert(properties.deep_view() =~= old_properties + seq![property@]);
            },
            StatementKind::Subscription(subscription) => {
                let resolved = declares(&properties, subscription.source.as_str()) || (with_context
                    && is_context_identifier(subscription.source.as_str()));
                if !resolved {
                    return Err(
                        ComponentError::UnresolvedSubscriptionSource {
                            name: subscription.source.clone(),
                            statement: i,
                        },
                    );
                }
                let ghost old_subscriptions = subscriptions.deep_view();
                subscriptions.push(subscription.clone());
                assert(subscriptions.deep_view() =~= old_subscriptions + seq![subscription@]);
            },
            StatementKind::ContextRequirement => {},
            StatementKind::Ordinary(text) => {
                let ghost old_body = body.deep_view();
                body.push(text.clone());
                assert(body.deep_view() =~= old_body + seq![text@]);
            },
        }
        i += 1;
    }
    assert(all.take(i as int) =~= all);
    Ok(Schema { properties, subscriptions, with_context, body })
}

/// The field that a property becomes.
pub fn property_field(property: &PropertyDecl) -> (field: Field)
    ensures
        field@ == field_of(property@),
{
    Field { name: property.name.clone(), ty: property.ty.clone() }
}

/// The field that keeps the subscriptions.
pub fn subscription_storage() -> (field: Field)
    ensures
        field@ == storage_field(),
{
    Field { name: String::from_str("_subscriptions"), ty: String::from_str("Vec<Subscription>") }
}

/// The parameters that the constructor requires for the properties.
pub fn required_params(properties: &Vec<PropertyDecl>) -> (params: Vec<Field>)
    ensures
        params.deep_view() == required_of(properties.deep_view()),
{
    let ghost all = properties.deep_view();
    let mut params: Vec<Field> = Vec::new();
    let mut i: usize = 0;
    assert(all.take(0) =~= Seq::empty());
    while i < properties.len()
        invariant
            i <= properties.len(),
            all == properties.deep_view(),
            params.deep_view() == required_of(all.take(i as int)),
        decreases properties.len() - i,
    {
        proof {
            all.lemma_filter_map_take_succ(
                |property: PropertyView| required_field(property),
                i as int,
            );
        }
        if properties[i].initializer.is_none() {
            let ghost before = params.deep_view();
            params.push(property_field(&properties[i]));
            assert(params.deep_view() =~= before + seq![field_of(all[i as int])]);
        }
        i += 1;
    }
    assert(all.take(i as int) =~= all);
    params
}

/// The locals that the constructor binds for the properties.
pub fn computed_bindings(properties: &Vec<PropertyDecl>) -> (bindings: Vec<Binding>)
    ensures
        bindings.deep_view() == computed_of(properties.deep_view()),
{
    let ghost all = properties.deep_view();
    let mut bindings: Vec<Binding> = Vec::new();
    let mut i: usize = 0;
    assert(all.take(0) =~= Seq::empty());
    while i < properties.len()
        invariant
            i <= properties.len(),
            all == properties.deep_view(),
            bindings.deep_view() == computed_of(all.take(i as int)),
        decreases properties.len() - i,
    {
        proof {
            all.lemma_filter_map_take_succ(
                |property: PropertyView| computed_binding(property),
                i as int,
            );
        }
        if let Some(value) = &properties[i].initializer {
            let ghost before = bindings.deep_view();
            bindings.push(
                Binding {
                    name: properties[i].name.clone(),
                    ty: properties[i].ty.clone(),
                    value: value.clone(),
                },
            );
            assert(bindings.deep_view() =~= before + seq![computed_binding(all[i as int])->0]);
        }
        i += 1;
    }
    assert(all.take(i as int) =~= all);
    bindings
}

/// The fields of the generated struct.
pub fn field_list(properties: &Vec<PropertyDecl>, subscriptions: &Vec<SubscriptionDecl>) -> (fields:
    Vec<Field>)
    ensures
        fields.deep_view() == fields_of(properties.deep_view(), subscriptions.deep_view()),
{
    let mut fields: Vec<Field> = Vec::new();
    let mut i: usize = 0;
    while i < properties.len()
        invariant
            i <= properties.len(),
            fields.len() == i,
            forall|j: int|
                0 <= j < i ==> (#[trigger] fields[j])@ == field_of(properties.deep_view()[j]),
        decreases properties.len() - i,
    {
        fields.push(property_field(&properties[i]));
        i += 1;
    }
    assert(fields.deep_view() =~= declared_fields(properties.deep_view()));
    if subscriptions.len() > 0 {
        let ghost before = fields.deep_view();
        fields.push(subscription_storage());
        assert(fields.deep_view() =~= before.push(storage_field()));
    }
    fields
}

/// The parameters of the constructor.
pub fn constructor_params(
    properties: &Vec<PropertyDecl>,
    temp_properties: &Vec<Field>,
    subscribes: &Vec<SubscriptionDecl>,
    with_context: bool,
) -> (params: Vec<Field>)
    ensures
        params.deep_view() == params_of(
            properties.deep_view(),
            temp_properties.deep_view(),
            subscribes.deep_view(),
            with_context,
        ),
{
    let mut params = required_params(properties);
    let ghost required = params.deep_view();
    let mut i: usize = 0;
    while i < temp_properties.len()
        invariant
            i <= temp_properties.len(),
            params.deep_view() == required + temp_properties.deep_view().take(i as int),
        decreases temp_properties.len() - i,
    {
        let ghost before = params.deep_view();
        params.push(temp_properties[i].clone());
        assert(params.deep_view() =~= before.push(temp_properties.deep_view()[i as int]));
        assert(params.deep_view() =~= required + temp_properties.deep_view().take(i + 1));
        i += 1;
    }
    assert(temp_properties.deep_view().take(i as int) =~= temp_properties.deep_view());
    if subscribes.len() > 0 && with_context {
        let ghost before = params.deep_view();
        params.push(
            Field { name: String::from_str("cx"), ty: String::from_str("&mut Context<Self>") },
        );
        params.push(Field { name: String::from_str("window"), ty: String::from_str("&mut Window") });
        assert(params.deep_view() =~= before + context_params());
    } else {
        assert(params.deep_view() + Seq::<FieldView>::empty() =~= params.deep_view());
    }
    params
}

} // verus!
