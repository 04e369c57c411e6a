use simple_gpui_core::extractors::{
    classify, classify_all, extract_component_property, extract_subscribe, extract_with_context,
    parse_property, parse_subscription, parse_typed_value,
};
use simple_gpui_core::model::{
    Invocation, PropertyDecl, Statement, StatementKind, SubscriptionDecl,
};

fn invocation(path: &str, arguments: &str) -> Statement {
    Statement {
        text: format!("{} ! ({}) ;", path, arguments),
        invocation: Some(Invocation { path: path.to_string(), arguments: arguments.to_string() }),
    }
}

fn plain(text: &str) -> Statement {
    Statement { text: text.to_string(), invocation: None }
}

fn property(name: &str, ty: &str, initializer: Option<&str>) -> PropertyDecl {
    PropertyDecl {
        name: name.to_string(),
        ty: ty.to_string(),
        initializer: initializer.map(|text| text.to_string()),
    }
}

fn subscription(source: &str, handler: &str) -> SubscriptionDecl {
    SubscriptionDecl { source: source.to_string(), handler: handler.to_string() }
}

#[test]
fn property_without_initializer() {
    assert_eq!(parse_property("label: Text"), Some(property("label", "Text", None)));
}

#[test]
fn property_with_initializer() {
    assert_eq!(parse_property("count: Integer = 0"), Some(property("count", "Integer", Some("0"))));
}

#[test]
fn property_texts_are_the_parsers_rendering() {
    assert_eq!(
        parse_property("  items :Vec<u8>=Vec::new( )"),
        Some(property("items", "Vec < u8 >", Some("Vec :: new ()")))
    );
}

#[test]
fn property_type_may_hold_an_equals_sign() {
    assert_eq!(
        parse_property("it: Box<dyn Iterator<Item = u8>> = start()"),
        Some(property("it", "Box < dyn Iterator < Item = u8 > >", Some("start ()")))
    );
    assert_eq!(
        parse_property("it: Box<dyn Iterator<Item = u8>>"),
        Some(property("it", "Box < dyn Iterator < Item = u8 > >", None))
    );
}

#[test]
fn property_splits_at_the_first_equals_sign_that_works() {
    assert_eq!(parse_property("x: T = a = b"), Some(property("x", "T", Some("a = b"))));
    assert_eq!(parse_property("x: T = a == b"), Some(property("x", "T", Some("a == b"))));
    assert_eq!(
        parse_property("x: [u8; a <= b] = c"),
        Some(property("x", "[u8 ; a <= b]", Some("c")))
    );
}

#[test]
fn property_type_may_be_a_path() {
    assert_eq!(
        parse_property("state: gpui::Entity<State>"),
        Some(property("state", "gpui :: Entity < State >", None))
    );
}

#[test]
fn property_name_is_strict() {
    assert_eq!(parse_property(": Text"), None);
    assert_eq!(parse_property("a b: Text"), None);
    assert_eq!(parse_property("a.b: Text"), None);
    assert_eq!(parse_property("type: Text"), None);
    assert_eq!(parse_property("5: Text"), None);
    assert_eq!(parse_property("r#type: Text"), Some(property("r#type", "Text", None)));
}

#[test]
fn property_colon_is_strict() {
    assert_eq!(parse_property("label Text"), None);
    assert_eq!(parse_property("label = Text"), None);
    assert_eq!(parse_property("label :: Text"), None);
    assert_eq!(parse_property(""), None);
}

#[test]
fn property_type_is_strict() {
    assert_eq!(parse_property("label:"), None);
    assert_eq!(parse_property("label: 5"), None);
    assert_eq!(parse_property("label: Vec<"), None);
    assert_eq!(parse_property("label: = 5"), None);
}

#[test]
fn property_initializer_needs_its_equals_sign_and_its_expression() {
    assert_eq!(parse_property("label: Text ="), None);
    assert_eq!(parse_property("label: Text 5"), None);
    assert_eq!(parse_property("label: Text == 5"), None);
    assert_eq!(parse_property("label: Text = 1 +"), None);
    assert_eq!(parse_property("label: Text = 5;"), None);
    assert_eq!(parse_property("label: Text = 5, other: Text"), None);
}

#[test]
fn typed_value_alone() {
    assert_eq!(parse_typed_value(" u32 "), Some(("u32".to_string(), None)));
    assert_eq!(
        parse_typed_value("u32 = 1 + 2"),
        Some(("u32".to_string(), Some("1 + 2".to_string())))
    );
    assert_eq!(parse_typed_value("= 1"), None);
    assert_eq!(parse_typed_value(""), None);
}

#[test]
fn subscription_with_closure() {
    assert_eq!(
        parse_subscription("state, move |this, _, event, _, cx| cx.notify()"),
        Some(subscription("state", "move | this , _ , event , _ , cx | cx . notify ()"))
    );
}

#[test]
fn subscription_with_block() {
    assert_eq!(
        parse_subscription("state, { let s = state.clone(); move |_, _| s.touch() }"),
        Some(subscription("state", "{ let s = state . clone () ; move | _ , _ | s . touch () }"))
    );
}

#[test]
fn subscription_needs_exactly_two_arguments() {
    assert_eq!(parse_subscription(""), None);
    assert_eq!(parse_subscription("state"), None);
    assert_eq!(parse_subscription("state,"), None);
    assert_eq!(parse_subscription(", handler"), None);
    assert_eq!(parse_subscription("state, handler,"), None);
    assert_eq!(parse_subscription("state, handler, more"), None);
    assert_eq!(parse_subscription("state, handler"), Some(subscription("state", "handler")));
}

#[test]
fn subscription_source_is_a_plain_identifier() {
    assert_eq!(parse_subscription("self.state, handler"), None);
    assert_eq!(parse_subscription("&state, handler"), None);
    assert_eq!(parse_subscription("state(), handler"), None);
    assert_eq!(parse_subscription("self, handler"), None);
}

#[test]
fn extract_property_from_marker() {
    let stmt = invocation("component_property", "text : SharedString = SharedString :: new (\"World\")");
    assert_eq!(
        extract_component_property(&stmt),
        Some(property("text", "SharedString", Some("SharedString :: new (\"World\")")))
    );
    assert_eq!(extract_subscribe(&stmt), None);
    assert!(!extract_with_context(&stmt));
}

#[test]
fn extract_property_needs_the_marker_name() {
    assert_eq!(extract_component_property(&invocation("property", "a: u8")), None);
    assert_eq!(extract_component_property(&invocation("component_property ", "a: u8")), None);
    assert_eq!(extract_component_property(&invocation("core :: component_property", "a: u8")), None);
    assert_eq!(extract_component_property(&invocation("subscribe", "a: u8")), None);
    assert_eq!(extract_component_property(&plain("component_property ! (a : u8) ;")), None);
}

#[test]
fn extract_subscribe_from_marker() {
    let stmt = invocation("subscribe", "input, |_, _| ()");
    assert_eq!(extract_subscribe(&stmt), Some(subscription("input", "| _ , _ | ()")));
    assert_eq!(extract_component_property(&stmt), None);
    assert!(!extract_with_context(&stmt));
}

#[test]
fn extract_subscribe_needs_the_marker_name() {
    assert_eq!(extract_subscribe(&invocation("subscribe_in", "a, b")), None);
    assert_eq!(extract_subscribe(&invocation("component_property", "a, b")), None);
    assert_eq!(extract_subscribe(&plain("subscribe ! (a , b) ;")), None);
}

#[test]
fn extract_context_by_name_alone() {
    assert!(extract_with_context(&invocation("init_with_context", "")));
    assert!(extract_with_context(&invocation("init_with_context", "anything at all ,,")));
    assert!(!extract_with_context(&invocation("with_context", "")));
    assert!(!extract_with_context(&invocation("init_with_context_now", "")));
    assert!(!extract_with_context(&plain("init_with_context ! () ;")));
}

#[test]
fn classify_each_kind() {
    assert_eq!(
        classify(&invocation("component_property", "a: u8")),
        StatementKind::Property(property("a", "u8", None))
    );
    assert_eq!(
        classify(&invocation("subscribe", "a, b")),
        StatementKind::Subscription(subscription("a", "b"))
    );
    assert_eq!(classify(&invocation("init_with_context", "")), StatementKind::ContextRequirement);
    assert_eq!(classify(&plain("let x = 1 ;")), StatementKind::Ordinary("let x = 1 ;".to_string()));
    assert_eq!(
        classify(&invocation("println", "\"hi\"")),
        StatementKind::Ordinary("println ! (\"hi\") ;".to_string())
    );
}

#[test]
fn malformed_marker_is_passed_through() {
    let broken_property = invocation("component_property", "a b: u8");
    assert_eq!(
        classify(&broken_property),
        StatementKind::Ordinary("component_property ! (a b: u8) ;".to_string())
    );
    let broken_subscription = invocation("subscribe", "only_one");
    assert_eq!(
        classify(&broken_subscription),
        StatementKind::Ordinary("subscribe ! (only_one) ;".to_string())
    );
}

#[test]
fn classify_all_keeps_one_kind_per_statement() {
    let statements = vec![
        plain("let a = 1 ;"),
        invocation("component_property", "p: u8"),
        invocation("init_with_context", ""),
        invocation("subscribe", "p, h"),
        plain("a"),
    ];
    assert_eq!(
        classify_all(&statements),
        vec![
            StatementKind::Ordinary("let a = 1 ;".to_string()),
            StatementKind::Property(property("p", "u8", None)),
            StatementKind::ContextRequirement,
            StatementKind::Subscription(subscription("p", "h")),
            StatementKind::Ordinary("a".to_string()),
        ]
    );
    assert_eq!(classify_all(&Vec::new()), Vec::new());
}
