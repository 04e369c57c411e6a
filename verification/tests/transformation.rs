use simple_gpui_core::model::{ComponentError, FunctionItem, Invocation, Statement};
use simple_gpui_core::{
    component, generate_component, generate_render_method, generate_struct, synthesize,
};
use simple_gpui_core::model::{PropertyDecl, SubscriptionDecl};
use simple_gpui_core::schema::Schema;

fn concat_lines(lines: &[&str]) -> String {
    let mut text = String::new();
    for line in lines {
        text.push_str(line);
        text.push('\n');
    }
    text
}

fn decl(name: &str, ty: &str, initializer: Option<&str>) -> PropertyDecl {
    PropertyDecl {
        name: name.to_string(),
        ty: ty.to_string(),
        initializer: initializer.map(|text| text.to_string()),
    }
}

fn subscription(source: &str, handler: &str) -> SubscriptionDecl {
    SubscriptionDecl { source: source.to_string(), handler: handler.to_string() }
}

fn marker(path: &str, arguments: &str) -> Statement {
    Statement {
        text: format!("{} ! ({}) ;", path, arguments),
        invocation: Some(Invocation { path: path.to_string(), arguments: arguments.to_string() }),
    }
}

fn plain(text: &str) -> Statement {
    Statement { text: text.to_string(), invocation: None }
}

const COUNTER: &str = "
    fn counter() -> Text {
        component_property!(count: Integer = 0);
        component_property!(label: Text);
        return label
    }
";

#[test]
fn counter_becomes_a_component() {
    assert_eq!(
        component("", COUNTER),
        Ok(concat_lines(&[
            "pub struct Counter {",
            "    count: Integer,",
            "    label: Text,",
            "}",
            "",
            "impl Counter {",
            "    pub fn new(",
            "        label: Text,",
            "    ) -> Self {",
            "        let count: Integer = 0;",
            "        Self {",
            "            count,",
            "            label,",
            "        }",
            "    }",
            "",
            "    pub fn count(mut self, value: Integer) -> Self {",
            "        self.count = value;",
            "        self",
            "    }",
            "",
            "    pub fn label(mut self, value: Text) -> Self {",
            "        self.label = value;",
            "        self",
            "    }",
            "}",
            "",
            "impl Render for Counter {",
            "    fn render(&mut self, ) -> Text {",
            "        return label",
            "    }",
            "}",
        ]))
    );
}

#[test]
fn undeclared_subscription_source_gives_no_output() {
    let source = "
        fn view() -> impl IntoElement {
            subscribe!(missing_state, |_, _| ());
            div()
        }
    ";
    assert_eq!(
        component("", source),
        Err(ComponentError::UnresolvedSubscriptionSource {
            name: "missing_state".to_string(),
            statement: 0,
        })
    );
}

#[test]
fn duplicate_property_gives_no_output() {
    let source = "
        fn view() -> impl IntoElement {
            let before = 1;
            component_property!(title: Text);
            component_property!(title: Other = Other::new());
            div()
        }
    ";
    assert_eq!(
        component("", source),
        Err(ComponentError::DuplicateField { name: "title".to_string(), statement: 2 })
    );
}

#[test]
fn what_is_no_function_is_a_syntax_error() {
    assert_eq!(
        component("", "struct View;"),
        Err(ComponentError::Syntax { message: "expected `fn`".to_string() })
    );
    assert_eq!(
        component("", "fn view( {"),
        Err(ComponentError::Syntax { message: "cannot parse string into token stream".to_string() })
    );
    assert!(matches!(component("", ""), Err(ComponentError::Syntax { .. })));
    assert!(matches!(component("", "fn view() { let = ; }"), Err(ComponentError::Syntax { .. })));
    assert!(matches!(component("", "fn a() {} fn b() {}"), Err(ComponentError::Syntax { .. })));
}

#[test]
fn attribute_arguments_are_not_looked_at() {
    assert_eq!(component("anything (at all", COUNTER), component("", COUNTER));
}

#[test]
fn transformation_is_deterministic() {
    assert_eq!(component("", COUNTER), component("", COUNTER));
    let broken = "fn view() { subscribe!(nowhere, h); }";
    assert_eq!(component("", broken), component("", broken));
}

#[test]
fn type_is_named_in_camel_case() {
    let text = component("", "fn hello_world() {}").unwrap();
    assert!(text.starts_with("pub struct HelloWorld {\n}\n\nimpl HelloWorld {\n"));
    assert!(text.contains("\nimpl Render for HelloWorld {\n"));
    let text = component("", "fn _wild__underscore_s_() {}").unwrap();
    assert!(text.starts_with("pub struct WildUnderscoreS {\n"));
    let text = component("", "fn fooby() {}").unwrap();
    assert!(text.starts_with("pub struct Fooby {\n"));
    let text = component("", "fn already_Camel9_x() {}").unwrap();
    assert!(text.starts_with("pub struct AlreadyCamel9X {\n"));
    let text = component("", "fn a_string_and_a_miss() {}").unwrap();
    assert!(text.starts_with("pub struct AStringAndAMiss {\n"));
    let text = component("", "fn 言_語() {}").unwrap();
    assert!(text.starts_with("pub struct 言語 {\n"));
    let text = component("", "fn éa_éb() {}").unwrap();
    assert!(text.starts_with("pub struct éaéb {\n"));
}

#[test]
fn empty_function_becomes_an_empty_component() {
    assert_eq!(
        component("", "fn f() {}"),
        Ok(concat_lines(&[
            "pub struct F {",
            "}",
            "",
            "impl F {",
            "    pub fn new(",
            "    ) -> Self {",
            "        Self {",
            "        }",
            "    }",
            "}",
            "",
            "impl Render for F {",
            "    fn render(&mut self, )  {",
            "    }",
            "}",
        ]))
    );
}

#[test]
fn signature_is_carried_to_the_generated_method() {
    let source = "
        fn hello_world(_window: &mut Window, _cx: &mut Context<Self>) -> impl IntoElement {
            div()
        }
    ";
    let text = component("", source).unwrap();
    assert!(text.contains(
        "    fn render(&mut self, _window : & mut Window , _cx : & mut Context < Self >) -> impl IntoElement {\n        div ()\n    }\n"
    ));
}

#[test]
fn subscriptions_add_storage_and_context() {
    let source = "
        fn temperature(_window: &mut Window, _cx: &mut Context<Self>) -> impl IntoElement {
            init_with_context!();
            component_property!(input: Entity<InputState> = cx.new(|cx| InputState::new(window, cx)));
            component_property!(celsius: f32 = 0.);
            subscribe!(input, move |this, _, _: &InputEvent, _, cx| cx.notify());
            v_flex().child(TextInput::new(&self.input))
        }
    ";
    assert_eq!(
        component("", source),
        Ok(concat_lines(&[
            "pub struct Temperature {",
            "    input: Entity < InputState >,",
            "    celsius: f32,",
            "    _subscriptions: Vec<Subscription>,",
            "}",
            "",
            "impl Temperature {",
            "    pub fn new(",
            "        cx: &mut Context<Self>,",
            "        window: &mut Window,",
            "    ) -> Self {",
            "        let input: Entity < InputState > = cx . new (| cx | InputState :: new (window , cx));",
            "        let celsius: f32 = 0.;",
            "        let _subscriptions: Vec<Subscription> = vec![",
            "            cx.subscribe_in(&input, window, move | this , _ , _ : & InputEvent , _ , cx | cx . notify ()),",
            "        ];",
            "        Self {",
            "            input,",
            "            celsius,",
            "            _subscriptions,",
            "        }",
            "    }",
            "",
            "    pub fn input(mut self, value: Entity < InputState >) -> Self {",
            "        self.input = value;",
            "        self",
            "    }",
            "",
            "    pub fn celsius(mut self, value: f32) -> Self {",
            "        self.celsius = value;",
            "        self",
            "    }",
            "}",
            "",
            "impl Render for Temperature {",
            "    fn render(&mut self, _window : & mut Window , _cx : & mut Context < Self >) -> impl IntoElement {",
            "        v_flex () . child (TextInput :: new (& self . input))",
            "    }",
            "}",
        ]))
    );
}

#[test]
fn ordinary_statements_keep_their_order_and_stay_in_the_method() {
    let source = "
        fn view() -> u8 {
            let first = 1;
            component_property!(a: u8);
            let second = first + 1;
            init_with_context!();
            ;
            third();
            component_property!(b: u8 = 2);
            first + second
        }
    ";
    let text = component("", source).unwrap();
    let method = concat_lines(&[
        "    fn render(&mut self, ) -> u8 {",
        "        let first = 1 ;",
        "        let second = first + 1 ;",
        "        ;",
        "        third () ;",
        "        first + second",
        "    }",
    ]);
    assert!(text.ends_with(&format!("impl Render for View {{\n{}}}\n", method)));
    let before_method = &text[..text.len() - method.len()];
    assert!(!before_method.contains("first"));
    assert!(!before_method.contains("second"));
    assert!(!before_method.contains("third"));
    assert!(!text.contains("init_with_context"));
    assert!(!text.contains("component_property"));
}

#[test]
fn malformed_markers_stay_in_the_method() {
    let source = "
        fn view() {
            component_property!(a b: u8);
            subscribe!(only_one);
            component_property!(c: u8 =);
        }
    ";
    assert_eq!(
        component("", source),
        Ok(concat_lines(&[
            "pub struct View {",
            "}",
            "",
            "impl View {",
            "    pub fn new(",
            "    ) -> Self {",
            "        Self {",
            "        }",
            "    }",
            "}",
            "",
            "impl Render for View {",
            "    fn render(&mut self, )  {",
            "        component_property ! (a b : u8) ;",
            "        subscribe ! (only_one) ;",
            "        component_property ! (c : u8 =) ;",
            "    }",
            "}",
        ]))
    );
}

#[test]
fn invocation_in_result_position_is_an_expression() {
    let source = "fn view() { component_property!(a: u8) }";
    let text = component("", source).unwrap();
    assert!(text.starts_with("pub struct View {\n}\n"));
    assert!(text.contains("        component_property ! (a : u8)\n"));
}

#[test]
fn marker_with_braces_or_brackets_is_a_marker() {
    let source = "fn view() { component_property!{a: u8} component_property![b: u8]; }";
    let text = component("", source).unwrap();
    assert!(text.starts_with("pub struct View {\n    a: u8,\n    b: u8,\n}\n"));
}

#[test]
fn marker_inside_an_expression_is_no_marker() {
    let source = "fn view() { let x = component_property!(a: u8); { component_property!(b: u8); } }";
    let text = component("", source).unwrap();
    assert!(text.starts_with("pub struct View {\n}\n"));
    assert!(text.contains("        let x = component_property ! (a : u8) ;\n"));
}

#[test]
fn marker_under_a_longer_path_is_no_marker() {
    let source = "fn view() { simple_gpui::component_property!(a: u8); }";
    let text = component("", source).unwrap();
    assert!(text.starts_with("pub struct View {\n}\n"));
    assert!(text.contains("        simple_gpui :: component_property ! (a : u8) ;\n"));
}

#[test]
fn generated_text_is_rust() {
    let sources = [
        COUNTER,
        "fn f() {}",
        "fn hello_world(_window: &mut Window, _cx: &mut Context<Self>) -> impl IntoElement {
            init_with_context!();
            component_property!(input_state: Entity<InputState> = cx.new(|cx| InputState::new(window, cx)));
            component_property!(c: f32 = 0.);
            component_property!(selected: usize = 0);
            component_property!(names: Vec<(String, [u8; 4])>);
            subscribe!(input_state, {
                let input_state = input_state.clone();
                move |this, _, ev: &InputEvent, _window, cx| match ev {
                    InputEvent::Change => { cx.notify() }
                    _ => {}
                }
            });
            let label = \"Select: \";
            v_flex().child(label).child(TextInput::new(&self.input_state))
        }",
    ];
    for source in sources {
        let text = component("", source).unwrap();
        let file = syn::parse_str::<syn::File>(&text).unwrap();
        assert_eq!(file.items.len(), 3);
        assert!(matches!(file.items[0], syn::Item::Struct(_)));
        assert!(matches!(file.items[1], syn::Item::Impl(_)));
        assert!(matches!(file.items[2], syn::Item::Impl(_)));
    }
}

#[test]
fn synthesize_works_on_a_function_given_in_parts() {
    let function = FunctionItem {
        name: "hello_world".to_string(),
        inputs: "w: &mut Window".to_string(),
        output: "-> Div".to_string(),
        statements: vec![
            marker("component_property", "text: SharedString = SharedString::new(\"World\")"),
            marker("component_property", "name: SharedString"),
            plain("div().child(&self.text)"),
        ],
    };
    assert_eq!(
        synthesize(&function),
        Ok(concat_lines(&[
            "pub struct HelloWorld {",
            "    text: SharedString,",
            "    name: SharedString,",
            "}",
            "",
            "impl HelloWorld {",
            "    pub fn new(",
            "        name: SharedString,",
            "    ) -> Self {",
            "        let text: SharedString = SharedString :: new (\"World\");",
            "        Self {",
            "            text,",
            "            name,",
            "        }",
            "    }",
            "",
            "    pub fn text(mut self, value: SharedString) -> Self {",
            "        self.text = value;",
            "        self",
            "    }",
            "",
            "    pub fn name(mut self, value: SharedString) -> Self {",
            "        self.name = value;",
            "        self",
            "    }",
            "}",
            "",
            "impl Render for HelloWorld {",
            "    fn render(&mut self, w: &mut Window) -> Div {",
            "        div().child(&self.text)",
            "    }",
            "}",
        ]))
    );
}

#[test]
fn synthesize_reports_the_first_offending_statement() {
    let function = FunctionItem {
        name: "view".to_string(),
        inputs: String::new(),
        output: String::new(),
        statements: vec![
            plain("let a = 1 ;"),
            marker("component_property", "a: u8"),
            marker("subscribe", "b, h"),
            marker("component_property", "a: u8"),
        ],
    };
    assert_eq!(
        synthesize(&function),
        Err(ComponentError::UnresolvedSubscriptionSource { name: "b".to_string(), statement: 2 })
    );
}

#[test]
fn struct_text_lists_the_fields() {
    assert_eq!(generate_struct("Empty", &Vec::new(), &Vec::new()), "pub struct Empty {\n}\n");
    assert_eq!(
        generate_struct(
            "View",
            &vec![decl("a", "A", None), decl("b", "B", Some("1"))],
            &vec![subscription("a", "h")]
        ),
        concat_lines(&[
            "pub struct View {",
            "    a: A,",
            "    b: B,",
            "    _subscriptions: Vec<Subscription>,",
            "}",
        ])
    );
}

#[test]
fn render_method_holds_the_statements() {
    assert_eq!(
        generate_render_method("cx: &mut App", "-> Div", &vec!["let a = 1;".to_string(), "a".to_string()]),
        concat_lines(&[
            "    fn render(&mut self, cx: &mut App) -> Div {",
            "        let a = 1;",
            "        a",
            "    }",
        ])
    );
    assert_eq!(
        generate_render_method("", "", &Vec::new()),
        "    fn render(&mut self, )  {\n    }\n"
    );
}

#[test]
fn component_text_is_assembled_from_its_parts() {
    let schema = Schema {
        properties: vec![decl("a", "A", None)],
        subscriptions: Vec::new(),
        with_context: true,
        body: vec!["a".to_string()],
    };
    assert_eq!(
        generate_component("View", &schema, "", "-> A"),
        concat_lines(&[
            "pub struct View {",
            "    a: A,",
            "}",
            "",
            "impl View {",
            "    pub fn new(",
            "        a: A,",
            "    ) -> Self {",
            "        Self {",
            "            a,",
            "        }",
            "    }",
            "",
            "    pub fn a(mut self, value: A) -> Self {",
            "        self.a = value;",
            "        self",
            "    }",
            "}",
            "",
            "impl Render for View {",
            "    fn render(&mut self, ) -> A {",
            "        a",
            "    }",
            "}",
        ])
    );
}

#[test]
fn odd_bodies_are_transformed_or_rejected() {
    let sources = [
        "fn f() { component_property!(); subscribe!(); init_with_context!(1, 2, 3); }",
        "fn f() { component_property!(:); component_property!(=); component_property!(a:=); }",
        "fn f() { component_property!(a: &'static str = \"=:,\"); subscribe!(a, |_| \",\"); }",
        "fn f() { component_property!(a: [u8; 2] = [b'=', b':']); a[0] }",
        "fn f() { component_property!(名前: String = String::from(\"言語\")); 名前 }",
        "fn f() { component_property!(a: fn(u8) -> u8 = |x| x == 1); }",
        "fn f() { component_property!(a: Option<Box<dyn Fn(u8) -> bool>> = None); }",
        "fn f<T: Clone>(t: T) -> T where T: Default { t }",
        "pub(crate) async unsafe fn f() {}",
        "fn f() { #[allow(unused)] component_property!(a: u8); }",
    ];
    for source in sources {
        let first = component("", source);
        assert_eq!(first, component("", source));
        if let Ok(text) = first {
            assert!(syn::parse_str::<syn::File>(&text).is_ok(), "{}", text);
        }
    }
}

#[test]
fn property_value_may_hold_the_separators() {
    let source = "fn f() { component_property!(a: &'static str = \"=:,\"); subscribe!(a, |_| \",\"); }";
    let text = component("", source).unwrap();
    assert!(text.contains("        let a: & 'static str = \"=:,\";\n"));
    assert!(text.contains("            cx.subscribe_in(&a, window, | _ | \",\"),\n"));
}

#[test]
fn attribute_on_a_marker_is_dropped_with_it() {
    let text = component("", "fn f() { #[allow(unused)] component_property!(a: u8); }").unwrap();
    assert!(text.starts_with("pub struct F {\n    a: u8,\n}\n"));
    assert!(!text.contains("allow"));
}
