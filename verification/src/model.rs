//! The data that flows through one transformation, with the mathematical view
//! of each type that the contracts speak of.
//!
//! Code fragments (identifiers, types, expressions, statements) are held as
//! text. A view replaces every `String` by its `Seq<char>` and every `Vec` by
//! a `Seq`.

use vstd::prelude::*;

verus! {

/// A named, typed slot: a field of the generated struct or a parameter of its
/// constructor.
#[derive(Debug, PartialEq, Eq)]
pub struct Field {
    pub name: String,
    pub ty: String,
}

/// What a [`Field`] holds, as mathematical values.
pub struct FieldView {
    pub name: Seq<char>,
    pub ty: Seq<char>,
}

impl View for Field {
    type V = FieldView;

    open spec fn view(&self) -> FieldView {
        FieldView { name: self.name@, ty: self.ty@ }
    }
}

impl DeepView for Field {
    type V = FieldView;

    open spec fn deep_view(&self) -> FieldView {
        self@
    }
}

impl Clone for Field {
    fn clone(&self) -> (res: Self)
        ensures
            res@ == self@,
    {
        Field { name: self.name.clone(), ty: self.ty.clone() }
    }
}

/// A property declared by a marker: a field of the generated struct. Without
/// an initializer it is a required constructor parameter; with one it is
/// computed inside the constructor.
#[derive(Debug, PartialEq, Eq)]
pub struct PropertyDecl {
    pub name: String,
    pub ty: String,
    pub initializer: Option<String>,
}

/// What a [`PropertyDecl`] holds, as mathematical values.
pub struct PropertyView {
    pub name: Seq<char>,
    pub ty: Seq<char>,
    pub initializer: Option<Seq<char>>,
}

impl View for PropertyDecl {
    type V = PropertyView;

    open spec fn view(&self) -> PropertyView {
        PropertyView {
            name: self.name@,
            ty: self.ty@,
            initializer: self.initializer.deep_view(),
        }
    }
}

impl DeepView for PropertyDecl {
    type V = PropertyView;

    open spec fn deep_view(&self) -> PropertyView {
        self@
    }
}

impl Clone for PropertyDecl {
    fn clone(&self) -> (res: Self)
        ensures
            res@ == self@,
    {
        let initializer = match &self.initializer {
            Some(text) => Some(text.clone()),
            None => None,
        };
        PropertyDecl { name: self.name.clone(), ty: self.ty.clone(), initializer }
    }
}

/// A local that the constructor binds before it builds the struct: the value
/// of a property that has an initializer.
#[derive(Debug, PartialEq, Eq)]
pub struct Binding {
    pub name: String,
    pub ty: String,
    pub value: String,
}

/// What a [`Binding`] holds, as mathematical values.
pub struct BindingView {
    pub name: Seq<char>,
    pub ty: Seq<char>,
    pub value: Seq<char>,
}

impl View for Binding {
    type V = BindingView;

    open spec fn view(&self) -> BindingView {
        BindingView { name: self.name@, ty: self.ty@, value: self.value@ }
    }
}

impl DeepView for Binding {
    type V = BindingView;

    open spec fn deep_view(&self) -> BindingView {
        self@
    }
}

/// A handler registered against a source when the component is constructed.
#[derive(Debug, PartialEq, Eq)]
pub struct SubscriptionDecl {
    pub source: String,
    pub handler: String,
}

/// What a [`SubscriptionDecl`] holds, as mathematical values.
pub struct SubscriptionView {
    pub source: Seq<char>,
    pub handler: Seq<char>,
}

impl View for SubscriptionDecl {
    type V = SubscriptionView;

    open spec fn view(&self) -> SubscriptionView {
        SubscriptionView { source: self.source@, handler: self.handler@ }
    }
}

impl DeepView for SubscriptionDecl {
    type V = SubscriptionView;

    open spec fn deep_view(&self) -> SubscriptionView {
        self@
    }
}

impl Clone for SubscriptionDecl {
    fn clone(&self) -> (res: Self)
        ensures
            res@ == self@,
    {
        SubscriptionDecl { source: self.source.clone(), handler: self.handler.clone() }
    }
}

/// A macro invocation in statement position: `path!(arguments)`.
#[derive(Debug, PartialEq, Eq)]
pub struct Invocation {
    /// The macro's path as written.
    pub path: String,
    /// The tokens between the delimiters.
    pub arguments: String,
}

/// What a [`Invocation`] holds, as mathematical values.
pub struct InvocationView {
    pub path: Seq<char>,
    pub arguments: Seq<char>,
}

impl View for Invocation {
    type V = InvocationView;

    open spec fn view(&self) -> InvocationView {
        InvocationView { path: self.path@, arguments: self.arguments@ }
    }
}

impl DeepView for Invocation {
    type V = InvocationView;

    open spec fn deep_view(&self) -> InvocationView {
        self@
    }
}

/// One statement of a function body.
#[derive(Debug, PartialEq, Eq)]
pub struct Statement {
    /// The whole statement, its terminator included.
    pub text: String,
    /// What is invoked, where the statement is a macro invocation.
    pub invocation: Option<Invocation>,
}

/// What a [`Statement`] holds, as mathematical values.
pub struct StatementView {
    pub text: Seq<char>,
    pub invocation: Option<InvocationView>,
}

impl View for Statement {
    type V = StatementView;

    open spec fn view(&self) -> StatementView {
        StatementView { text: self.text@, invocation: self.invocation.deep_view() }
    }
}

impl DeepView for Statement {
    type V = StatementView;

    open spec fn deep_view(&self) -> StatementView {
        self@
    }
}

/// A function definition: the input of a transformation.
#[derive(Debug, PartialEq, Eq)]
pub struct FunctionItem {
    pub name: String,
    /// The parameter list, without its parentheses.
    pub inputs: String,
    /// The return type with its arrow, or nothing.
    pub output: String,
    pub statements: Vec<Statement>,
}

/// What a [`FunctionItem`] holds, as mathematical values.
pub struct FunctionView {
    pub name: Seq<char>,
    pub inputs: Seq<char>,
    pub output: Seq<char>,
    pub statements: Seq<StatementView>,
}

impl View for FunctionItem {
    type V = FunctionView;

    open spec fn view(&self) -> FunctionView {
        FunctionView {
            name: self.name@,
            inputs: self.inputs@,
            output: self.output@,
            statements: self.statements.deep_view(),
        }
    }
}

impl DeepView for FunctionItem {
    type V = FunctionView;

    open spec fn deep_view(&self) -> FunctionView {
        self@
    }
}

/// What one statement is to the transformation.
#[derive(Debug, PartialEq, Eq)]
pub enum StatementKind {
    /// It declares a property.
    Property(PropertyDecl),
    /// It declares a subscription.
    Subscription(SubscriptionDecl),
    /// It asks for the context and the window in the constructor.
    ContextRequirement,
    /// It is anything else, and is passed through as it stands.
    Ordinary(String),
}

/// What a [`StatementKind`] holds, as mathematical values.
pub enum KindView {
    Property(PropertyView),
    Subscription(SubscriptionView),
    ContextRequirement,
    Ordinary(Seq<char>),
}

impl View for StatementKind {
    type V = KindView;

    open spec fn view(&self) -> KindView {
        match self {
            StatementKind::Property(p) => KindView::Property(p@),
            StatementKind::Subscription(s) => KindView::Subscription(s@),
            StatementKind::ContextRequirement => KindView::ContextRequirement,
            StatementKind::Ordinary(text) => KindView::Ordinary(text@),
        }
    }
}

impl DeepView for StatementKind {
    type V = KindView;

    open spec fn deep_view(&self) -> KindView {
        self@
    }
}

/// Why a transformation produced nothing.
#[derive(Debug, PartialEq, Eq)]
pub enum ComponentError {
    /// The input is not a function definition. The message is the parser's.
    Syntax { message: String },
    /// The statement at index `statement` declares a property under a name
    /// that an earlier statement has declared.
    DuplicateField { name: String, statement: usize },
    /// The statement at index `statement` subscribes to `name`, which is
    /// neither a property declared before it nor an identifier that the
    /// context marker brings in.
    UnresolvedSubscriptionSource { name: String, statement: usize },
}

/// What a [`ComponentError`] holds, as mathematical values.
pub enum ErrorView {
    Syntax { message: Seq<char> },
    DuplicateField { name: Seq<char>, statement: int },
    UnresolvedSubscriptionSource { name: Seq<char>, statement: int },
}

impl View for ComponentError {
    type V = ErrorView;

    open spec fn view(&self) -> ErrorView {
        match self {
            ComponentError::Syntax { message } => ErrorView::Syntax { message: message@ },
            ComponentError::DuplicateField { name, statement } => ErrorView::DuplicateField {
                name: name@,
                statement: *statement as int,
            },
            ComponentError::UnresolvedSubscriptionSource {
                name,
                statement,
            } => ErrorView::UnresolvedSubscriptionSource {
                name: name@,
                statement: *statement as int,
            },
        }
    }
}

} // verus!
