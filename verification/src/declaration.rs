use vstd::prelude::*;

verus! {

/// How a parameter binds the argument it receives.
#[derive(Debug, PartialEq, Eq)]
pub enum Pattern {
    /// A plain identifier, as in `count: usize`.
    Ident(String),
    /// Any other pattern, as in `(a, b): (u8, u8)`, kept as it was written.
    Destructured(String),
}

pub enum PatternView {
    Ident(Seq<char>),
    Destructured(Seq<char>),
}

impl View for Pattern {
    type V = PatternView;

    open spec fn view(&self) -> PatternView {
        match self {
            Pattern::Ident(name) => PatternView::Ident(name@),
            Pattern::Destructured(text) => PatternView::Destructured(text@),
        }
    }
}

/// One declared parameter of a method, the receiver included.
#[derive(Debug, PartialEq, Eq)]
pub enum Parameter {
    /// `&self`, or `&mut self` when `mutable`.
    SelfRef { mutable: bool },
    /// `self`, or `mut self` when `mutable`.
    SelfValue { mutable: bool },
    /// `pattern: ty`, an ordinary parameter.
    Captured { pattern: Pattern, ty: String },
}

pub enum ParameterView {
    SelfRef { mutable: bool },
    SelfValue { mutable: bool },
    Captured { pattern: PatternView, ty: Seq<char> },
}

impl View for Parameter {
    type V = ParameterView;

    open spec fn view(&self) -> ParameterView {
        match self {
            Parameter::SelfRef { mutable } => ParameterView::SelfRef { mutable: *mutable },
            Parameter::SelfValue { mutable } => ParameterView::SelfValue { mutable: *mutable },
            Parameter::Captured { pattern, ty } => ParameterView::Captured {
                pattern: pattern@,
                ty: ty@,
            },
        }
    }
}

/// What a method is declared to return.
#[derive(Debug, PartialEq, Eq)]
pub enum ReturnType {
    /// Nothing is written after the parameter list.
    Default,
    /// `-> ty`, with the type expression kept as it was written.
    Type(String),
}

pub enum ReturnTypeView {
    Default,
    Type(Seq<char>),
}

impl View for ReturnType {
    type V = ReturnTypeView;

    open spec fn view(&self) -> ReturnTypeView {
        match self {
            ReturnType::Default => ReturnTypeView::Default,
            ReturnType::Type(ty) => ReturnTypeView::Type(ty@),
        }
    }
}

/// The signature of one method: its name, its parameters in declaration
/// order (a receiver, if there is one, comes first) and its return type.
#[derive(Debug, PartialEq, Eq)]
pub struct MethodSignature {
    pub name: String,
    pub inputs: Vec<Parameter>,
    pub output: ReturnType,
}

pub struct MethodSignatureView {
    pub name: Seq<char>,
    pub inputs: Seq<ParameterView>,
    pub output: ReturnTypeView,
}

impl View for MethodSignature {
    type V = MethodSignatureView;

    open spec fn view(&self) -> MethodSignatureView {
        MethodSignatureView {
            name: self.name@,
            inputs: parameter_views(self.inputs@),
            output: self.output@,
        }
    }
}

/// An interface: a name, its generic type parameters and its methods, each
/// list in declaration order.
#[derive(Debug, PartialEq, Eq)]
pub struct InterfaceDeclaration {
    pub name: String,
    pub generics: Vec<String>,
    pub methods: Vec<MethodSignature>,
}

pub struct InterfaceDeclarationView {
    pub name: Seq<char>,
    pub generics: Seq<Seq<char>>,
    pub methods: Seq<MethodSignatureView>,
}

impl View for InterfaceDeclaration {
    type V = InterfaceDeclarationView;

    open spec fn view(&self) -> InterfaceDeclarationView {
        InterfaceDeclarationView {
            name: self.name@,
            generics: texts(self.generics@),
            methods: signature_views(self.methods@),
        }
    }
}

/// An implementation block: the implementing type as it was written, and
/// the signatures of the methods it defines.
#[derive(Debug, PartialEq, Eq)]
pub struct ImplementationBlock {
    pub self_type: String,
    pub methods: Vec<MethodSignature>,
}

pub struct ImplementationBlockView {
    pub self_type: Seq<char>,
    pub methods: Seq<MethodSignatureView>,
}

impl View for ImplementationBlock {
    type V = ImplementationBlockView;

    open spec fn view(&self) -> ImplementationBlockView {
        ImplementationBlockView {
            self_type: self.self_type@,
            methods: signature_views(self.methods@),
        }
    }
}

/// A declaration as it is handed to the generator.
#[derive(Debug, PartialEq, Eq)]
pub enum Declaration {
    Interface(InterfaceDeclaration),
    Implementation(ImplementationBlock),
    /// Any other item: a function, a struct, a module and so on.
    Other,
}

pub enum DeclarationView {
    Interface(InterfaceDeclarationView),
    Implementation(ImplementationBlockView),
    Other,
}

impl View for Declaration {
    type V = DeclarationView;

    open spec fn view(&self) -> DeclarationView {
        match self {
            Declaration::Interface(interface) => DeclarationView::Interface(interface@),
            Declaration::Implementation(block) => DeclarationView::Implementation(block@),
            Declaration::Other => DeclarationView::Other,
        }
    }
}

impl Clone for Pattern {
    fn clone(&self) -> (copy: Self)
        ensures
            copy@ == self@,
    {
        match self {
            Pattern::Ident(name) => Pattern::Ident(name.clone()),
            Pattern::Destructured(text) => Pattern::Destructured(text.clone()),
        }
    }
}

impl Clone for Parameter {
    fn clone(&self) -> (copy: Self)
        ensures
            copy@ == self@,
    {
        match self {
            Parameter::SelfRef { mutable } => Parameter::SelfRef { mutable: *mutable },
            Parameter::SelfValue { mutable } => Parameter::SelfValue { mutable: *mutable },
            Parameter::Captured { pattern, ty } => Parameter::Captured {
                pattern: pattern.clone(),
                ty: ty.clone(),
            },
        }
    }
}

impl Clone for ReturnType {
    fn clone(&self) -> (copy: Self)
        ensures
            copy@ == self@,
    {
        match self {
            ReturnType::Default => ReturnType::Default,
            ReturnType::Type(ty) => ReturnType::Type(ty.clone()),
        }
    }
}

impl Clone for MethodSignature {
    fn clone(&self) -> (copy: Self)
        ensures
            copy@ == self@,
    {
        let mut inputs: Vec<Parameter> = Vec::new();
        let mut i: usize = 0;
        while i < self.inputs.len()
            invariant
                i <= self.inputs.len(),
                inputs@.len() == i,
                forall|j: int| 0 <= j < i ==> (#[trigger] inputs@[j])@ == self.inputs@[j]@,
            decreases self.inputs.len() - i,
        {
            inputs.push(self.inputs[i].clone());
            i += 1;
        }
        assert(parameter_views(inputs@) =~= parameter_views(self.inputs@));
        MethodSignature { name: self.name.clone(), inputs, output: self.output.clone() }
    }
}

impl Clone for InterfaceDeclaration {
    fn clone(&self) -> (copy: Self)
        ensures
            copy@ == self@,
    {
        InterfaceDeclaration {
            name: self.name.clone(),
            generics: clone_strings(&self.generics),
            methods: clone_signatures(&self.methods),
        }
    }
}

impl Clone for ImplementationBlock {
    fn clone(&self) -> (copy: Self)
        ensures
            copy@ == self@,
    {
        ImplementationBlock {
            self_type: self.self_type.clone(),
            methods: clone_signatures(&self.methods),
        }
    }
}

impl Clone for Declaration {
    fn clone(&self) -> (copy: Self)
        ensures
            copy@ == self@,
    {
        match self {
            Declaration::Interface(interface) => Declaration::Interface(interface.clone()),
            Declaration::Implementation(block) => Declaration::Implementation(block.clone()),
            Declaration::Other => Declaration::Other,
        }
    }
}

/// A list with the same strings in the same order.
pub fn clone_strings(strings: &Vec<String>) -> (copy: Vec<String>)
    ensures
        texts(copy@) == texts(strings@),
{
    let mut copy: Vec<String> = Vec::new();
    let mut i: usize = 0;
    while i < strings.len()
        invariant
            i <= strings.len(),
            copy@.len() == i,
            forall|j: int| 0 <= j < i ==> (#[trigger] copy@[j])@ == strings@[j]@,
        decreases strings.len() - i,
    {
        copy.push(strings[i].clone());
        i += 1;
    }
    assert(texts(copy@) =~= texts(strings@));
    copy
}

/// A list with the same signatures in the same order.
pub fn clone_signatures(signatures: &Vec<MethodSignature>) -> (copy: Vec<MethodSignature>)
    ensures
        signature_views(copy@) == signature_views(signatures@),
{
    let mut copy: Vec<MethodSignature> = Vec::new();
    let mut i: usize = 0;
    while i < signatures.len()
        invariant
            i <= signatures.len(),
            copy@.len() == i,
            forall|j: int| 0 <= j < i ==> (#[trigger] copy@[j])@ == signatures@[j]@,
        decreases signatures.len() - i,
    {
        copy.push(signatures[i].clone());
        i += 1;
    }
    assert(signature_views(copy@) =~= signature_views(signatures@));
    copy
}

/// The characters of each string of a list.
pub open spec fn texts(strings: Seq<String>) -> Seq<Seq<char>> {
    strings.map_values(|s: String| s@)
}

pub open spec fn parameter_views(parameters: Seq<Parameter>) -> Seq<ParameterView> {
    parameters.map_values(|p: Parameter| p@)
}

pub open spec fn signature_views(signatures: Seq<MethodSignature>) -> Seq<MethodSignatureView> {
    signatures.map_values(|s: MethodSignature| s@)
}

} // verus!
