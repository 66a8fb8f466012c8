use vstd::prelude::*;
use crate::declaration::{MethodSignature, MethodSignatureView, Parameter, ParameterView};
use crate::declaration::{Pattern, PatternView, ReturnType, ReturnTypeView};
use crate::declaration::texts;
use crate::describe::{AdapterImplementation, AdapterImplementationView, CompanionInterface};
use crate::describe::{CompanionInterfaceView, Generated, GeneratedView};
use crate::forwarding::{Accessor, ForwardingCall, ForwardingCallView, ForwardingExpr};
use crate::forwarding::{ForwardingExprView, ForwardingMethod, ForwardingMethodView};
use crate::generics::{placeholder_views, Placeholder, PlaceholderView};
use crate::text::{concat, concat_parts, join, join_parts};

verus! {

/// A pattern as it is written.
pub open spec fn pattern_text(pattern: PatternView) -> Seq<char> {
    match pattern {
        PatternView::Ident(name) => name,
        PatternView::Destructured(text) => text,
    }
}

/// A parameter as it is written in a signature.
pub open spec fn parameter_text(parameter: ParameterView) -> Seq<char> {
    match parameter {
        ParameterView::SelfRef { mutable } => if mutable {
            "&mut self"@
        } else {
            "&self"@
        },
        ParameterView::SelfValue { mutable } => if mutable {
            "mut self"@
        } else {
            "self"@
        },
        ParameterView::Captured { pattern, ty } => pattern_text(pattern) + ": "@ + ty,
    }
}

/// What follows the parameter list of a signature.
pub open spec fn output_text(output: ReturnTypeView) -> Seq<char> {
    match output {
        ReturnTypeView::Default => Seq::empty(),
        ReturnTypeView::Type(ty) => " -> "@ + ty,
    }
}

/// A signature as it is written: `fn name(parameters) -> output`.
pub open spec fn signature_text(signature: MethodSignatureView) -> Seq<char> {
    "fn "@ + signature.name + "("@ + join(
        signature.inputs.map_values(|p: ParameterView| parameter_text(p)),
        ", "@,
    ) + ")"@ + output_text(signature.output)
}

/// The expression that invokes an accessor on the wrapper.
pub open spec fn accessor_text(accessor: Accessor) -> Seq<char> {
    match accessor {
        Accessor::Inner => "self.inner()"@,
        Accessor::InnerMut => "self.inner_mut()"@,
        Accessor::IntoInner => "self.into_inner()"@,
    }
}

/// A forwarded call as it is written.
pub open spec fn call_text(call: ForwardingCallView) -> Seq<char> {
    match call {
        ForwardingCallView::OnInner { accessor, method, args } => accessor_text(accessor) + "."@
            + method + "("@ + join(args, ", "@) + ")"@,
        ForwardingCallView::Qualified { target, method, accessor, args } => target + "::"@
            + method + "("@ + join(seq![accessor_text(accessor)] + args, ", "@) + ")"@,
        ForwardingCallView::OnType { target, method, args } => target + "."@ + method + "("@
            + join(args, ", "@) + ")"@,
    }
}

/// A generated body as it is written.
pub open spec fn expr_text(body: ForwardingExprView) -> Seq<char> {
    match body {
        ForwardingExprView::Call(call) => call_text(call),
        ForwardingExprView::FromInner(call) => "Self::from_inner("@ + call_text(call) + ")"@,
    }
}

/// A generated method as it is written inside the adapter.
pub open spec fn method_text(method: ForwardingMethodView) -> Seq<char> {
    "    "@ + signature_text(method.signature) + " {\n        "@ + expr_text(method.body)
        + "\n    }\n"@
}

/// The interface with the placeholders, reached through `base`,
/// for its generic parameters. Without generic parameters it is the bare
/// name.
pub open spec fn interface_text(
    interface: Seq<char>,
    base: Seq<char>,
    placeholders: Seq<PlaceholderView>,
) -> Seq<char> {
    if placeholders.len() == 0 {
        interface
    } else {
        interface + "<"@ + join(
            placeholders.map_values(|p: PlaceholderView| base + "::"@ + p.name),
            ", "@,
        ) + ">"@
    }
}

/// The declaration of one placeholder inside the companion interface.
pub open spec fn placeholder_text(placeholder: PlaceholderView) -> Seq<char> {
    "    type "@ + placeholder.name + ";\n"@
}

/// The companion interface as it is written.
pub open spec fn companion_text(companion: CompanionInterfaceView) -> Seq<char> {
    "#[allow(non_camel_case_types)]\npub trait "@ + companion.name + " {\n"@ + concat(
        companion.placeholders.map_values(|p: PlaceholderView| placeholder_text(p)),
    ) + "    type Inner: "@ + interface_text(
        companion.interface,
        "Self"@,
        companion.placeholders,
    )
        + ";\n    fn inner(&self) -> &Self::Inner;\n    fn inner_mut(&mut self) -> &mut Self::Inner;\n    fn into_inner(self) -> Self::Inner;\n    fn from_inner(delegate: Self::Inner) -> Self;\n}\n"@
}

/// The wrapper type, seen as an implementor of the companion interface.
pub open spec fn proxy_text(companion: Seq<char>) -> Seq<char> {
    "<Proxy as "@ + companion + ">"@
}

/// The bound on the wrapper type: the companion interface, with each
/// placeholder tied to the generic parameter it stands for.
pub open spec fn proxy_bound_text(
    companion: Seq<char>,
    bindings: Seq<PlaceholderView>,
) -> Seq<char> {
    if bindings.len() == 0 {
        "Proxy: "@ + companion
    } else {
        "Proxy: "@ + companion + "<"@ + join(
            bindings.map_values(|p: PlaceholderView| p.name + " = "@ + p.parameter),
            ", "@,
        ) + ">"@
    }
}

/// The generic parameters of the adapter: those of the interface,
/// then the wrapper type with its bound.
pub open spec fn adapter_generics_text(
    companion: Seq<char>,
    bindings: Seq<PlaceholderView>,
) -> Seq<char> {
    join(
        bindings.map_values(|p: PlaceholderView| p.parameter) + seq![
            proxy_bound_text(companion, bindings),
        ],
        ", "@,
    )
}

/// The adapter as it is written.
pub open spec fn adapter_text(adapter: AdapterImplementationView) -> Seq<char> {
    "impl<"@ + adapter_generics_text(adapter.companion, adapter.bindings) + "> "@
        + interface_text(adapter.interface, proxy_text(adapter.companion), adapter.bindings)
        + " for Proxy\nwhere\n    "@ + proxy_text(adapter.companion) + "::Inner: "@
        + interface_text(adapter.interface, proxy_text(adapter.companion), adapter.bindings)
        + ",\n{\n"@ + concat(adapter.methods.map_values(|m: ForwardingMethodView| method_text(m)))
        + "}\n"@
}

/// The generated fragment as it is written: the companion interface, then
/// the adapter.
pub open spec fn generated_text(generated: GeneratedView) -> Seq<char> {
    companion_text(generated.companion) + adapter_text(generated.adapter)
}

/// Writes a parameter as it stands in a signature.
pub fn render_parameter(parameter: &Parameter) -> (text: String)
    ensures
        text@ == parameter_text(parameter@),
{
    match parameter {
        Parameter::SelfRef { mutable } => if *mutable {
            String::from_str("&mut self")
        } else {
            String::from_str("&self")
        },
        Parameter::SelfValue { mutable } => if *mutable {
            String::from_str("mut self")
        } else {
            String::from_str("self")
        },
        Parameter::Captured { pattern, ty } => {
            let mut text = match pattern {
                Pattern::Ident(name) => name.clone(),
                Pattern::Destructured(written) => written.clone(),
            };
            text.append(": ");
            text.append(ty.as_str());
            text
        },
    }
}

/// Writes a signature: `fn name(parameters) -> output`.
pub fn render_signature(signature: &MethodSignature) -> (text: String)
    ensures
        text@ == signature_text(signature@),
{
    let mut parameters: Vec<String> = Vec::new();
    let mut i: usize = 0;
    while i < signature.inputs.len()
        invariant
            i <= signature.inputs.len(),
            parameters@.len() == i,
            forall|j: int|
                0 <= j < i ==> (#[trigger] parameters@[j])@ == parameter_text(
                    signature.inputs@[j]@,
                ),
        decreases signature.inputs.len() - i,
    {
        parameters.push(render_parameter(&signature.inputs[i]));
        i += 1;
    }
    assert(texts(parameters@) =~= signature@.inputs.map_values(
        |p: ParameterView| parameter_text(p),
    ));
    let mut text = String::from_str("fn ");
    text.append(signature.name.as_str());
    text.append("(");
    text.append(join_parts(&parameters, ", ").as_str());
    text.append(")");
    match &signature.output {
        ReturnType::Default => {
            assert(text@ + Seq::<char>::empty() =~= text@);
        },
        ReturnType::Type(ty) => {
            let mut arrow = String::from_str(" -> ");
            arrow.append(ty.as_str());
            text.append(arrow.as_str());
        },
    }
    text
}

/// Writes the invocation of an accessor on the wrapper.
pub fn render_accessor(accessor: Accessor) -> (text: &'static str)
    ensures
        text@ == accessor_text(accessor),
{
    match accessor {
        Accessor::Inner => "self.inner()",
        Accessor::InnerMut => "self.inner_mut()",
        Accessor::IntoInner => "self.into_inner()",
    }
}

/// Writes a forwarded call.
pub fn render_call(call: &ForwardingCall) -> (text: String)
    ensures
        text@ == call_text(call@),
{
    match call {
        ForwardingCall::OnInner { accessor, method, args } => {
            let mut text = String::from_str(render_accessor(*accessor));
            text.append(".");
            text.append(method.as_str());
            text.append("(");
            text.append(join_parts(args, ", ").as_str());
            text.append(")");
            text
        },
        ForwardingCall::Qualified { target, method, accessor, args } => {
            let mut passed: Vec<String> = Vec::new();
            passed.push(String::from_str(render_accessor(*accessor)));
            let mut i: usize = 0;
            while i < args.len()
                invariant
                    i <= args.len(),
                    passed@.len() == i + 1,
                    passed@[0]@ == accessor_text(*accessor),
                    forall|j: int| 1 <= j <= i ==> (#[trigger] passed@[j])@ == args@[j - 1]@,
                decreases args.len() - i,
            {
                passed.push(args[i].clone());
                i += 1;
            }
            assert(texts(passed@) =~= seq![accessor_text(*accessor)] + texts(args@));
            let mut text = target.clone();
            text.append("::");
            text.append(method.as_str());
            text.append("(");
            text.append(join_parts(&passed, ", ").as_str());
            text.append(")");
            text
        },
        ForwardingCall::OnType { target, method, args } => {
            let mut text = target.clone();
            text.append(".");
            text.append(method.as_str());
            text.append("(");
            text.append(join_parts(args, ", ").as_str());
            text.append(")");
            text
        },
    }
}

/// Writes a generated body.
pub fn render_expr(body: &ForwardingExpr) -> (text: String)
    ensures
        text@ == expr_text(body@),
{
    match body {
        ForwardingExpr::Call(call) => render_call(call),
        ForwardingExpr::FromInner(call) => {
            let mut text = String::from_str("Self::from_inner(");
            text.append(render_call(call).as_str());
            text.append(")");
            text
        },
    }
}

/// Writes a generated method, indented as it stands inside the adapter.
pub fn render_method(method: &ForwardingMethod) -> (text: String)
    ensures
        text@ == method_text(method@),
{
    let mut text = String::from_str("    ");
    text.append(render_signature(&method.signature).as_str());
    text.append(" {\n        ");
    text.append(render_expr(&method.body).as_str());
    text.append("\n    }\n");
    text
}

/// Writes the interface with the placeholders, reached through
/// `base`, for its generic parameters.
pub fn render_interface(
    interface: &str,
    base: &str,
    placeholders: &Vec<Placeholder>,
) -> (text: String)
    ensures
        text@ == interface_text(interface@, base@, placeholder_views(placeholders@)),
{
    if placeholders.len() == 0 {
        return String::from_str(interface);
    }
    let mut projections: Vec<String> = Vec::new();
    let mut i: usize = 0;
    while i < placeholders.len()
        invariant
            i <= placeholders.len(),
            projections@.len() == i,
            forall|j: int|
                0 <= j < i ==> (#[trigger] projections@[j])@ == base@ + "::"@
                    + placeholders@[j]@.name,
        decreases placeholders.len() - i,
    {
        let mut projection = String::from_str(base);
        projection.append("::");
        projection.append(placeholders[i].name.as_str());
        projections.push(projection);
        i += 1;
    }
    assert(texts(projections@) =~= placeholder_views(placeholders@).map_values(
        |p: PlaceholderView| base@ + "::"@ + p.name,
    ));
    let mut text = String::from_str(interface);
    text.append("<");
    text.append(join_parts(&projections, ", ").as_str());
    text.append(">");
    text
}

/// Writes the companion interface.
pub fn render_companion(companion: &CompanionInterface) -> (text: String)
    ensures
        text@ == companion_text(companion@),
{
    let mut declarations: Vec<String> = Vec::new();
    let mut i: usize = 0;
    while i < companion.placeholders.len()
        invariant
            i <= companion.placeholders.len(),
            declarations@.len() == i,
            forall|j: int|
                0 <= j < i ==> (#[trigger] declarations@[j])@ == placeholder_text(
                    companion.placeholders@[j]@,
                ),
        decreases companion.placeholders.len() - i,
    {
        let mut declaration = String::from_str("    type ");
        declaration.append(companion.placeholders[i].name.as_str());
        declaration.append(";\n");
        declarations.push(declaration);
        i += 1;
    }
    assert(texts(declarations@) =~= companion@.placeholders.map_values(
        |p: PlaceholderView| placeholder_text(p),
    ));
    let mut text = String::from_str("#[allow(non_camel_case_types)]\npub trait ");
    text.append(companion.name.as_str());
    text.append(" {\n");
    text.append(concat_parts(&declarations).as_str());
    text.append("    type Inner: ");
    text.append(
        render_interface(companion.interface.as_str(), "Self", &companion.placeholders).as_str(),
    );
    text.append(
        ";\n    fn inner(&self) -> &Self::Inner;\n    fn inner_mut(&mut self) -> &mut Self::Inner;\n    fn into_inner(self) -> Self::Inner;\n    fn from_inner(delegate: Self::Inner) -> Self;\n}\n",
    );
    text
}

/// Writes the wrapper type, seen as an implementor of the companion
/// interface.
pub fn render_proxy(companion: &str) -> (text: String)
    ensures
        text@ == proxy_text(companion@),
{
    let mut text = String::from_str("<Proxy as ");
    text.append(companion);
    text.append(">");
    text
}

/// Writes the bound on the wrapper type.
pub fn render_proxy_bound(companion: &str, bindings: &Vec<Placeholder>) -> (text: String)
    ensures
        text@ == proxy_bound_text(companion@, placeholder_views(bindings@)),
{
    let mut text = String::from_str("Proxy: ");
    text.append(companion);
    if bindings.len() == 0 {
        return text;
    }
    let mut equations: Vec<String> = Vec::new();
    let mut i: usize = 0;
    while i < bindings.len()
        invariant
            i <= bindings.len(),
            equations@.len() == i,
            forall|j: int|
                0 <= j < i ==> (#[trigger] equations@[j])@ == bindings@[j]@.name + " = "@
                    + bindings@[j]@.parameter,
        decreases bindings.len() - i,
    {
        let mut equation = bindings[i].name.clone();
        equation.append(" = ");
        equation.append(bindings[i].parameter.as_str());
        equations.push(equation);
        i += 1;
    }
    assert(texts(equations@) =~= placeholder_views(bindings@).map_values(
        |p: PlaceholderView| p.name + " = "@ + p.parameter,
    ));
    text.append("<");
    text.append(join_parts(&equations, ", ").as_str());
    text.append(">");
    text
}

/// Writes the generic parameters of the adapter.
pub fn render_adapter_generics(companion: &str, bindings: &Vec<Placeholder>) -> (text: String)
    ensures
        text@ == adapter_generics_text(companion@, placeholder_views(bindings@)),
{
    let mut parameters: Vec<String> = Vec::new();
    let mut i: usize = 0;
    while i < bindings.len()
        invariant
            i <= bindings.len(),
            parameters@.len() == i,
            forall|j: int| 0 <= j < i ==> (#[trigger] parameters@[j])@ == bindings@[j]@.parameter,
        decreases bindings.len() - i,
    {
        parameters.push(bindings[i].parameter.clone());
        i += 1;
    }
    parameters.push(render_proxy_bound(companion, bindings));
    assert(texts(parameters@) =~= placeholder_views(bindings@).map_values(
        |p: PlaceholderView| p.parameter,
    ) + seq![proxy_bound_text(companion@, placeholder_views(bindings@))]);
    join_parts(&parameters, ", ")
}

/// Writes the adapter.
pub fn render_adapter(adapter: &AdapterImplementation) -> (text: String)
    ensures
        text@ == adapter_text(adapter@),
{
    let mut methods: Vec<String> = Vec::new();
    let mut i: usize = 0;
    while i < adapter.methods.len()
        invariant
            i <= adapter.methods.len(),
            methods@.len() == i,
            forall|j: int|
                0 <= j < i ==> (#[trigger] methods@[j])@ == method_text(adapter.methods@[j]@),
        decreases adapter.methods.len() - i,
    {
        methods.push(render_method(&adapter.methods[i]));
        i += 1;
    }
    assert(texts(methods@) =~= adapter@.methods.map_values(
        |m: ForwardingMethodView| method_text(m),
    ));
    let proxy = render_proxy(adapter.companion.as_str());
    let interface = render_interface(adapter.interface.as_str(), proxy.as_str(), &adapter.bindings);
    let mut text = String::from_str("impl<");
    text.append(render_adapter_generics(adapter.companion.as_str(), &adapter.bindings).as_str());
    text.append("> ");
    text.append(interface.as_str());
    text.append(" for Proxy\nwhere\n    ");
    text.append(proxy.as_str());
    text.append("::Inner: ");
    text.append(interface.as_str());
    text.append(",\n{\n");
    text.append(concat_parts(&methods).as_str());
    text.append("}\n");
    text
}

/// Writes the generated fragment: the companion interface, then the
/// adapter.
pub fn render_generated(generated: &Generated) -> (text: String)
    ensures
        text@ == generated_text(generated@),
{
    let mut text = render_companion(&generated.companion);
    text.append(render_adapter(&generated.adapter).as_str());
    text
}

} // verus!
