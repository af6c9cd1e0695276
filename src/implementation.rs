//! Registration of the functions of an impl block as Lua methods.

use vstd::prelude::*;

verus! {

/// One input of a function signature.
#[derive(Debug, Clone, PartialEq, Eq)]
pub enum FnInput {
    /// `self`, `&self` or `&mut self`; `mutable` records a `mut`.
    Receiver { mutable: bool },
    /// `pat: ty`; `pat` is the bound name when the pattern is a plain
    /// identifier, and absent for any other pattern.
    Typed { pat: Option<String>, ty: String },
}

/// One function of an impl block.
#[derive(Debug, Clone, PartialEq, Eq)]
pub struct MethodDesc {
    pub name: String,
    pub is_async: bool,
    pub inputs: Vec<FnInput>,
}

/// One item of an impl block: a function, or anything else (constants,
/// types, macros), which is not registered.
#[derive(Debug, Clone, PartialEq, Eq)]
pub enum ImplMember {
    Fn(MethodDesc),
    Other,
}

/// The receiver of a function: absent for a static function, otherwise
/// whether it is mutable. Only a first input can be the receiver.
pub open spec fn receiver_spec(inputs: Seq<FnInput>) -> Option<bool> {
    if inputs.len() > 0 {
        match inputs[0] {
            FnInput::Receiver { mutable } => Some(mutable),
            _ => None,
        }
    } else {
        None
    }
}

/// The name an input contributes to the argument tuple, followed by a
/// comma: only inputs that bind a plain identifier are passed on.
pub open spec fn bound_name(input: FnInput) -> Seq<char> {
    match input {
        FnInput::Typed { pat: Some(n), .. } => n@ + ", "@,
        _ => Seq::empty(),
    }
}

/// The type an input contributes to the argument tuple's type.
pub open spec fn bound_type(input: FnInput) -> Seq<char> {
    match input {
        FnInput::Typed { pat: Some(_), ty } => ty@ + ", "@,
        _ => Seq::empty(),
    }
}

/// The names of the arguments passed on, each followed by a comma.
pub open spec fn names_text(inputs: Seq<FnInput>) -> Seq<char>
    decreases inputs.len(),
{
    if inputs.len() == 0 {
        Seq::empty()
    } else {
        names_text(inputs.drop_last()) + bound_name(inputs.last())
    }
}

/// The types of the arguments passed on, each followed by a comma.
pub open spec fn types_text(inputs: Seq<FnInput>) -> Seq<char>
    decreases inputs.len(),
{
    if inputs.len() == 0 {
        Seq::empty()
    } else {
        types_text(inputs.drop_last()) + bound_type(inputs.last())
    }
}

/// The registration method of the userdata, by receiver and synchronicity.
pub open spec fn registrar(receiver: Option<bool>, is_async: bool) -> Seq<char> {
    match receiver {
        Some(true) => if is_async { "add_async_method_mut"@ } else { "add_method_mut"@ },
        Some(false) => if is_async { "add_async_method"@ } else { "add_method"@ },
        None => if is_async { "add_async_function"@ } else { "add_function"@ },
    }
}

/// How the closure binds the receiver: an async mutable method owns it.
pub open spec fn this_binding(receiver: Option<bool>, is_async: bool) -> Seq<char> {
    match receiver {
        Some(true) => if is_async { "mut this, "@ } else { "this, "@ },
        Some(false) => "this, "@,
        None => Seq::empty(),
    }
}

/// What precedes the closure body: an async block for async functions,
/// which moves the receiver in.
pub open spec fn opener(receiver: Option<bool>, is_async: bool) -> Seq<char> {
    if is_async {
        if receiver is Some { " async move"@ } else { " async"@ }
    } else {
        Seq::empty()
    }
}

/// What the call is made on: the receiver, or the type for a static function.
pub open spec fn target(owner: Seq<char>, receiver: Option<bool>) -> Seq<char> {
    if receiver is Some { "this."@ } else { owner + "::"@ }
}

/// The `.await` on the forwarded call of an async function.
pub open spec fn awaiting(is_async: bool) -> Seq<char> {
    if is_async { ".await"@ } else { Seq::empty() }
}

/// The start of a registration: the registrar, the Lua name, and the
/// receiver binding of the closure.
pub open spec fn method_head(name: Seq<char>, receiver: Option<bool>, is_async: bool) -> Seq<char> {
    "methods."@ + registrar(receiver, is_async) + "(\""@ + name + "\", |_, "@ + this_binding(
        receiver,
        is_async,
    )
}

/// The argument tuple of the closure and its type.
pub open spec fn method_params(
    names: Seq<char>,
    types: Seq<char>,
    receiver: Option<bool>,
    is_async: bool,
) -> Seq<char> {
    "("@ + names + "): ("@ + types + ")|"@ + opener(receiver, is_async)
}

/// The closure body: the forwarded call, awaited when async.
pub open spec fn method_call(
    owner: Seq<char>,
    name: Seq<char>,
    names: Seq<char>,
    receiver: Option<bool>,
    is_async: bool,
) -> Seq<char> {
    " { return Ok("@ + target(owner, receiver) + name + "("@ + names + ")"@ + awaiting(is_async)
        + "); }); "@
}

/// The registration of the function `m` of the type `owner`: a closure
/// that takes the bound arguments as a tuple and forwards them.
pub open spec fn method_text(owner: Seq<char>, m: MethodDesc) -> Seq<char> {
    let recv = receiver_spec(m.inputs@);
    let names = names_text(m.inputs@);
    method_head(m.name@, recv, m.is_async) + method_params(
        names,
        types_text(m.inputs@),
        recv,
        m.is_async,
    ) + method_call(owner, m.name@, names, recv, m.is_async)
}

/// The registration of one impl item: nothing for an item that is not a function.
pub open spec fn member_text(owner: Seq<char>, item: ImplMember) -> Seq<char> {
    match item {
        ImplMember::Fn(m) => method_text(owner, m),
        ImplMember::Other => Seq::empty(),
    }
}

/// The registrations of all functions, in declaration order.
pub open spec fn methods_body(owner: Seq<char>, items: Seq<ImplMember>) -> Seq<char>
    decreases items.len(),
{
    if items.len() == 0 {
        Seq::empty()
    } else {
        methods_body(owner, items.drop_last()) + member_text(owner, items.last())
    }
}

/// The helper impl that registers every function of the impl block for `owner`.
pub open spec fn methods_helper(owner: Seq<char>, items: Seq<ImplMember>) -> Seq<char> {
    "impl "@ + owner
        + " { #[doc(hidden)] pub fn _to_mlua_methods<M: mlua::UserDataMethods<Self>>(methods: &mut M) -> () { "@
        + methods_body(owner, items) + "} } "@
}

fn receiver_of(inputs: &Vec<FnInput>) -> (r: Option<bool>)
    ensures
        r == receiver_spec(inputs@),
{
    if inputs.len() > 0 {
        match &inputs[0] {
            FnInput::Receiver { mutable } => Some(*mutable),
            _ => None,
        }
    } else {
        None
    }
}

fn registrar_str(receiver: Option<bool>, is_async: bool) -> (r: &'static str)
    ensures
        r@ == registrar(receiver, is_async),
{
    match receiver {
        Some(true) => if is_async { "add_async_method_mut" } else { "add_method_mut" },
        Some(false) => if is_async { "add_async_method" } else { "add_method" },
        None => if is_async { "add_async_function" } else { "add_function" },
    }
}

/// Appends the bound names and their types, each followed by a comma.
fn push_bound_args(names: &mut String, types: &mut String, inputs: &Vec<FnInput>)
    ensures
        final(names)@ == old(names)@ + names_text(inputs@),
        final(types)@ == old(types)@ + types_text(inputs@),
{
    let ghost names0 = names@;
    let ghost types0 = types@;
    let mut i: usize = 0;
    while i < inputs.len()
        invariant
            i <= inputs@.len(),
            names@ == names0 + names_text(inputs@.take(i as int)),
            types@ == types0 + types_text(inputs@.take(i as int)),
        decreases inputs.len() - i,
    {
        match &inputs[i] {
            FnInput::Typed { pat: Some(n), ty } => {
                names.append(n.as_str());
                names.append(", ");
                types.append(ty.as_str());
                types.append(", ");
            },
            _ => {},
        }
        assert(inputs@.take(i + 1).drop_last() =~= inputs@.take(i as int));
        i = i + 1;
        assert(names@ =~= names0 + names_text(inputs@.take(i as int)));
        assert(types@ =~= types0 + types_text(inputs@.take(i as int)));
    }
    assert(inputs@.take(i as int) =~= inputs@);
}

fn push_method_head(out: &mut String, name: &str, recv: Option<bool>, is_async: bool)
    ensures
        final(out)@ == old(out)@ + method_head(name@, recv, is_async),
{
    let ghost start = out@;
    out.append("methods.");
    out.append(registrar_str(recv, is_async));
    out.append("(\"");
    out.append(name);
    out.append("\", |_, ");
    match recv {
        Some(true) => if is_async { out.append("mut this, ") } else { out.append("this, ") },
        Some(false) => out.append("this, "),
        None => {},
    }
    assert(out@ =~= start + method_head(name@, recv, is_async));
}

fn push_method_params(
    out: &mut String,
    names: &str,
    types: &str,
    recv: Option<bool>,
    is_async: bool,
)
    ensures
        final(out)@ == old(out)@ + method_params(names@, types@, recv, is_async),
{
    let ghost start = out@;
    out.append("(");
    out.append(names);
    out.append("): (");
    out.append(types);
    out.append(")|");
    if is_async {
        match recv {
            Some(_) => out.append(" async move"),
            None => out.append(" async"),
        }
    }
    assert(out@ =~= start + method_params(names@, types@, recv, is_async));
}

fn push_method_call(
    out: &mut String,
    owner: &str,
    name: &str,
    names: &str,
    recv: Option<bool>,
    is_async: bool,
)
    ensures
        final(out)@ == old(out)@ + method_call(owner@, name@, names@, recv, is_async),
{
    let ghost start = out@;
    out.append(" { return Ok(");
    match recv {
        Some(_) => out.append("this."),
        None => {
            out.append(owner);
            out.append("::");
        },
    }
    out.append(name);
    out.append("(");
    out.append(names);
    out.append(")");
    if is_async {
        out.append(".await");
    }
    out.append("); }); ");
    assert(out@ =~= start + method_call(owner@, name@, names@, recv, is_async));
}

fn push_method(out: &mut String, owner: &str, m: &MethodDesc)
    ensures
        final(out)@ == old(out)@ + method_text(owner@, *m),
{
    let ghost start = out@;
    let recv = receiver_of(&m.inputs);
    let mut names = String::new();
    let mut types = String::new();
    push_bound_args(&mut names, &mut types, &m.inputs);
    assert(names@ =~= names_text(m.inputs@));
    assert(types@ =~= types_text(m.inputs@));
    push_method_head(out, m.name.as_str(), recv, m.is_async);
    push_method_params(out, names.as_str(), types.as_str(), recv, m.is_async);
    push_method_call(out, owner, m.name.as_str(), names.as_str(), recv, m.is_async);
    assert(out@ =~= start + method_text(owner@, *m));
}

/// Generates the helper impl that exposes each function of an impl block
/// for the type `owner`: static functions as functions of the type,
/// `&self` and `&mut self` methods as methods, each in its async form when
/// the function is async.
pub fn implementation(owner: &str, items: &Vec<ImplMember>) -> (r: String)
    ensures
        r@ == methods_helper(owner@, items@),
{
    let mut body = String::new();
    let mut i: usize = 0;
    while i < items.len()
        invariant
            i <= items@.len(),
            body@ == methods_body(owner@, items@.take(i as int)),
        decreases items.len() - i,
    {
        match &items[i] {
            ImplMember::Fn(m) => push_method(&mut body, owner, m),
            ImplMember::Other => {},
        }
        assert(items@.take(i + 1).drop_last() =~= items@.take(i as int));
        i = i + 1;
        assert(body@ =~= methods_body(owner@, items@.take(i as int)));
    }
    assert(items@.take(i as int) =~= items@);
    let mut out = String::from_str("impl ");
    out.append(owner);
    out.append(
        " { #[doc(hidden)] pub fn _to_mlua_methods<M: mlua::UserDataMethods<Self>>(methods: &mut M) -> () { ",
    );
    out.append(body.as_str());
    out.append("} } ");
    assert(out@ =~= methods_helper(owner@, items@));
    out
}

} // verus!
