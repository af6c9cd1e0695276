//! The final hookup: the userdata impl that calls the generated helpers.

use vstd::prelude::*;

use crate::GenError;

verus! {

/// The arguments of the hookup: the type, and which helpers it calls.
/// An absent flag counts as `false`.
#[derive(Debug, Clone, PartialEq, Eq)]
pub struct CompileArgs {
    /// The source text of the type's path; it is required.
    pub type_path: Option<String>,
    pub fields: Option<bool>,
    pub methods: Option<bool>,
    pub variants: Option<bool>,
}

/// A flag that is set only when given as `true`.
pub open spec fn flag(o: Option<bool>) -> bool {
    o == Some(true)
}

/// `line` when `on`, nothing otherwise.
pub open spec fn when(on: bool, line: Seq<char>) -> Seq<char> {
    if on { line } else { Seq::empty() }
}

/// The userdata impl for `tp`, registering the fields helper in
/// `add_fields` and the methods and variants helpers in `add_methods`.
pub open spec fn userdata_text(tp: Seq<char>, fields: bool, methods: bool, variants: bool) -> Seq<char> {
    "impl mlua::UserData for "@ + tp
        + " { fn add_fields<'lua, F: mlua::UserDataFields<Self>>(fields: &mut F) -> () { "@ + when(
        fields,
        "Self::_to_mlua_fields(fields); "@,
    ) + "} fn add_methods<'lua, M: mlua::UserDataMethods<Self>>(methods: &mut M) -> () { "@ + when(
        methods,
        "Self::_to_mlua_methods(methods); "@,
    ) + when(variants, "Self::_to_mlua_variants(methods); "@) + "} } "@
}

/// The conversion from a Lua value back to `tp`: only userdata that holds
/// exactly this type converts, as a clone; anything else is a conversion error.
pub open spec fn from_lua_text(tp: Seq<char>) -> Seq<char> {
    "impl mlua::FromLua for "@ + tp
        + " { fn from_lua(value: mlua::Value, lua: &mlua::Lua) -> mlua::Result<Self> { let output: mlua::Result<Self> = match value { mlua::Value::UserData(user_data) => { return match user_data.borrow::<Self>() { Ok(b) => Ok((*b).clone()), Err(_) => Err(mlua::Error::FromLuaConversionError { from: \"UserData\", to: stringify!("@
        + tp
        + ").to_string(), message: Some(\"userdata is not this exact Rust type\".into()), }) }; }, _ => Err(mlua::Error::FromLuaConversionError { from: value.type_name(), to: stringify!("@
        + tp
        + ").to_string(), message: Some(\"expected userdata created by mlua_magic_macros\".into()), }), }; return output; } } "@
}

/// The whole hookup: the userdata impl, then the conversion from Lua.
pub open spec fn hookup_text(tp: Seq<char>, fields: bool, methods: bool, variants: bool) -> Seq<char> {
    userdata_text(tp, fields, methods, variants) + from_lua_text(tp)
}

fn push_userdata(out: &mut String, tp: &str, fields: bool, methods: bool, variants: bool)
    ensures
        final(out)@ == old(out)@ + userdata_text(tp@, fields, methods, variants),
{
    let ghost start = out@;
    out.append("impl mlua::UserData for ");
    out.append(tp);
    out.append(" { fn add_fields<'lua, F: mlua::UserDataFields<Self>>(fields: &mut F) -> () { ");
    if fields {
        out.append("Self::_to_mlua_fields(fields); ");
    }
    out.append("} fn add_methods<'lua, M: mlua::UserDataMethods<Self>>(methods: &mut M) -> () { ");
    if methods {
        out.append("Self::_to_mlua_methods(methods); ");
    }
    if variants {
        out.append("Self::_to_mlua_variants(methods); ");
    }
    out.append("} } ");
    assert(out@ =~= start + userdata_text(tp@, fields, methods, variants));
}

fn push_from_lua(out: &mut String, tp: &str)
    ensures
        final(out)@ == old(out)@ + from_lua_text(tp@),
{
    let ghost start = out@;
    out.append("impl mlua::FromLua for ");
    out.append(tp);
    out.append(
        " { fn from_lua(value: mlua::Value, lua: &mlua::Lua) -> mlua::Result<Self> { let output: mlua::Result<Self> = match value { mlua::Value::UserData(user_data) => { return match user_data.borrow::<Self>() { Ok(b) => Ok((*b).clone()), Err(_) => Err(mlua::Error::FromLuaConversionError { from: \"UserData\", to: stringify!(",
    );
    out.append(tp);
    out.append(
        ").to_string(), message: Some(\"userdata is not this exact Rust type\".into()), }) }; }, _ => Err(mlua::Error::FromLuaConversionError { from: value.type_name(), to: stringify!(",
    );
    out.append(tp);
    out.append(
        ").to_string(), message: Some(\"expected userdata created by mlua_magic_macros\".into()), }), }; return output; } } ",
    );
    assert(out@ =~= start + from_lua_text(tp@));
}

fn is_set(o: Option<bool>) -> (r: bool)
    ensures
        r == flag(o),
{
    match o {
        Some(b) => b,
        None => false,
    }
}

/// Generates the userdata impl of the type named in `args`, calling the
/// helpers that `args` switches on, and its conversion back from Lua.
/// Fails when no type is named.
pub fn compile(args: &CompileArgs) -> (r: Result<String, GenError>)
    ensures
        r is Ok <==> args.type_path is Some,
        r matches Ok(s) ==> s@ == hookup_text(
            args.type_path->Some_0@,
            flag(args.fields),
            flag(args.methods),
            flag(args.variants),
        ),
        r matches Err(e) ==> e == GenError::MissingTypePath,
{
    match &args.type_path {
        Some(tp) => {
            let mut out = String::new();
            push_userdata(
                &mut out,
                tp.as_str(),
                is_set(args.fields),
                is_set(args.methods),
                is_set(args.variants),
            );
            push_from_lua(&mut out, tp.as_str());
            assert(out@ =~= hookup_text(
                tp@,
                flag(args.fields),
                flag(args.methods),
                flag(args.variants),
            ));
            Ok(out)
        },
        None => Err(GenError::MissingTypePath),
    }
}

} // verus!
