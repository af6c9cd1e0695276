//! Publishing types to a Lua state as globals.

use vstd::prelude::*;

verus! {

/// The Lua state expression and the types to publish in it, each as
/// source text.
#[derive(Debug, Clone, PartialEq, Eq)]
pub struct LoadInput {
    pub lua_expr: String,
    pub type_paths: Vec<String>,
}

/// Sets the global named after the type `tp` to the type's proxy.
pub open spec fn global_text(tp: Seq<char>) -> Seq<char> {
    "globals.set(stringify!("@ + tp + "), lua.create_proxy::<"@ + tp + ">()?)?; "@
}

/// The global assignments of all types, in the given order.
pub open spec fn globals_body(tps: Seq<String>) -> Seq<char>
    decreases tps.len(),
{
    if tps.len() == 0 {
        Seq::empty()
    } else {
        globals_body(tps.drop_last()) + global_text(tps.last()@)
    }
}

/// A block that binds the Lua state and assigns one global per type.
pub open spec fn load_text(lua: Seq<char>, tps: Seq<String>) -> Seq<char> {
    "{ let lua: &mlua::Lua = &"@ + lua + "; let globals: mlua::Table = lua.globals(); "@
        + globals_body(tps) + "}"@
}

/// Generates the block that registers every listed type as a global of the
/// Lua state, under the type's own name.
pub fn load(input: &LoadInput) -> (r: String)
    ensures
        r@ == load_text(input.lua_expr@, input.type_paths@),
{
    let tps = &input.type_paths;
    let mut body = String::new();
    let mut i: usize = 0;
    while i < tps.len()
        invariant
            i <= tps@.len(),
            body@ == globals_body(tps@.take(i as int)),
        decreases tps.len() - i,
    {
        let ghost before = body@;
        body.append("globals.set(stringify!(");
        body.append(tps[i].as_str());
        body.append("), lua.create_proxy::<");
        body.append(tps[i].as_str());
        body.append(">()?)?; ");
        assert(tps@.take(i + 1).drop_last() =~= tps@.take(i as int));
        assert(body@ =~= before + global_text(tps@[i as int]@));
        i = i + 1;
    }
    assert(tps@.take(i as int) =~= tps@);
    let mut out = String::from_str("{ let lua: &mlua::Lua = &");
    out.append(input.lua_expr.as_str());
    out.append("; let globals: mlua::Table = lua.globals(); ");
    out.append(body.as_str());
    out.append("}");
    assert(out@ =~= load_text(input.lua_expr@, input.type_paths@));
    out
}

} // verus!
