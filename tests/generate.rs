use mlua_magic_macros::{
    compile, enumeration, implementation, load, structure, CompileArgs, FieldDesc, FnInput,
    GenError, ImplMember, LoadInput, MethodDesc, NamedField, VariantDesc, VariantFields,
};

fn field(name: &str, ty: &str) -> FieldDesc {
    FieldDesc { name: Some(name.to_string()), ty: ty.to_string() }
}

fn typed(name: &str, ty: &str) -> FnInput {
    FnInput::Typed { pat: Some(name.to_string()), ty: ty.to_string() }
}

fn method(name: &str, is_async: bool, inputs: Vec<FnInput>) -> ImplMember {
    ImplMember::Fn(MethodDesc { name: name.to_string(), is_async, inputs })
}

fn accessors(name: &str, ty: &str) -> String {
    format!(
        "fields.add_field_method_get(\"{n}\", |_, this| {{ return Ok(this.{n}.clone()); }}); \
         fields.add_field_method_set(\"{n}\", |_, this, val: {t}| {{ this.{n} = val; return Ok(()); }}); ",
        n = name,
        t = ty
    )
}

#[test]
fn structure_single_field() {
    let r = structure("Db", &vec![field("count", "i32")]);
    assert_eq!(
        r,
        Ok("impl Db { #[doc(hidden)] pub fn _to_mlua_fields<F: mlua::UserDataFields<Self>>(fields: &mut F) -> () { \
fields.add_field_method_get(\"count\", |_, this| { return Ok(this.count.clone()); }); \
fields.add_field_method_set(\"count\", |_, this, val: i32| { this.count = val; return Ok(()); }); } } "
            .to_string())
    );
}

#[test]
fn structure_fields_in_order() {
    let fields = vec![field("name", "String"), field("hp", "i32"), field("status", "PlayerStatus")];
    let expected = format!(
        "impl Player {{ #[doc(hidden)] pub fn _to_mlua_fields<F: mlua::UserDataFields<Self>>(fields: &mut F) -> () {{ {}{}{}}} }} ",
        accessors("name", "String"),
        accessors("hp", "i32"),
        accessors("status", "PlayerStatus")
    );
    assert_eq!(structure("Player", &fields), Ok(expected));
}

#[test]
fn structure_without_fields() {
    assert_eq!(
        structure("Unit", &vec![]),
        Ok("impl Unit { #[doc(hidden)] pub fn _to_mlua_fields<F: mlua::UserDataFields<Self>>(fields: &mut F) -> () { } } "
            .to_string())
    );
}

#[test]
fn structure_rejects_unnamed_field() {
    let fields = vec![field("a", "u8"), FieldDesc { name: None, ty: "u8".to_string() }];
    assert_eq!(structure("Pair", &fields), Err(GenError::UnnamedField));
}

#[test]
fn enumeration_player_status() {
    let variants = vec![
        VariantDesc { name: "Idle".to_string(), fields: VariantFields::Unit },
        VariantDesc { name: "Walking".to_string(), fields: VariantFields::Unit },
        VariantDesc {
            name: "Attacking".to_string(),
            fields: VariantFields::Unnamed(vec!["i32".to_string()]),
        },
    ];
    assert_eq!(
        enumeration("PlayerStatus", &variants),
        "impl PlayerStatus { #[doc(hidden)] pub fn _to_mlua_variants<M: mlua::UserDataMethods<Self>>(methods: &mut M) -> () { \
methods.add_function(\"Idle\", |_, (): ()| { Ok(PlayerStatus::Idle) }); \
methods.add_function(\"Walking\", |_, (): ()| { Ok(PlayerStatus::Walking) }); \
methods.add_function(\"Attacking\", |_, (arg0): (i32)| { Ok(PlayerStatus::Attacking(arg0)) }); ; } } "
    );
}

#[test]
fn enumeration_tuple_numbers_arguments() {
    let tys: Vec<String> = (0..12).map(|i| format!("T{}", i)).collect();
    let variants = vec![VariantDesc { name: "Many".to_string(), fields: VariantFields::Unnamed(tys) }];
    let args = "arg0, arg1, arg2, arg3, arg4, arg5, arg6, arg7, arg8, arg9, arg10, arg11";
    let types = "T0, T1, T2, T3, T4, T5, T6, T7, T8, T9, T10, T11";
    let expected = format!(
        "impl E {{ #[doc(hidden)] pub fn _to_mlua_variants<M: mlua::UserDataMethods<Self>>(methods: &mut M) -> () {{ \
methods.add_function(\"Many\", |_, ({a}): ({t})| {{ Ok(E::Many({a})) }}); ; }} }} ",
        a = args,
        t = types
    );
    assert_eq!(enumeration("E", &variants), expected);
}

#[test]
fn enumeration_struct_like_variant() {
    let variants = vec![VariantDesc {
        name: "Move".to_string(),
        fields: VariantFields::Named(vec![
            NamedField { name: "x".to_string(), ty: "i32".to_string() },
            NamedField { name: "y".to_string(), ty: "f64".to_string() },
        ]),
    }];
    assert_eq!(
        enumeration("Cmd", &variants),
        "impl Cmd { #[doc(hidden)] pub fn _to_mlua_variants<M: mlua::UserDataMethods<Self>>(methods: &mut M) -> () { \
methods.add_function(\"Move\", |_, tbl: mlua::Table| { Ok(Cmd::Move { x: tbl.get::<_, i32>(stringify!(x))?, y: tbl.get::<_, f64>(stringify!(y))? }) }); ; } } "
    );
}

#[test]
fn enumeration_empty_tuple_variant() {
    let variants = vec![VariantDesc { name: "V".to_string(), fields: VariantFields::Unnamed(vec![]) }];
    assert_eq!(
        enumeration("E", &variants),
        "impl E { #[doc(hidden)] pub fn _to_mlua_variants<M: mlua::UserDataMethods<Self>>(methods: &mut M) -> () { \
methods.add_function(\"V\", |_, (): ()| { Ok(E::V()) }); ; } } "
    );
}

#[test]
fn implementation_sync_methods() {
    let items = vec![
        method("new", false, vec![typed("name", "String")]),
        method("take_damage", false, vec![FnInput::Receiver { mutable: true }, typed("amount", "i32")]),
        method("is_alive", false, vec![FnInput::Receiver { mutable: false }]),
    ];
    assert_eq!(
        implementation("Player", &items),
        "impl Player { #[doc(hidden)] pub fn _to_mlua_methods<M: mlua::UserDataMethods<Self>>(methods: &mut M) -> () { \
methods.add_function(\"new\", |_, (name, ): (String, )| { return Ok(Player::new(name, )); }); \
methods.add_method_mut(\"take_damage\", |_, this, (amount, ): (i32, )| { return Ok(this.take_damage(amount, )); }); \
methods.add_method(\"is_alive\", |_, this, (): ()| { return Ok(this.is_alive()); }); } } "
    );
}

#[test]
fn implementation_async_methods() {
    let items = vec![
        method("init_async", true, vec![]),
        method("write_async", true, vec![FnInput::Receiver { mutable: true }]),
        method("read_async", true, vec![FnInput::Receiver { mutable: false }]),
    ];
    assert_eq!(
        implementation("Db", &items),
        "impl Db { #[doc(hidden)] pub fn _to_mlua_methods<M: mlua::UserDataMethods<Self>>(methods: &mut M) -> () { \
methods.add_async_function(\"init_async\", |_, (): ()| async { return Ok(Db::init_async().await); }); \
methods.add_async_method_mut(\"write_async\", |_, mut this, (): ()| async move { return Ok(this.write_async().await); }); \
methods.add_async_method(\"read_async\", |_, this, (): ()| async move { return Ok(this.read_async().await); }); } } "
    );
}

#[test]
fn implementation_skips_other_items_and_patterns() {
    let items = vec![
        ImplMember::Other,
        method(
            "sum",
            false,
            vec![
                typed("a", "i32"),
                FnInput::Typed { pat: None, ty: "(i32, i32)".to_string() },
                typed("b", "u8"),
            ],
        ),
    ];
    assert_eq!(
        implementation("Calc", &items),
        "impl Calc { #[doc(hidden)] pub fn _to_mlua_methods<M: mlua::UserDataMethods<Self>>(methods: &mut M) -> () { \
methods.add_function(\"sum\", |_, (a, b, ): (i32, u8, )| { return Ok(Calc::sum(a, b, )); }); } } "
    );
}

#[test]
fn implementation_receiver_only_first() {
    // a receiver that is not the first input does not make a method
    let items = vec![method("f", false, vec![typed("x", "i32"), FnInput::Receiver { mutable: false }])];
    assert_eq!(
        implementation("T", &items),
        "impl T { #[doc(hidden)] pub fn _to_mlua_methods<M: mlua::UserDataMethods<Self>>(methods: &mut M) -> () { \
methods.add_function(\"f\", |_, (x, ): (i32, )| { return Ok(T::f(x, )); }); } } "
    );
}

fn from_lua(tp: &str) -> String {
    format!(
        "impl mlua::FromLua for {tp} {{ fn from_lua(value: mlua::Value, lua: &mlua::Lua) -> mlua::Result<Self> {{ \
let output: mlua::Result<Self> = match value {{ mlua::Value::UserData(user_data) => {{ return match user_data.borrow::<Self>() {{ \
Ok(b) => Ok((*b).clone()), Err(_) => Err(mlua::Error::FromLuaConversionError {{ from: \"UserData\", to: stringify!({tp}).to_string(), \
message: Some(\"userdata is not this exact Rust type\".into()), }}) }}; }}, _ => Err(mlua::Error::FromLuaConversionError {{ \
from: value.type_name(), to: stringify!({tp}).to_string(), message: Some(\"expected userdata created by mlua_magic_macros\".into()), }}), }}; \
return output; }} }} ",
        tp = tp
    )
}

#[test]
fn compile_fields_and_methods() {
    let args = CompileArgs {
        type_path: Some("Player".to_string()),
        fields: Some(true),
        methods: Some(true),
        variants: None,
    };
    let expected = format!(
        "impl mlua::UserData for Player {{ fn add_fields<'lua, F: mlua::UserDataFields<Self>>(fields: &mut F) -> () {{ \
Self::_to_mlua_fields(fields); }} fn add_methods<'lua, M: mlua::UserDataMethods<Self>>(methods: &mut M) -> () {{ \
Self::_to_mlua_methods(methods); }} }} {}",
        from_lua("Player")
    );
    assert_eq!(compile(&args), Ok(expected));
}

#[test]
fn compile_variants_only_and_false_flags() {
    let args = CompileArgs {
        type_path: Some("PlayerStatus".to_string()),
        fields: Some(false),
        methods: None,
        variants: Some(true),
    };
    let expected = format!(
        "impl mlua::UserData for PlayerStatus {{ fn add_fields<'lua, F: mlua::UserDataFields<Self>>(fields: &mut F) -> () {{ \
}} fn add_methods<'lua, M: mlua::UserDataMethods<Self>>(methods: &mut M) -> () {{ \
Self::_to_mlua_variants(methods); }} }} {}",
        from_lua("PlayerStatus")
    );
    assert_eq!(compile(&args), Ok(expected));
}

#[test]
fn compile_requires_type_path() {
    let args = CompileArgs { type_path: None, fields: Some(true), methods: Some(true), variants: Some(true) };
    assert_eq!(compile(&args), Err(GenError::MissingTypePath));
}

#[test]
fn load_three_types() {
    let input = LoadInput {
        lua_expr: "lua".to_string(),
        type_paths: vec!["Player".to_string(), "PlayerStatus".to_string(), "Db".to_string()],
    };
    assert_eq!(
        load(&input),
        "{ let lua: &mlua::Lua = &lua; let globals: mlua::Table = lua.globals(); \
globals.set(stringify!(Player), lua.create_proxy::<Player>()?)?; \
globals.set(stringify!(PlayerStatus), lua.create_proxy::<PlayerStatus>()?)?; \
globals.set(stringify!(Db), lua.create_proxy::<Db>()?)?; }"
    );
}

#[test]
fn load_no_types() {
    let input = LoadInput { lua_expr: "state".to_string(), type_paths: vec![] };
    assert_eq!(
        load(&input),
        "{ let lua: &mlua::Lua = &state; let globals: mlua::Table = lua.globals(); }"
    );
}
