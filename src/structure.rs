//! Field accessors for structs with named fields.

use vstd::prelude::*;

use crate::GenError;

verus! {

/// One field of a struct: its name (absent for a tuple field) and the
/// source text of its type.
#[derive(Debug, Clone, PartialEq, Eq)]
pub struct FieldDesc {
    pub name: Option<String>,
    pub ty: String,
}

/// The name of a field, or nothing for a tuple field.
pub open spec fn field_name(f: FieldDesc) -> Seq<char> {
    match f.name {
        Some(n) => n@,
        None => Seq::empty(),
    }
}

/// Every field has a name.
pub open spec fn all_named(fields: Seq<FieldDesc>) -> bool {
    forall|i: int| 0 <= i < fields.len() ==> (#[trigger] fields[i]).name is Some
}

/// The getter registered for a field: Lua reads a clone of the value.
pub open spec fn getter_text(name: Seq<char>) -> Seq<char> {
    "fields.add_field_method_get(\""@ + name + "\", |_, this| { return Ok(this."@ + name
        + ".clone()); }); "@
}

/// The setter registered for a field: Lua assigns a value of the field's type.
pub open spec fn setter_text(name: Seq<char>, ty: Seq<char>) -> Seq<char> {
    "fields.add_field_method_set(\""@ + name + "\", |_, this, val: "@ + ty + "| { this."@ + name
        + " = val; return Ok(()); }); "@
}

/// Both accessors of one field, getter first.
pub open spec fn field_entries(name: Seq<char>, ty: Seq<char>) -> Seq<char> {
    getter_text(name) + setter_text(name, ty)
}

/// The accessors of all fields, in declaration order.
pub open spec fn fields_body(fields: Seq<FieldDesc>) -> Seq<char>
    decreases fields.len(),
{
    if fields.len() == 0 {
        Seq::empty()
    } else {
        fields_body(fields.drop_last()) + field_entries(
            field_name(fields.last()),
            fields.last().ty@,
        )
    }
}

/// The helper impl that registers every field of the type `owner`.
pub open spec fn fields_helper(owner: Seq<char>, fields: Seq<FieldDesc>) -> Seq<char> {
    "impl "@ + owner
        + " { #[doc(hidden)] pub fn _to_mlua_fields<F: mlua::UserDataFields<Self>>(fields: &mut F) -> () { "@
        + fields_body(fields) + "} } "@
}

fn push_field_entries(out: &mut String, name: &str, ty: &str)
    ensures
        final(out)@ == old(out)@ + field_entries(name@, ty@),
{
    out.append("fields.add_field_method_get(\"");
    out.append(name);
    out.append("\", |_, this| { return Ok(this.");
    out.append(name);
    out.append(".clone()); }); ");
    out.append("fields.add_field_method_set(\"");
    out.append(name);
    out.append("\", |_, this, val: ");
    out.append(ty);
    out.append("| { this.");
    out.append(name);
    out.append(" = val; return Ok(()); }); ");
    assert(out@ =~= old(out)@ + field_entries(name@, ty@));
}

/// Generates the helper impl that exposes each named field of the struct
/// `name` to Lua as a readable and writable property. Fails when a field
/// has no name.
pub fn structure(name: &str, fields: &Vec<FieldDesc>) -> (r: Result<String, GenError>)
    ensures
        r is Ok <==> all_named(fields@),
        r matches Ok(s) ==> s@ == fields_helper(name@, fields@),
        r matches Err(e) ==> e == GenError::UnnamedField,
{
    let mut body = String::new();
    let mut i: usize = 0;
    while i < fields.len()
        invariant
            i <= fields@.len(),
            all_named(fields@.subrange(0, i as int)),
            body@ == fields_body(fields@.subrange(0, i as int)),
        decreases fields.len() - i,
    {
        let f = &fields[i];
        match &f.name {
            Some(n) => {
                push_field_entries(&mut body, n.as_str(), f.ty.as_str());
            },
            None => {
                return Err(GenError::UnnamedField);
            },
        }
        assert(fields@.subrange(0, i + 1).drop_last() =~= fields@.subrange(0, i as int));
        i = i + 1;
    }
    assert(fields@.subrange(0, i as int) =~= fields@);
    let mut out = String::from_str("impl ");
    out.append(name);
    out.append(
        " { #[doc(hidden)] pub fn _to_mlua_fields<F: mlua::UserDataFields<Self>>(fields: &mut F) -> () { ",
    );
    out.append(body.as_str());
    out.append("} } ");
    assert(out@ =~= fields_helper(name@, fields@));
    Ok(out)
}

} // verus!
