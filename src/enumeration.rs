//! Constructors for the variants of an enum.

use vstd::prelude::*;

use crate::text::{arg_names, comma_join, lemma_comma_join_step, push_arg_list, push_comma_joined, views};

verus! {

/// A named field of a struct-like variant, with the source text of its type.
#[derive(Debug, Clone, PartialEq, Eq)]
pub struct NamedField {
    pub name: String,
    pub ty: String,
}

/// The shape of a variant's payload.
#[derive(Debug, Clone, PartialEq, Eq)]
pub enum VariantFields {
    /// `V`
    Unit,
    /// `V(T0, T1, ...)`, with the source text of each type.
    Unnamed(Vec<String>),
    /// `V { a: A, b: B, ... }`
    Named(Vec<NamedField>),
}

/// One variant of an enum.
#[derive(Debug, Clone, PartialEq, Eq)]
pub struct VariantDesc {
    pub name: String,
    pub fields: VariantFields,
}

/// How a struct-like variant reads one field from the Lua table it is given.
pub open spec fn named_init(f: NamedField) -> Seq<char> {
    f.name@ + ": tbl.get::<_, "@ + f.ty@ + ">(stringify!("@ + f.name@ + "))?"@
}

/// The field reads of a struct-like variant, in declaration order.
pub open spec fn named_inits(fields: Seq<NamedField>) -> Seq<Seq<char>> {
    fields.map_values(|f: NamedField| named_init(f))
}

/// The static function that builds the variant `v` of `owner` from Lua.
/// A unit variant takes no argument, a tuple variant its fields in order
/// (bound as `arg0`, `arg1`, ...), a struct-like variant a table.
pub open spec fn variant_text(owner: Seq<char>, v: VariantDesc) -> Seq<char> {
    let head = "methods.add_function(\""@ + v.name@ + "\", |_, "@;
    let path = owner + "::"@ + v.name@;
    match v.fields {
        VariantFields::Unit => head + "(): ()| { Ok("@ + path + ") }); "@,
        VariantFields::Unnamed(tys) => {
            let args = comma_join(arg_names(tys@.len()));
            head + "("@ + args + "): ("@ + comma_join(views(tys@)) + ")| { Ok("@ + path + "("@
                + args + ")) }); "@
        },
        VariantFields::Named(fs) => head + "tbl: mlua::Table| { Ok("@ + path + " { "@
            + comma_join(named_inits(fs@)) + " }) }); "@,
    }
}

/// The constructors of all variants, in declaration order.
pub open spec fn variants_body(owner: Seq<char>, variants: Seq<VariantDesc>) -> Seq<char>
    decreases variants.len(),
{
    if variants.len() == 0 {
        Seq::empty()
    } else {
        variants_body(owner, variants.drop_last()) + variant_text(owner, variants.last())
    }
}

/// The helper impl that registers a constructor for every variant of `owner`.
pub open spec fn variants_helper(owner: Seq<char>, variants: Seq<VariantDesc>) -> Seq<char> {
    "impl "@ + owner
        + " { #[doc(hidden)] pub fn _to_mlua_variants<M: mlua::UserDataMethods<Self>>(methods: &mut M) -> () { "@
        + variants_body(owner, variants) + "; } } "@
}

fn push_named_inits(out: &mut String, fields: &Vec<NamedField>)
    ensures
        final(out)@ == old(out)@ + comma_join(named_inits(fields@)),
{
    let ghost start = out@;
    let mut i: usize = 0;
    while i < fields.len()
        invariant
            i <= fields@.len(),
            out@ == start + comma_join(named_inits(fields@).take(i as int)),
        decreases fields.len() - i,
    {
        proof {
            lemma_comma_join_step(named_inits(fields@), i as int);
        }
        if i > 0 {
            out.append(", ");
        }
        let f = &fields[i];
        out.append(f.name.as_str());
        out.append(": tbl.get::<_, ");
        out.append(f.ty.as_str());
        out.append(">(stringify!(");
        out.append(f.name.as_str());
        out.append("))?");
        i = i + 1;
        assert(out@ =~= start + comma_join(named_inits(fields@).take(i as int)));
    }
    assert(named_inits(fields@).take(fields@.len() as int) =~= named_inits(fields@));
}

fn push_variant(out: &mut String, owner: &str, v: &VariantDesc)
    ensures
        final(out)@ == old(out)@ + variant_text(owner@, *v),
{
    let ghost start = out@;
    out.append("methods.add_function(\"");
    out.append(v.name.as_str());
    out.append("\", |_, ");
    match &v.fields {
        VariantFields::Unit => {
            out.append("(): ()| { Ok(");
            out.append(owner);
            out.append("::");
            out.append(v.name.as_str());
            out.append(") }); ");
        },
        VariantFields::Unnamed(tys) => {
            out.append("(");
            push_arg_list(out, tys.len());
            out.append("): (");
            push_comma_joined(out, tys);
            out.append(")| { Ok(");
            out.append(owner);
            out.append("::");
            out.append(v.name.as_str());
            out.append("(");
            push_arg_list(out, tys.len());
            out.append(")) }); ");
        },
        VariantFields::Named(fs) => {
            out.append("tbl: mlua::Table| { Ok(");
            out.append(owner);
            out.append("::");
            out.append(v.name.as_str());
            out.append(" { ");
            push_named_inits(out, fs);
            out.append(" }) }); ");
        },
    }
    assert(out@ =~= start + variant_text(owner@, *v));
}

/// Generates the helper impl that exposes each variant of the enum `name`
/// to Lua as a static constructor named after the variant.
pub fn enumeration(name: &str, variants: &Vec<VariantDesc>) -> (r: String)
    ensures
        r@ == variants_helper(name@, variants@),
{
    let mut body = String::new();
    let mut i: usize = 0;
    while i < variants.len()
        invariant
            i <= variants@.len(),
            body@ == variants_body(name@, variants@.subrange(0, i as int)),
        decreases variants.len() - i,
    {
        push_variant(&mut body, name, &variants[i]);
        assert(variants@.subrange(0, i + 1).drop_last() =~= variants@.subrange(0, i as int));
        i = i + 1;
    }
    assert(variants@.subrange(0, i as int) =~= variants@);
    let mut out = String::from_str("impl ");
    out.append(name);
    out.append(
        " { #[doc(hidden)] pub fn _to_mlua_variants<M: mlua::UserDataMethods<Self>>(methods: &mut M) -> () { ",
    );
    out.append(body.as_str());
    out.append("; } } ");
    assert(out@ =~= variants_helper(name@, variants@));
    out
}

} // verus!
