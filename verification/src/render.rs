//! Rendering: from the model to the source text of the generated code.
//!
//! Each piece of the output has a spec function giving its text and an
//! executable companion that writes that text at the end of a string.

use vstd::prelude::*;
use vstd::string::StringExecFns;
use crate::model::{
    last_type_bound, lemma_first_type_param_from_some, lemma_last_type_bound_some, matched_param,
    param_matches, DeriveInputDef, GenericParamDef, NamedField, TypeExpr, WherePredicateDef,
};
use crate::text::{append_dec, dec_text, lemma_seq_join_step, seq_join};

verus! {

/// A generic parameter as declared: `'a`, `T`, `T: Bounds`, `const N: usize`.
pub open spec fn param_decl_text(p: GenericParamDef) -> Seq<char> {
    match p {
        GenericParamDef::TypeParam { ident, bounds } => match bounds {
            None => ident@,
            Some(b) => ident@ + ": "@ + b@,
        },
        GenericParamDef::LifetimeParam { name } => "'"@ + name@,
        GenericParamDef::ConstParam { ident, ty } => "const "@ + ident@ + ": "@ + ty@,
    }
}

/// A generic parameter as an argument: `'a`, `T`, `N`.
pub open spec fn param_arg_text(p: GenericParamDef) -> Seq<char> {
    match p {
        GenericParamDef::TypeParam { ident, .. } => ident@,
        GenericParamDef::LifetimeParam { name } => "'"@ + name@,
        GenericParamDef::ConstParam { ident, .. } => ident@,
    }
}

/// The generics of the `impl` line: empty, or `<decl, ...>`.
pub open spec fn impl_generics_text(gens: Seq<GenericParamDef>) -> Seq<char> {
    if gens.len() == 0 {
        Seq::empty()
    } else {
        "<"@ + seq_join(gens.map_values(|p: GenericParamDef| param_decl_text(p)), ", "@) + ">"@
    }
}

/// The generics of the implemented type: empty, or `<arg, ...>`.
pub open spec fn ty_generics_text(gens: Seq<GenericParamDef>) -> Seq<char> {
    if gens.len() == 0 {
        Seq::empty()
    } else {
        "<"@ + seq_join(gens.map_values(|p: GenericParamDef| param_arg_text(p)), ", "@) + ">"@
    }
}

/// One `where` predicate as written.
pub open spec fn where_pred_text(p: WherePredicateDef) -> Seq<char> {
    match p {
        WherePredicateDef::TypeBound { bounded, bounds } => bounded.text() + ": "@ + bounds@,
        WherePredicateDef::Other { text } => text@,
    }
}

/// The `where` clause of the `impl` line: empty, or ` where pred, ...`.
pub open spec fn where_clause_text(preds: Seq<WherePredicateDef>) -> Seq<char> {
    if preds.len() == 0 {
        Seq::empty()
    } else {
        " where "@ + seq_join(preds.map_values(|p: WherePredicateDef| where_pred_text(p)), ", "@)
    }
}

/// The switched parameter's name: `W` before the parameter's own name.
pub open spec fn new_generic_text(p: GenericParamDef) -> Seq<char> {
    "W"@ + match p {
        GenericParamDef::TypeParam { ident, .. } => ident@,
        _ => Seq::<char>::empty(),
    }
}

/// The switched parameter as declared on the constructor: its new name,
/// under the parameter's own bounds.
pub open spec fn switch_decl_text(p: GenericParamDef) -> Seq<char> {
    match p {
        GenericParamDef::TypeParam { bounds, .. } => match bounds {
            None => new_generic_text(p),
            Some(b) => new_generic_text(p) + ": "@ + b@,
        },
        _ => Seq::<char>::empty(),
    }
}

/// The return type's argument at position `i`: the parameter there, the
/// one at `k` under its new name.
pub open spec fn ret_arg_text(gens: Seq<GenericParamDef>, k: int, i: int) -> Seq<char> {
    if i == k {
        new_generic_text(gens[k])
    } else {
        param_arg_text(gens[i])
    }
}

/// The return type's arguments, in parameter order.
pub open spec fn ret_parts(gens: Seq<GenericParamDef>, k: int) -> Seq<Seq<char>> {
    Seq::new(gens.len(), |i: int| ret_arg_text(gens, k, i))
}

/// The return type's arguments: the parameters in their order, the one at
/// `k` under its new name.
pub open spec fn ret_args_text(gens: Seq<GenericParamDef>, k: int) -> Seq<char> {
    "<"@ + seq_join(ret_parts(gens, k), ", "@) + ">"@
}

/// The bounds of a type-bound predicate.
pub open spec fn bound_of(p: WherePredicateDef) -> Seq<char> {
    match p {
        WherePredicateDef::TypeBound { bounds, .. } => bounds@,
        WherePredicateDef::Other { .. } => Seq::<char>::empty(),
    }
}

/// The constructor's own `where` clause: the last predicate bounding the
/// switched path, moved onto the new name; empty where there is none.
pub open spec fn switch_where_text(
    preds: Seq<WherePredicateDef>,
    path: Seq<char>,
    ng: Seq<char>,
) -> Seq<char> {
    match last_type_bound(preds, path) {
        None => Seq::<char>::empty(),
        Some(j) => " where "@ + ng + ": "@ + bound_of(preds[j]),
    }
}

/// Writes the source text of a type.
pub fn append_type_expr(out: &mut String, t: &TypeExpr)
    ensures
        final(out)@ == old(out)@ + t.text(),
{
    match t {
        TypeExpr::Path(s) => out.append(s.as_str()),
        TypeExpr::Other(s) => out.append(s.as_str()),
    }
}

/// Writes a generic parameter as declared.
pub fn append_param_decl(out: &mut String, p: &GenericParamDef)
    ensures
        final(out)@ == old(out)@ + param_decl_text(*p),
{
    match p {
        GenericParamDef::TypeParam { ident, bounds } => {
            out.append(ident.as_str());
            match bounds {
                Some(b) => {
                    out.append(": ");
                    out.append(b.as_str());
                    assert(out@ =~= old(out)@ + param_decl_text(*p));
                },
                None => {},
            }
        },
        GenericParamDef::LifetimeParam { name } => {
            out.append("'");
            out.append(name.as_str());
        },
        GenericParamDef::ConstParam { ident, ty } => {
            out.append("const ");
            out.append(ident.as_str());
            out.append(": ");
            out.append(ty.as_str());
            assert(out@ =~= old(out)@ + param_decl_text(*p));
        },
    }
}

/// Writes a generic parameter as an argument.
pub fn append_param_arg(out: &mut String, p: &GenericParamDef)
    ensures
        final(out)@ == old(out)@ + param_arg_text(*p),
{
    match p {
        GenericParamDef::TypeParam { ident, .. } => out.append(ident.as_str()),
        GenericParamDef::LifetimeParam { name } => {
            out.append("'");
            out.append(name.as_str());
        },
        GenericParamDef::ConstParam { ident, .. } => out.append(ident.as_str()),
    }
}

/// Writes the generics of the `impl` line.
pub fn append_impl_generics(out: &mut String, gens: &Vec<GenericParamDef>)
    ensures
        final(out)@ == old(out)@ + impl_generics_text(gens@),
{
    if gens.len() == 0 {
        return ;
    }
    let ghost parts = gens@.map_values(|p: GenericParamDef| param_decl_text(p));
    out.append("<");
    for i in 0..gens.len()
        invariant
            parts == gens@.map_values(|p: GenericParamDef| param_decl_text(p)),
            out@ == old(out)@ + "<"@ + seq_join(parts.take(i as int), ", "@),
    {
        if i > 0 {
            out.append(", ");
        }
        append_param_decl(out, &gens[i]);
        proof {
            lemma_seq_join_step(parts, ", "@, i as int);
            assert(parts[i as int] == param_decl_text(gens@[i as int]));
            assert(out@ =~= old(out)@ + "<"@ + seq_join(parts.take(i + 1), ", "@));
        }
    }
    out.append(">");
    proof {
        assert(parts.take(gens@.len() as int) =~= parts);
        assert(out@ =~= old(out)@ + impl_generics_text(gens@));
    }
}

/// Writes the generics of the implemented type.
pub fn append_ty_generics(out: &mut String, gens: &Vec<GenericParamDef>)
    ensures
        final(out)@ == old(out)@ + ty_generics_text(gens@),
{
    if gens.len() == 0 {
        return ;
    }
    let ghost parts = gens@.map_values(|p: GenericParamDef| param_arg_text(p));
    out.append("<");
    for i in 0..gens.len()
        invariant
            parts == gens@.map_values(|p: GenericParamDef| param_arg_text(p)),
            out@ == old(out)@ + "<"@ + seq_join(parts.take(i as int), ", "@),
    {
        if i > 0 {
            out.append(", ");
        }
        append_param_arg(out, &gens[i]);
        proof {
            lemma_seq_join_step(parts, ", "@, i as int);
            assert(parts[i as int] == param_arg_text(gens@[i as int]));
            assert(out@ =~= old(out)@ + "<"@ + seq_join(parts.take(i + 1), ", "@));
        }
    }
    out.append(">");
    proof {
        assert(parts.take(gens@.len() as int) =~= parts);
        assert(out@ =~= old(out)@ + ty_generics_text(gens@));
    }
}

/// Writes one `where` predicate.
pub fn append_where_pred(out: &mut String, p: &WherePredicateDef)
    ensures
        final(out)@ == old(out)@ + where_pred_text(*p),
{
    match p {
        WherePredicateDef::TypeBound { bounded, bounds } => {
            append_type_expr(out, bounded);
            out.append(": ");
            out.append(bounds.as_str());
            assert(out@ =~= old(out)@ + where_pred_text(*p));
        },
        WherePredicateDef::Other { text } => out.append(text.as_str()),
    }
}

/// Writes the `where` clause of the `impl` line.
pub fn append_where_clause(out: &mut String, preds: &Vec<WherePredicateDef>)
    ensures
        final(out)@ == old(out)@ + where_clause_text(preds@),
{
    if preds.len() == 0 {
        return ;
    }
    let ghost parts = preds@.map_values(|p: WherePredicateDef| where_pred_text(p));
    out.append(" where ");
    for i in 0..preds.len()
        invariant
            parts == preds@.map_values(|p: WherePredicateDef| where_pred_text(p)),
            out@ == old(out)@ + " where "@ + seq_join(parts.take(i as int), ", "@),
    {
        if i > 0 {
            out.append(", ");
        }
        append_where_pred(out, &preds[i]);
        proof {
            lemma_seq_join_step(parts, ", "@, i as int);
            assert(parts[i as int] == where_pred_text(preds@[i as int]));
            assert(out@ =~= old(out)@ + " where "@ + seq_join(parts.take(i + 1), ", "@));
        }
    }
    proof {
        assert(parts.take(preds@.len() as int) =~= parts);
    }
}

/// Writes the switched parameter's new name.
pub fn append_new_generic(out: &mut String, p: &GenericParamDef)
    requires
        p is TypeParam,
    ensures
        final(out)@ == old(out)@ + new_generic_text(*p),
{
    match p {
        GenericParamDef::TypeParam { ident, .. } => {
            out.append("W");
            out.append(ident.as_str());
        },
        _ => {
            proof {
                assert(false);
            }
        },
    }
}

/// Writes the switched parameter's declaration.
pub fn append_switch_decl(out: &mut String, p: &GenericParamDef)
    requires
        p is TypeParam,
    ensures
        final(out)@ == old(out)@ + switch_decl_text(*p),
{
    append_new_generic(out, p);
    match p {
        GenericParamDef::TypeParam { bounds, .. } => {
            match bounds {
                Some(b) => {
                    out.append(": ");
                    out.append(b.as_str());
                    assert(out@ =~= old(out)@ + switch_decl_text(*p));
                },
                None => {},
            }
        },
        _ => {
            proof {
                assert(false);
            }
        },
    }
}

/// Writes the return type's arguments.
pub fn append_ret_args(out: &mut String, gens: &Vec<GenericParamDef>, k: usize)
    requires
        k < gens@.len(),
        gens@[k as int] is TypeParam,
    ensures
        final(out)@ == old(out)@ + ret_args_text(gens@, k as int),
{
    let ghost parts = ret_parts(gens@, k as int);
    out.append("<");
    for i in 0..gens.len()
        invariant
            k < gens@.len(),
            gens@[k as int] is TypeParam,
            parts == ret_parts(gens@, k as int),
            out@ == old(out)@ + "<"@ + seq_join(parts.take(i as int), ", "@),
    {
        if i > 0 {
            out.append(", ");
        }
        if i == k {
            append_new_generic(out, &gens[k]);
        } else {
            append_param_arg(out, &gens[i]);
        }
        proof {
            lemma_seq_join_step(parts, ", "@, i as int);
            assert(parts[i as int] == ret_arg_text(gens@, k as int, i as int));
            assert(out@ =~= old(out)@ + "<"@ + seq_join(parts.take(i + 1), ", "@));
        }
    }
    out.append(">");
    proof {
        assert(parts.take(gens@.len() as int) =~= parts);
        assert(out@ =~= old(out)@ + ret_args_text(gens@, k as int));
    }
}

/// Writes the constructor's own `where` clause for a switch of the path
/// `path`, whose parameter is `p`.
pub fn append_switch_where(
    out: &mut String,
    preds: &Vec<WherePredicateDef>,
    path: &String,
    p: &GenericParamDef,
)
    requires
        p is TypeParam,
    ensures
        final(out)@ == old(out)@ + switch_where_text(preds@, path@, new_generic_text(*p)),
{
    let found = crate::model::find_where_bound(preds, path);
    match found {
        None => {},
        Some(j) => {
            proof {
                lemma_last_type_bound_some(preds@, path@);
            }
            out.append(" where ");
            append_new_generic(out, p);
            out.append(": ");
            match &preds[j] {
                WherePredicateDef::TypeBound { bounds, .. } => {
                    out.append(bounds.as_str());
                },
                _ => {
                    proof {
                        assert(false);
                    }
                },
            }
            assert(out@ =~= old(out)@ + switch_where_text(preds@, path@, new_generic_text(*p)));
        },
    }
}

/// A plain constructor of a named field: the field's value is taken
/// through `Into`, the others are kept; a lone field leaves no `..self`.
pub open spec fn named_into_ctor_text(name: Seq<char>, ty: Seq<char>, lone: bool) -> Seq<char> {
    "pub fn with_"@ + name + "(self, "@ + name + ": impl Into<"@ + ty
        + ">) -> Self { Self { "@ + name + ": "@ + name + ".into()"@ + (if lone {
        " } }"@
    } else {
        ", ..self } }"@
    })
}

/// Writes a plain constructor of a named field.
pub fn append_named_into_ctor(out: &mut String, name: &String, ty: &TypeExpr, lone: bool)
    ensures
        final(out)@ == old(out)@ + named_into_ctor_text(name@, ty.text(), lone),
{
    out.append("pub fn with_");
    out.append(name.as_str());
    out.append("(self, ");
    out.append(name.as_str());
    out.append(": impl Into<");
    append_type_expr(out, ty);
    out.append(">) -> Self { Self { ");
    out.append(name.as_str());
    out.append(": ");
    out.append(name.as_str());
    out.append(".into()");
    if lone {
        out.append(" } }");
    } else {
        out.append(", ..self } }");
    }
    assert(out@ =~= old(out)@ + named_into_ctor_text(name@, ty.text(), lone));
}

/// One field of the body of a switching constructor of a named struct:
/// the switched field is bound afresh, the others are kept from `self`.
pub open spec fn named_switch_field_text(f: NamedField, switched: Seq<char>) -> Seq<char> {
    if f.name@ == switched {
        f.name@
    } else {
        f.name@ + ": self."@ + f.name@
    }
}

/// The fields of that body, in order.
pub open spec fn named_body_parts(fields: Seq<NamedField>, switched: Seq<char>) -> Seq<Seq<char>> {
    Seq::new(fields.len(), |i: int| named_switch_field_text(fields[i], switched))
}

/// The body of a switching constructor of a named struct.
pub open spec fn named_switch_body_text(fields: Seq<NamedField>, switched: Seq<char>) -> Seq<
    char,
> {
    seq_join(named_body_parts(fields, switched), ", "@)
}

/// Writes the body of a switching constructor of a named struct.
pub fn append_named_switch_body(out: &mut String, fields: &Vec<NamedField>, switched: &String)
    ensures
        final(out)@ == old(out)@ + named_switch_body_text(fields@, switched@),
{
    let ghost parts = named_body_parts(fields@, switched@);
    for i in 0..fields.len()
        invariant
            parts == named_body_parts(fields@, switched@),
            out@ == old(out)@ + seq_join(parts.take(i as int), ", "@),
    {
        if i > 0 {
            out.append(", ");
        }
        let f = &fields[i];
        if f.name == *switched {
            out.append(f.name.as_str());
        } else {
            out.append(f.name.as_str());
            out.append(": self.");
            out.append(f.name.as_str());
        }
        proof {
            lemma_seq_join_step(parts, ", "@, i as int);
            assert(parts[i as int] == named_switch_field_text(fields@[i as int], switched@));
            assert(out@ =~= old(out)@ + seq_join(parts.take(i + 1), ", "@));
        }
    }
    proof {
        assert(parts.take(fields@.len() as int) =~= parts);
    }
}

/// A switching constructor of a named field: the field's type is the
/// parameter at `k`, and comes back under a fresh parameter, so the call
/// may change it.
pub open spec fn named_switch_ctor_text(
    input: DeriveInputDef,
    fields: Seq<NamedField>,
    j: int,
    k: int,
) -> Seq<char> {
    "pub fn with_"@ + fields[j].name@ + "<"@ + switch_decl_text(input.generics@[k])
        + ">(self, "@ + fields[j].name@ + ": "@ + new_generic_text(input.generics@[k]) + ") -> "@
        + input.ident@ + ret_args_text(input.generics@, k) + switch_where_text(
        input.where_predicates@,
        fields[j].ty.text(),
        new_generic_text(input.generics@[k]),
    ) + " { "@ + input.ident@ + " { "@ + named_switch_body_text(fields, fields[j].name@)
        + " } }"@
}

/// Writes a switching constructor of a named field.
pub fn append_named_switch_ctor(
    out: &mut String,
    input: &DeriveInputDef,
    fields: &Vec<NamedField>,
    j: usize,
    k: usize,
)
    requires
        j < fields@.len(),
        k < input.generics@.len(),
        matched_param(input.generics@, fields@[j as int].ty) == Some(k as int),
    ensures
        final(out)@ == old(out)@ + named_switch_ctor_text(*input, fields@, j as int, k as int),
{
    let f = &fields[j];
    proof {
        match &f.ty {
            TypeExpr::Path(p) => {
                lemma_first_type_param_from_some(input.generics@, p@, 0);
            },
            TypeExpr::Other(_) => {},
        }
        assert(param_matches(input.generics@[k as int], f.ty.text()));
    }
    out.append("pub fn with_");
    out.append(f.name.as_str());
    out.append("<");
    append_switch_decl(out, &input.generics[k]);
    out.append(">(self, ");
    out.append(f.name.as_str());
    out.append(": ");
    append_new_generic(out, &input.generics[k]);
    out.append(") -> ");
    out.append(input.ident.as_str());
    append_ret_args(out, &input.generics, k);
    match &f.ty {
        TypeExpr::Path(p) => {
            append_switch_where(out, &input.where_predicates, p, &input.generics[k]);
        },
        TypeExpr::Other(_) => {
            proof {
                assert(false);
            }
        },
    }
    out.append(" { ");
    out.append(input.ident.as_str());
    out.append(" { ");
    append_named_switch_body(out, fields, &f.name);
    out.append(" } }");
    assert(out@ =~= old(out)@ + named_switch_ctor_text(*input, fields@, j as int, k as int));
}

/// A plain constructor of a tuple field: the field's value is taken
/// through `Into` and assigned in place.
pub open spec fn tuple_into_ctor_text(i: int, ty: Seq<char>) -> Seq<char> {
    "pub fn with_"@ + dec_text(i) + "(mut self, field_"@ + dec_text(i) + ": impl Into<"@ + ty
        + ">) -> Self { self."@ + dec_text(i) + " = field_"@ + dec_text(i)
        + ".into(); self }"@
}

/// Writes a plain constructor of a tuple field.
pub fn append_tuple_into_ctor(out: &mut String, idx: usize, ty: &TypeExpr)
    ensures
        final(out)@ == old(out)@ + tuple_into_ctor_text(idx as int, ty.text()),
{
    out.append("pub fn with_");
    append_dec(out, idx);
    out.append("(mut self, field_");
    append_dec(out, idx);
    out.append(": impl Into<");
    append_type_expr(out, ty);
    out.append(">) -> Self { self.");
    append_dec(out, idx);
    out.append(" = field_");
    append_dec(out, idx);
    out.append(".into(); self }");
    assert(out@ =~= old(out)@ + tuple_into_ctor_text(idx as int, ty.text()));
}

/// One element of the body of a switching constructor of a tuple struct:
/// the switched position is bound afresh, the others are kept from `self`.
pub open spec fn tuple_switch_elem_text(i: int, j: int) -> Seq<char> {
    if i == j {
        "field_"@ + dec_text(j)
    } else {
        "self."@ + dec_text(i)
    }
}

/// The elements of that body, in order.
pub open spec fn tuple_body_parts(arity: nat, j: int) -> Seq<Seq<char>> {
    Seq::new(arity, |i: int| tuple_switch_elem_text(i, j))
}

/// The body of a switching constructor of a tuple struct.
pub open spec fn tuple_switch_body_text(arity: nat, j: int) -> Seq<char> {
    seq_join(tuple_body_parts(arity, j), ", "@)
}

/// Writes the body of a switching constructor of a tuple struct.
pub fn append_tuple_switch_body(out: &mut String, arity: usize, j: usize)
    ensures
        final(out)@ == old(out)@ + tuple_switch_body_text(arity as nat, j as int),
{
    let ghost parts = tuple_body_parts(arity as nat, j as int);
    for i in 0..arity
        invariant
            parts == tuple_body_parts(arity as nat, j as int),
            out@ == old(out)@ + seq_join(parts.take(i as int), ", "@),
    {
        if i > 0 {
            out.append(", ");
        }
        if i == j {
            out.append("field_");
            append_dec(out, j);
        } else {
            out.append("self.");
            append_dec(out, i);
        }
        proof {
            lemma_seq_join_step(parts, ", "@, i as int);
            assert(parts[i as int] == tuple_switch_elem_text(i as int, j as int));
            assert(out@ =~= old(out)@ + seq_join(parts.take(i + 1), ", "@));
        }
    }
    proof {
        assert(parts.take(arity as int) =~= parts);
    }
}

/// A switching constructor of a tuple field: the field's type is the
/// parameter at `k`, and comes back under a fresh parameter, so the call
/// may change it.
pub open spec fn tuple_switch_ctor_text(
    input: DeriveInputDef,
    tys: Seq<TypeExpr>,
    j: int,
    k: int,
) -> Seq<char> {
    "pub fn with_"@ + dec_text(j) + "<"@ + switch_decl_text(input.generics@[k])
        + ">(self, field_"@ + dec_text(j) + ": "@ + new_generic_text(input.generics@[k])
        + ") -> "@ + input.ident@ + ret_args_text(input.generics@, k) + switch_where_text(
        input.where_predicates@,
        tys[j].text(),
        new_generic_text(input.generics@[k]),
    ) + " { "@ + input.ident@ + "("@ + tuple_switch_body_text(tys.len(), j) + ") }"@
}

/// Writes a switching constructor of a tuple field.
pub fn append_tuple_switch_ctor(
    out: &mut String,
    input: &DeriveInputDef,
    tys: &Vec<TypeExpr>,
    j: usize,
    k: usize,
)
    requires
        j < tys@.len(),
        k < input.generics@.len(),
        matched_param(input.generics@, tys@[j as int]) == Some(k as int),
    ensures
        final(out)@ == old(out)@ + tuple_switch_ctor_text(*input, tys@, j as int, k as int),
{
    proof {
        match &tys@[j as int] {
            TypeExpr::Path(p) => {
                lemma_first_type_param_from_some(input.generics@, p@, 0);
            },
            TypeExpr::Other(_) => {},
        }
        assert(param_matches(input.generics@[k as int], tys@[j as int].text()));
    }
    out.append("pub fn with_");
    append_dec(out, j);
    out.append("<");
    append_switch_decl(out, &input.generics[k]);
    out.append(">(self, field_");
    append_dec(out, j);
    out.append(": ");
    append_new_generic(out, &input.generics[k]);
    out.append(") -> ");
    out.append(input.ident.as_str());
    append_ret_args(out, &input.generics, k);
    match &tys[j] {
        TypeExpr::Path(p) => {
            append_switch_where(out, &input.where_predicates, p, &input.generics[k]);
        },
        TypeExpr::Other(_) => {
            proof {
                assert(false);
            }
        },
    }
    out.append(" { ");
    out.append(input.ident.as_str());
    out.append("(");
    append_tuple_switch_body(out, tys.len(), j);
    out.append(") }");
    assert(out@ =~= old(out)@ + tuple_switch_ctor_text(*input, tys@, j as int, k as int));
}

} // verus!
