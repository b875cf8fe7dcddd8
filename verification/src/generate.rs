//! The generator: from an annotated definition to the `impl` block's
//! source text, one `with_<field>` constructor per selected field.

use vstd::prelude::*;
use vstd::string::StringExecFns;
use crate::model::{
    args_are_idents, args_are_indices, dec_val, is_dec_text, lemma_first_type_param_from_some,
    matched_param, selects_index, selects_name, spec_with_args_of, with_attr, with_attr_from,
    with_attr_is_list_of, AttrDef, DataDef, DeriveInputDef, FieldsDef, NamedField, TypeExpr,
};
use crate::render::{
    append_impl_generics, append_named_into_ctor, append_named_switch_ctor,
    append_tuple_into_ctor, append_tuple_switch_ctor, append_ty_generics, append_where_clause,
    impl_generics_text, named_into_ctor_text, named_switch_ctor_text, tuple_into_ctor_text,
    tuple_switch_ctor_text, ty_generics_text, where_clause_text,
};
use crate::text::parse_dec;

verus! {

/// The view of an optional argument list.
pub open spec fn opt_strings_view(args: Option<Vec<String>>) -> Option<Seq<String>> {
    match args {
        None => None,
        Some(v) => Some(v@),
    }
}

/// The view of an optional index list.
pub open spec fn opt_indices_view(args: Option<Vec<usize>>) -> Option<Seq<usize>> {
    match args {
        None => None,
        Some(v) => Some(v@),
    }
}

/// The constructor a selected named field gets: a switching one where its
/// type coincides with a generic parameter, a plain one otherwise.
pub open spec fn named_ctor_text(
    input: DeriveInputDef,
    fields: Seq<NamedField>,
    j: int,
) -> Seq<char> {
    match matched_param(input.generics@, fields[j].ty) {
        None => named_into_ctor_text(fields[j].name@, fields[j].ty.text(), fields.len() == 1),
        Some(k) => named_switch_ctor_text(input, fields, j, k),
    }
}

/// The constructors of the first `n` named fields, the selected ones each
/// followed by a space.
pub open spec fn named_ctors_text_upto(
    input: DeriveInputDef,
    fields: Seq<NamedField>,
    args: Option<Seq<String>>,
    n: int,
) -> Seq<char>
    decreases n,
{
    if n <= 0 {
        Seq::empty()
    } else {
        named_ctors_text_upto(input, fields, args, n - 1) + (if selects_name(
            args,
            fields[n - 1].name@,
        ) {
            named_ctor_text(input, fields, n - 1) + " "@
        } else {
            Seq::<char>::empty()
        })
    }
}

/// The constructor a selected tuple field gets.
pub open spec fn tuple_ctor_text(input: DeriveInputDef, tys: Seq<TypeExpr>, j: int) -> Seq<char> {
    match matched_param(input.generics@, tys[j]) {
        None => tuple_into_ctor_text(j, tys[j].text()),
        Some(k) => tuple_switch_ctor_text(input, tys, j, k),
    }
}

/// The constructors of the first `n` tuple fields, the selected ones each
/// followed by a space.
pub open spec fn tuple_ctors_text_upto(
    input: DeriveInputDef,
    tys: Seq<TypeExpr>,
    args: Option<Seq<usize>>,
    n: int,
) -> Seq<char>
    decreases n,
{
    if n <= 0 {
        Seq::empty()
    } else {
        tuple_ctors_text_upto(input, tys, args, n - 1) + (if selects_index(
            args,
            (n - 1) as usize,
        ) {
            tuple_ctor_text(input, tys, n - 1) + " "@
        } else {
            Seq::<char>::empty()
        })
    }
}

/// The head of the generated block, up to the opening brace: the `impl`
/// line of the struct, under its own generics and `where` clause.
pub open spec fn impl_header_text(input: DeriveInputDef) -> Seq<char> {
    "#[automatically_derived] impl"@ + impl_generics_text(input.generics@) + " "@ + input.ident@
        + ty_generics_text(input.generics@) + where_clause_text(input.where_predicates@) + " { "@
}

/// The whole generated block for a named struct.
pub open spec fn named_impl_text(
    input: DeriveInputDef,
    fields: Seq<NamedField>,
    args: Option<Seq<String>>,
) -> Seq<char> {
    impl_header_text(input) + named_ctors_text_upto(input, fields, args, fields.len() as int)
        + "}"@
}

/// The whole generated block for a tuple struct.
pub open spec fn tuple_impl_text(
    input: DeriveInputDef,
    tys: Seq<TypeExpr>,
    args: Option<Seq<usize>>,
) -> Seq<char> {
    impl_header_text(input) + tuple_ctors_text_upto(input, tys, args, tys.len() as int) + "}"@
}

/// The whole generated block.
pub open spec fn derive_text(input: DeriveInputDef) -> Seq<char> {
    match input.data {
        DataDef::Struct(FieldsDef::Named(fields)) => named_impl_text(
            input,
            fields@,
            spec_with_args_of(input.attrs@),
        ),
        DataDef::Struct(FieldsDef::Unnamed(tys)) => tuple_impl_text(
            input,
            tys@,
            input.index_args(),
        ),
        _ => Seq::empty(),
    }
}

/// Finds the first attribute named `with`.
fn find_with_attr(attrs: &Vec<AttrDef>) -> (r: Option<usize>)
    ensures
        match r {
            Some(i) => i < attrs@.len() && with_attr(attrs@) == Some(i as int),
            None => with_attr(attrs@) is None,
        },
{
    let key = String::from_str("with");
    let mut i: usize = 0;
    while i < attrs.len()
        invariant
            i <= attrs@.len(),
            key@ == "with"@,
            with_attr(attrs@) == with_attr_from(attrs@, i as int),
        decreases attrs@.len() - i,
    {
        if attrs[i].name == key {
            return Some(i);
        }
        i = i + 1;
    }
    None
}

/// Reads the `with` attribute's arguments as field names.
pub fn parse_with_args_named(attrs: &Vec<AttrDef>) -> (r: Option<Vec<String>>)
    requires
        with_attr_is_list_of(attrs@),
        args_are_idents(spec_with_args_of(attrs@)),
    ensures
        r is Some <==> spec_with_args_of(attrs@) is Some,
        r matches Some(v) ==> spec_with_args_of(attrs@) matches Some(s) && v@ == s,
{
    match find_with_attr(attrs) {
        None => None,
        Some(i) => match &attrs[i].args {
            Some(list) => {
                let mut v: Vec<String> = Vec::new();
                for j in 0..list.len()
                    invariant
                        v@ == list@.take(j as int),
                {
                    v.push(list[j].clone());
                    proof {
                        assert(v@ =~= list@.take(j + 1));
                    }
                }
                proof {
                    assert(v@ =~= list@);
                }
                Some(v)
            },
            None => {
                proof {
                    assert(false);
                }
                None
            },
        },
    }
}

/// Reads the `with` attribute's arguments as field indices.
pub fn parse_with_args_indexed(attrs: &Vec<AttrDef>) -> (r: Option<Vec<usize>>)
    requires
        with_attr_is_list_of(attrs@),
        args_are_indices(spec_with_args_of(attrs@)),
    ensures
        r is Some <==> spec_with_args_of(attrs@) is Some,
        r matches Some(v) ==> spec_with_args_of(attrs@) matches Some(s) && v@ == s.map_values(
            |a: String| dec_val(a@) as usize,
        ),
{
    match find_with_attr(attrs) {
        None => None,
        Some(i) => match &attrs[i].args {
            Some(list) => {
                let ghost s = list@;
                proof {
                    assert(spec_with_args_of(attrs@) == Some(s));
                    assert(crate::model::all_indices(s));
                }
                let mut v: Vec<usize> = Vec::new();
                for j in 0..list.len()
                    invariant
                        s == list@,
                        crate::model::all_indices(s),
                        v@.len() == j,
                        forall|m: int| 0 <= m < j ==> v@[m] == dec_val(s[m]@),
                {
                    assert(is_dec_text(s[j as int]@) && dec_val(s[j as int]@) <= usize::MAX);
                    let n = parse_dec(&list[j]);
                    v.push(n);
                }
                proof {
                    assert(v@ =~= s.map_values(|a: String| dec_val(a@) as usize));
                }
                Some(v)
            },
            None => {
                proof {
                    assert(false);
                }
                None
            },
        },
    }
}

/// Decides whether a field named `item` is selected by the arguments.
pub fn contains_field(with_args: &Option<Vec<String>>, item: &String) -> (r: bool)
    ensures
        r == selects_name(opt_strings_view(*with_args), item@),
{
    match with_args {
        None => true,
        Some(args) => {
            let mut i: usize = 0;
            while i < args.len()
                invariant
                    i <= args@.len(),
                    opt_strings_view(*with_args) == Some(args@),
                    forall|k: int| 0 <= k < i ==> args@[k]@ != item@,
                decreases args@.len() - i,
            {
                if args[i] == *item {
                    assert(args@[i as int]@ == item@);
                    assert(crate::model::seq_selects_name(args@, item@));
                    return true;
                }
                i = i + 1;
            }
            false
        },
    }
}

/// Decides whether the field at `index` is selected by the arguments.
pub fn contains_index(with_args: &Option<Vec<usize>>, index: usize) -> (r: bool)
    ensures
        r == selects_index(opt_indices_view(*with_args), index),
{
    match with_args {
        None => true,
        Some(args) => {
            let mut i: usize = 0;
            while i < args.len()
                invariant
                    i <= args@.len(),
                    opt_indices_view(*with_args) == Some(args@),
                    forall|k: int| 0 <= k < i ==> args@[k] != index,
                decreases args@.len() - i,
            {
                if args[i] == index {
                    assert(args@[i as int] == index);
                    assert(crate::model::seq_selects_index(args@, index));
                    return true;
                }
                i = i + 1;
            }
            false
        },
    }
}

/// Writes the head of the generated block, up to the opening brace.
fn append_impl_header(out: &mut String, input: &DeriveInputDef)
    ensures
        final(out)@ == old(out)@ + impl_header_text(*input),
{
    out.append("#[automatically_derived] impl");
    append_impl_generics(out, &input.generics);
    out.append(" ");
    out.append(input.ident.as_str());
    append_ty_generics(out, &input.generics);
    append_where_clause(out, &input.where_predicates);
    out.append(" { ");
    assert(out@ =~= old(out)@ + impl_header_text(*input));
}

/// Generates the block of constructors of a named struct.
#[verifier::rlimit(80)]
pub fn with_constructor_for_named(input: &DeriveInputDef, fields: &Vec<NamedField>) -> (r: String)
    requires
        input.wf(),
        with_attr_is_list_of(input.attrs@),
        args_are_idents(spec_with_args_of(input.attrs@)),
    ensures
        r@ == named_impl_text(*input, fields@, spec_with_args_of(input.attrs@)),
{
    let with_args = parse_with_args_named(&input.attrs);
    let ghost args = spec_with_args_of(input.attrs@);
    proof {
        assert(opt_strings_view(with_args) == args);
    }
    let mut out = String::new();
    append_impl_header(&mut out, input);
    proof {
        assert(out@ =~= impl_header_text(*input));
    }
    let field_count = fields.len();
    for j in 0..fields.len()
        invariant
            field_count == fields@.len(),
            opt_strings_view(with_args) == args,
            args == spec_with_args_of(input.attrs@),
            out@ == impl_header_text(*input) + named_ctors_text_upto(*input, fields@, args, j as int),
    {
        let f = &fields[j];
        if contains_field(&with_args, &f.name) {
            match &f.ty {
                TypeExpr::Path(p) => {
                    match crate::model::find_type_param(&input.generics, p) {
                        Some(k) => {
                            proof {
                                lemma_first_type_param_from_some(input.generics@, p@, 0);
                            }
                            append_named_switch_ctor(&mut out, input, fields, j, k);
                        },
                        None => {
                            append_named_into_ctor(&mut out, &f.name, &f.ty, field_count == 1);
                        },
                    }
                },
                TypeExpr::Other(_) => {
                    append_named_into_ctor(&mut out, &f.name, &f.ty, field_count == 1);
                },
            }
            out.append(" ");
            proof {
                assert(selects_name(args, fields@[j as int].name@));
                assert(out@ =~= impl_header_text(*input) + named_ctors_text_upto(
                    *input,
                    fields@,
                    args,
                    j + 1,
                ));
            }
        } else {
            proof {
                assert(!selects_name(args, fields@[j as int].name@));
                assert(out@ =~= impl_header_text(*input) + named_ctors_text_upto(
                    *input,
                    fields@,
                    args,
                    j + 1,
                ));
            }
        }
    }
    out.append("}");
    proof {
        assert(out@ =~= named_impl_text(*input, fields@, args));
    }
    out
}

/// Generates the block of constructors of a tuple struct.
#[verifier::rlimit(80)]
pub fn with_constructor_for_unnamed(input: &DeriveInputDef, tys: &Vec<TypeExpr>) -> (r: String)
    requires
        input.wf(),
        with_attr_is_list_of(input.attrs@),
        args_are_indices(spec_with_args_of(input.attrs@)),
    ensures
        r@ == tuple_impl_text(*input, tys@, input.index_args()),
{
    let with_args = parse_with_args_indexed(&input.attrs);
    let ghost args = input.index_args();
    proof {
        match &with_args {
            Some(v) => {
                assert(opt_indices_view(with_args) == args);
            },
            None => {
                assert(opt_indices_view(with_args) == args);
            },
        }
    }
    let mut out = String::new();
    append_impl_header(&mut out, input);
    proof {
        assert(out@ =~= impl_header_text(*input));
    }
    for j in 0..tys.len()
        invariant
            opt_indices_view(with_args) == args,
            args == input.index_args(),
            out@ == impl_header_text(*input) + tuple_ctors_text_upto(*input, tys@, args, j as int),
    {
        if contains_index(&with_args, j) {
            match &tys[j] {
                TypeExpr::Path(p) => {
                    match crate::model::find_type_param(&input.generics, p) {
                        Some(k) => {
                            proof {
                                lemma_first_type_param_from_some(input.generics@, p@, 0);
                            }
                            append_tuple_switch_ctor(&mut out, input, tys, j, k);
                        },
                        None => {
                            append_tuple_into_ctor(&mut out, j, &tys[j]);
                        },
                    }
                },
                TypeExpr::Other(_) => {
                    append_tuple_into_ctor(&mut out, j, &tys[j]);
                },
            }
            out.append(" ");
            proof {
                assert(selects_index(args, j));
                assert(out@ =~= impl_header_text(*input) + tuple_ctors_text_upto(
                    *input,
                    tys@,
                    args,
                    j + 1,
                ));
            }
        } else {
            proof {
                assert(!selects_index(args, j));
                assert(out@ =~= impl_header_text(*input) + tuple_ctors_text_upto(
                    *input,
                    tys@,
                    args,
                    j + 1,
                ));
            }
        }
    }
    out.append("}");
    proof {
        assert(out@ =~= tuple_impl_text(*input, tys@, args));
    }
    out
}

/// Generates the block for a struct definition, named or tuple.
pub fn with_for_struct(input: &DeriveInputDef) -> (r: String)
    requires
        input.wf(),
        input.derivable(),
    ensures
        r@ == derive_text(*input),
{
    match &input.data {
        DataDef::Struct(fields) => match fields {
            FieldsDef::Named(fs) => with_constructor_for_named(input, fs),
            FieldsDef::Unnamed(ts) => with_constructor_for_unnamed(input, ts),
            FieldsDef::Unit => {
                proof {
                    assert(false);
                }
                String::new()
            },
        },
        _ => {
            proof {
                assert(false);
            }
            String::new()
        },
    }
}

/// Generates the source text of the builder `impl` block for an annotated
/// definition: one `with_<field>` constructor per selected field.
pub fn derive(input: &DeriveInputDef) -> (r: String)
    requires
        input.wf(),
        input.derivable(),
    ensures
        r@ == derive_text(*input),
{
    with_for_struct(input)
}

} // verus!
