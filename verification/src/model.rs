//! The data model of an annotated definition, as the generator reads it.
//!
//! A definition is held as plain values: names and type texts as strings,
//! generic parameters and `where` predicates as small enums. The spec
//! functions here fix which field a `with` attribute selects and which
//! generic parameter, or `where` predicate, a field's type coincides with;
//! the generator's contracts are stated over them.

use vstd::prelude::*;

verus! {

/// A field's type, as source text: either a plain path (`i32`, `T`,
/// `Vec<String>`) or any other form (`&'a str`, `(A, B)`, ...). Only a
/// path type can coincide with a generic parameter.
pub enum TypeExpr {
    Path(String),
    Other(String),
}

impl TypeExpr {
    /// The source text of the type.
    pub open spec fn text(&self) -> Seq<char> {
        match self {
            TypeExpr::Path(s) => s@,
            TypeExpr::Other(s) => s@,
        }
    }

    /// Whether the type is exactly the path `ident`.
    pub open spec fn is_path_ident(&self, ident: Seq<char>) -> bool {
        match self {
            TypeExpr::Path(s) => s@ == ident,
            TypeExpr::Other(_) => false,
        }
    }

    /// Decides whether the type is exactly the path `ident`.
    pub fn matches_ident(&self, ident: &String) -> (r: bool)
        ensures
            r == self.is_path_ident(ident@),
    {
        match self {
            TypeExpr::Path(s) => *s == *ident,
            TypeExpr::Other(_) => false,
        }
    }
}

/// One generic parameter of the definition.
pub enum GenericParamDef {
    /// `T`, or `T: Bounds` when `bounds` is set.
    TypeParam { ident: String, bounds: Option<String> },
    /// A lifetime parameter; `name` holds the name without the tick.
    LifetimeParam { name: String },
    /// `const N: usize`.
    ConstParam { ident: String, ty: String },
}

/// One predicate of the `where` clause.
pub enum WherePredicateDef {
    /// `Ty: Bounds`. Only a predicate whose bounded type is a plain path
    /// can be carried over to a switched generic parameter.
    TypeBound { bounded: TypeExpr, bounds: String },
    /// Any other predicate, kept as source text (`'a: 'b`, ...).
    Other { text: String },
}

/// A named field, `name: ty`.
pub struct NamedField {
    pub name: String,
    pub ty: TypeExpr,
}

/// The fields of a struct definition.
pub enum FieldsDef {
    Named(Vec<NamedField>),
    Unnamed(Vec<TypeExpr>),
    Unit,
}

/// The shape of the annotated item.
pub enum DataDef {
    Struct(FieldsDef),
    Enum,
    Union,
}

/// One attribute on the item: its (single-ident) path and, where it is a
/// list attribute `#[name(arg, ...)]`, its arguments as source text.
pub struct AttrDef {
    pub name: String,
    pub args: Option<Vec<String>>,
}

/// Everything the generator reads of an annotated definition.
pub struct DeriveInputDef {
    pub ident: String,
    pub attrs: Vec<AttrDef>,
    pub generics: Vec<GenericParamDef>,
    pub where_predicates: Vec<WherePredicateDef>,
    pub data: DataDef,
}

/// Whether `p` is a type parameter named exactly `path`.
pub open spec fn param_matches(p: GenericParamDef, path: Seq<char>) -> bool {
    match p {
        GenericParamDef::TypeParam { ident, .. } => ident@ == path,
        _ => false,
    }
}

/// The name of `p`, where `p` is a type parameter.
pub open spec fn param_ident(p: GenericParamDef) -> Option<Seq<char>> {
    match p {
        GenericParamDef::TypeParam { ident, .. } => Some(ident@),
        _ => None,
    }
}

/// The first type parameter named `path` at or after position `i`.
pub open spec fn first_type_param_from(
    gens: Seq<GenericParamDef>,
    path: Seq<char>,
    i: int,
) -> Option<int>
    decreases gens.len() - i,
{
    if i < 0 || i >= gens.len() {
        None
    } else if param_matches(gens[i], path) {
        Some(i)
    } else {
        first_type_param_from(gens, path, i + 1)
    }
}

/// The type parameter a field of type `path` coincides with, if any.
pub open spec fn first_type_param(gens: Seq<GenericParamDef>, path: Seq<char>) -> Option<int> {
    first_type_param_from(gens, path, 0)
}

/// The type parameter a field's type coincides with, if any: the first
/// parameter whose name is the field's whole type. A field whose type is
/// not a plain path coincides with none.
pub open spec fn matched_param(gens: Seq<GenericParamDef>, ty: TypeExpr) -> Option<int> {
    match ty {
        TypeExpr::Path(p) => first_type_param(gens, p@),
        TypeExpr::Other(_) => None,
    }
}

/// A found type parameter lies in range and carries the name looked for.
pub proof fn lemma_first_type_param_from_some(gens: Seq<GenericParamDef>, path: Seq<char>, i: int)
    ensures
        match first_type_param_from(gens, path, i) {
            Some(k) => i <= k < gens.len() && param_matches(gens[k], path),
            None => true,
        },
    decreases gens.len() - i,
{
    if i < 0 || i >= gens.len() {
    } else if param_matches(gens[i], path) {
    } else {
        lemma_first_type_param_from_some(gens, path, i + 1);
    }
}

/// Whether `p` is a `where` predicate whose bounded type is the path `path`.
pub open spec fn pred_matches(p: WherePredicateDef, path: Seq<char>) -> bool {
    match p {
        WherePredicateDef::TypeBound { bounded, .. } => bounded.is_path_ident(path),
        WherePredicateDef::Other { .. } => false,
    }
}

/// The last `where` predicate bounding the path `path`, if any. The last
/// one governs: a later predicate on the same type shadows an earlier one.
pub open spec fn last_type_bound(preds: Seq<WherePredicateDef>, path: Seq<char>) -> Option<int>
    decreases preds.len(),
{
    if preds.len() == 0 {
        None
    } else if pred_matches(preds.last(), path) {
        Some(preds.len() - 1)
    } else {
        last_type_bound(preds.drop_last(), path)
    }
}

/// A found `where` predicate lies in range and bounds the path looked for.
pub proof fn lemma_last_type_bound_some(preds: Seq<WherePredicateDef>, path: Seq<char>)
    ensures
        match last_type_bound(preds, path) {
            Some(j) => 0 <= j < preds.len() && pred_matches(preds[j], path),
            None => true,
        },
    decreases preds.len(),
{
    if preds.len() == 0 {
    } else if pred_matches(preds.last(), path) {
    } else {
        lemma_last_type_bound_some(preds.drop_last(), path);
        assert(forall|j: int|
            0 <= j < preds.drop_last().len() ==> preds.drop_last()[j] == preds[j]);
    }
}

/// The first attribute named `with` at or after position `i`.
pub open spec fn with_attr_from(attrs: Seq<AttrDef>, i: int) -> Option<int>
    decreases attrs.len() - i,
{
    if i < 0 || i >= attrs.len() {
        None
    } else if attrs[i].name@ == "with"@ {
        Some(i)
    } else {
        with_attr_from(attrs, i + 1)
    }
}

/// The attribute that restricts which fields get a constructor: the first
/// attribute named `with`, if any.
pub open spec fn with_attr(attrs: Seq<AttrDef>) -> Option<int> {
    with_attr_from(attrs, 0)
}

/// Whether the list of names `a` holds `name`.
pub open spec fn seq_selects_name(a: Seq<String>, name: Seq<char>) -> bool {
    exists|i: int| 0 <= i < a.len() && #[trigger] a[i]@ == name
}

/// Whether a field named `name` is selected: either no list of names was
/// given, or the list holds `name`.
pub open spec fn selects_name(args: Option<Seq<String>>, name: Seq<char>) -> bool {
    match args {
        None => true,
        Some(a) => seq_selects_name(a, name),
    }
}

/// Whether the list of indices `a` holds `index`.
pub open spec fn seq_selects_index(a: Seq<usize>, index: usize) -> bool {
    exists|i: int| 0 <= i < a.len() && #[trigger] a[i] == index
}

/// Whether the field at position `index` is selected: either no list of
/// indices was given, or the list holds `index`.
pub open spec fn selects_index(args: Option<Seq<usize>>, index: usize) -> bool {
    match args {
        None => true,
        Some(a) => seq_selects_index(a, index),
    }
}

/// Finds the first type parameter whose name is the whole path `path`.
pub fn find_type_param(gens: &Vec<GenericParamDef>, path: &String) -> (r: Option<usize>)
    ensures
        match r {
            Some(k) => first_type_param(gens@, path@) == Some(k as int),
            None => first_type_param(gens@, path@) is None,
        },
{
    let mut i: usize = 0;
    while i < gens.len()
        invariant
            i <= gens@.len(),
            first_type_param(gens@, path@) == first_type_param_from(gens@, path@, i as int),
        decreases gens@.len() - i,
    {
        match &gens[i] {
            GenericParamDef::TypeParam { ident, .. } => {
                if *ident == *path {
                    assert(param_matches(gens@[i as int], path@));
                    return Some(i);
                }
            },
            _ => {},
        }
        proof {
            assert(!param_matches(gens@[i as int], path@));
        }
        i = i + 1;
    }
    None
}

/// Finds the last `where` predicate whose bounded type is the path `path`.
pub fn find_where_bound(preds: &Vec<WherePredicateDef>, path: &String) -> (r: Option<usize>)
    ensures
        match r {
            Some(j) => last_type_bound(preds@, path@) == Some(j as int),
            None => last_type_bound(preds@, path@) is None,
        },
{
    let mut i: usize = preds.len();
    proof {
        assert(preds@.take(preds@.len() as int) =~= preds@);
    }
    while i > 0
        invariant
            i <= preds@.len(),
            last_type_bound(preds@, path@) == last_type_bound(preds@.take(i as int), path@),
        decreases i,
    {
        let j = i - 1;
        let matched: bool = match &preds[j] {
            WherePredicateDef::TypeBound { bounded, .. } => bounded.matches_ident(path),
            WherePredicateDef::Other { .. } => false,
        };
        proof {
            assert(preds@.take(i as int).last() == preds@[j as int]);
            assert(matched == pred_matches(preds@[j as int], path@));
        }
        if matched {
            return Some(j);
        }
        proof {
            assert(preds@.take(i as int).drop_last() =~= preds@.take(j as int));
        }
        i = j;
    }
    proof {
        assert(preds@.take(0).len() == 0);
    }
    None
}

/// Whether `s` is an identifier: a letter or underscore, then letters,
/// digits and underscores.
pub open spec fn is_ident_text(s: Seq<char>) -> bool {
    &&& s.len() > 0
    &&& is_ident_start(s[0])
    &&& forall|i: int| 0 < i < s.len() ==> is_ident_continue(s[i])
}

/// A letter or `_`.
pub open spec fn is_ident_start(c: char) -> bool {
    ('a' <= c && c <= 'z') || ('A' <= c && c <= 'Z') || c == '_'
}

/// A letter, a digit or `_`.
pub open spec fn is_ident_continue(c: char) -> bool {
    is_ident_start(c) || ('0' <= c && c <= '9')
}

/// Whether `s` is a run of decimal digits.
pub open spec fn is_dec_text(s: Seq<char>) -> bool {
    s.len() > 0 && forall|i: int| 0 <= i < s.len() ==> ('0' <= s[i] && s[i] <= '9')
}

/// The number a run of decimal digits denotes.
pub open spec fn dec_val(s: Seq<char>) -> int
    decreases s.len(),
{
    if s.len() == 0 {
        0
    } else {
        dec_val(s.drop_last()) * 10 + (s.last() as int - '0' as int)
    }
}

/// The `with` attribute's arguments, if that attribute is present and
/// carries a list.
pub open spec fn spec_with_args_of(attrs: Seq<AttrDef>) -> Option<Seq<String>> {
    match with_attr(attrs) {
        None => None,
        Some(i) => match attrs[i].args {
            None => None,
            Some(v) => Some(v@),
        },
    }
}

/// Whether a `with` attribute, if present, carries an argument list. An
/// attribute without one (`#[with]`, `#[with = ...]`) is rejected before
/// any code is generated.
pub open spec fn with_attr_is_list_of(attrs: Seq<AttrDef>) -> bool {
    match with_attr(attrs) {
        None => true,
        Some(i) => attrs[i].args is Some,
    }
}

/// Whether every entry of `a` is an identifier.
pub open spec fn all_idents(a: Seq<String>) -> bool {
    forall|i: int| 0 <= i < a.len() ==> is_ident_text(#[trigger] a[i]@)
}

/// Whether every argument is an identifier, as a named struct requires.
pub open spec fn args_are_idents(args: Option<Seq<String>>) -> bool {
    match args {
        None => true,
        Some(a) => all_idents(a),
    }
}

/// Whether every entry of `a` is a decimal index that fits the machine.
pub open spec fn all_indices(a: Seq<String>) -> bool {
    forall|i: int|
        0 <= i < a.len() ==> is_dec_text(#[trigger] a[i]@) && dec_val(a[i]@) <= usize::MAX
}

/// Whether every argument is a decimal index that fits the machine, as a
/// tuple struct requires.
pub open spec fn args_are_indices(args: Option<Seq<String>>) -> bool {
    match args {
        None => true,
        Some(a) => all_indices(a),
    }
}

impl DeriveInputDef {
    /// Well-formed: the type parameters carry distinct names, so that a
    /// field's type coincides with at most one of them.
    pub open spec fn wf(&self) -> bool {
        forall|i: int, j: int|
            0 <= i < j < self.generics@.len() ==> !(#[trigger] param_ident(self.generics@[i]) is Some
                && param_ident(self.generics@[i]) == #[trigger] param_ident(self.generics@[j]))
    }

    /// The `with` attribute's arguments, if that attribute is present.
    pub open spec fn spec_with_args(&self) -> Option<Seq<String>> {
        spec_with_args_of(self.attrs@)
    }

    /// The `with` attribute's arguments read as field indices.
    pub open spec fn index_args(&self) -> Option<Seq<usize>> {
        match self.spec_with_args() {
            None => None,
            Some(v) => Some(v.map_values(|s: String| dec_val(s@) as usize)),
        }
    }

    /// The inputs the generator accepts: a non-unit struct whose `with`
    /// attribute, if any, carries a list naming fields of the struct's
    /// own kind.
    pub open spec fn derivable(&self) -> bool {
        &&& with_attr_is_list_of(self.attrs@)
        &&& match self.data {
            DataDef::Struct(FieldsDef::Named(_)) => args_are_idents(self.spec_with_args()),
            DataDef::Struct(FieldsDef::Unnamed(_)) => args_are_indices(self.spec_with_args()),
            _ => false,
        }
    }
}

} // verus!
