use derive_with::generate::{contains_field, contains_index};
use derive_with::model::{
    AttrDef, DataDef, DeriveInputDef, FieldsDef, GenericParamDef, NamedField, TypeExpr,
    WherePredicateDef,
};
use derive_with::text::{append_dec, parse_dec};

#[test]
fn test_empty_selection_keeps_no_constructor() {
    let input = DeriveInputDef {
        ident: "Empty".to_string(),
        attrs: vec![AttrDef { name: "with".to_string(), args: Some(vec![]) }],
        generics: vec![],
        where_predicates: vec![],
        data: DataDef::Struct(FieldsDef::Named(vec![
            NamedField { name: "a".to_string(), ty: TypeExpr::Path("i32".to_string()) },
            NamedField { name: "b".to_string(), ty: TypeExpr::Path("String".to_string()) },
        ])),
    };
    let code = derive_with::generate::derive(&input);
    assert_eq!(code, "#[automatically_derived] impl Empty { }");
}

#[test]
fn test_two_digit_index() {
    let mut tys: Vec<TypeExpr> = Vec::new();
    let mut i = 0;
    while i < 11 {
        tys.push(TypeExpr::Path("i32".to_string()));
        i += 1;
    }
    let input = DeriveInputDef {
        ident: "Wide".to_string(),
        attrs: vec![AttrDef { name: "with".to_string(), args: Some(vec!["10".to_string()]) }],
        generics: vec![],
        where_predicates: vec![],
        data: DataDef::Struct(FieldsDef::Unnamed(tys)),
    };
    let code = derive_with::generate::derive(&input);
    assert_eq!(
        code,
        "#[automatically_derived] impl Wide { pub fn with_10(mut self, field_10: impl Into<i32>) -> Self { self.10 = field_10.into(); self } }"
    );
}

#[test]
fn test_leading_zero_index_and_foreign_attribute() {
    let input = DeriveInputDef {
        ident: "Zed".to_string(),
        attrs: vec![
            AttrDef { name: "doc".to_string(), args: None },
            AttrDef { name: "with".to_string(), args: Some(vec!["01".to_string()]) },
        ],
        generics: vec![],
        where_predicates: vec![],
        data: DataDef::Struct(FieldsDef::Unnamed(vec![
            TypeExpr::Path("i32".to_string()),
            TypeExpr::Path("u8".to_string()),
        ])),
    };
    let code = derive_with::generate::derive(&input);
    assert_eq!(
        code,
        "#[automatically_derived] impl Zed { pub fn with_1(mut self, field_1: impl Into<u8>) -> Self { self.1 = field_1.into(); self } }"
    );
}

#[test]
fn test_last_predicate_on_a_type_governs() {
    let input = DeriveInputDef {
        ident: "Dup".to_string(),
        attrs: vec![],
        generics: vec![GenericParamDef::TypeParam {
            ident: "T".to_string(),
            bounds: Some("Default".to_string()),
        }],
        where_predicates: vec![
            WherePredicateDef::TypeBound {
                bounded: TypeExpr::Path("T".to_string()),
                bounds: "Clone".to_string(),
            },
            WherePredicateDef::TypeBound {
                bounded: TypeExpr::Path("T".to_string()),
                bounds: "std::fmt::Debug".to_string(),
            },
        ],
        data: DataDef::Struct(FieldsDef::Named(vec![NamedField {
            name: "a".to_string(),
            ty: TypeExpr::Path("T".to_string()),
        }])),
    };
    let code = derive_with::generate::derive(&input);
    assert_eq!(
        code,
        "#[automatically_derived] impl<T: Default> Dup<T> where T: Clone, T: std::fmt::Debug { pub fn with_a<WT: Default>(self, a: WT) -> Dup<WT> where WT: std::fmt::Debug { Dup { a } } }"
    );
}

#[derive(Default)]
pub struct Gen<T> {
    pub a: Vec<String>,
    pub b: T,
}

impl<T> Gen<T> {
    pub fn with_a(self, a: impl Into<Vec<String>>) -> Self {
        Self { a: a.into(), ..self }
    }
    pub fn with_b<WT>(self, b: WT) -> Gen<WT> {
        Gen { a: self.a, b }
    }
}

#[test]
fn test_unbounded_parameter_and_compound_path() {
    let input = DeriveInputDef {
        ident: "Gen".to_string(),
        attrs: vec![],
        generics: vec![GenericParamDef::TypeParam { ident: "T".to_string(), bounds: None }],
        where_predicates: vec![],
        data: DataDef::Struct(FieldsDef::Named(vec![
            NamedField { name: "a".to_string(), ty: TypeExpr::Path("Vec<String>".to_string()) },
            NamedField { name: "b".to_string(), ty: TypeExpr::Path("T".to_string()) },
        ])),
    };
    let code = derive_with::generate::derive(&input);
    assert_eq!(
        code,
        "#[automatically_derived] impl<T> Gen<T> { pub fn with_a(self, a: impl Into<Vec<String>>) -> Self { Self { a: a.into(), ..self } } pub fn with_b<WT>(self, b: WT) -> Gen<WT> { Gen { a: self.a, b } } }"
    );

    let g = Gen::<u8>::default().with_b(7i64);
    assert_eq!(g.a.len(), 0);
    assert_eq!(g.b, 7i64);
}

#[derive(Default)]
pub struct Sized3<const N: usize> {
    pub a: i32,
}

impl<const N: usize> Sized3<N> {
    pub fn with_a(self, a: impl Into<i32>) -> Self {
        Self { a: a.into() }
    }
}

#[test]
fn test_const_parameter() {
    let input = DeriveInputDef {
        ident: "Sized3".to_string(),
        attrs: vec![],
        generics: vec![GenericParamDef::ConstParam {
            ident: "N".to_string(),
            ty: "usize".to_string(),
        }],
        where_predicates: vec![],
        data: DataDef::Struct(FieldsDef::Named(vec![NamedField {
            name: "a".to_string(),
            ty: TypeExpr::Path("i32".to_string()),
        }])),
    };
    let code = derive_with::generate::derive(&input);
    assert_eq!(
        code,
        "#[automatically_derived] impl<const N: usize> Sized3<N> { pub fn with_a(self, a: impl Into<i32>) -> Self { Self { a: a.into() } } }"
    );

    let s = Sized3::<4>::default().with_a(7);
    assert_eq!(s.a, 7);
}

#[test]
fn test_selection_lookups() {
    assert!(contains_field(&None, &"a".to_string()));
    let args = Some(vec!["a".to_string(), "b".to_string()]);
    assert!(contains_field(&args, &"b".to_string()));
    assert!(!contains_field(&args, &"c".to_string()));

    assert!(contains_index(&None, 3));
    let idx = Some(vec![0usize, 2usize]);
    assert!(contains_index(&idx, 2));
    assert!(!contains_index(&idx, 1));
}

#[test]
fn test_decimal_round_trip() {
    let mut s = String::new();
    append_dec(&mut s, 0);
    assert_eq!(s, "0");

    let mut s = String::new();
    append_dec(&mut s, 907);
    assert_eq!(s, "907");
    assert_eq!(parse_dec(&s), 907);

    assert_eq!(parse_dec(&"10".to_string()), 10);
    assert_eq!(parse_dec(&"007".to_string()), 7);
}
