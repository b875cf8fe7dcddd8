use derive_with::model::{
    AttrDef, DataDef, DeriveInputDef, FieldsDef, GenericParamDef, NamedField, TypeExpr,
    WherePredicateDef,
};

#[derive(Default)]
pub struct Foo {
    pub a: i32,
    pub b: String,
}

impl Foo {
    pub fn with_a(self, a: impl Into<i32>) -> Self {
        Self { a: a.into(), ..self }
    }
    pub fn with_b(self, b: impl Into<String>) -> Self {
        Self { b: b.into(), ..self }
    }
}

pub struct MyString(pub String);

impl From<MyString> for String {
    fn from(value: MyString) -> Self {
        value.0
    }
}

#[test]
fn named_struct_test_simple_struct() {
    let input = DeriveInputDef {
        ident: "Foo".to_string(),
        attrs: vec![],
        generics: vec![],
        where_predicates: vec![],
        data: DataDef::Struct(FieldsDef::Named(vec![
            NamedField { name: "a".to_string(), ty: TypeExpr::Path("i32".to_string()) },
            NamedField { name: "b".to_string(), ty: TypeExpr::Path("String".to_string()) },
        ])),
    };
    let code = derive_with::generate::derive(&input);
    assert_eq!(
        code,
        "#[automatically_derived] impl Foo { pub fn with_a(self, a: impl Into<i32>) -> Self { Self { a: a.into(), ..self } } pub fn with_b(self, b: impl Into<String>) -> Self { Self { b: b.into(), ..self } } }"
    );

    let foo = Foo::default().with_a(1).with_b(MyString("1".to_string()));
    assert_eq!(foo.a, 1);
    assert_eq!(foo.b, "1".to_string());
}

#[derive(Default)]
pub struct Foo1<'a> {
    pub a: i32,
    pub b: &'a str,
}

impl<'a> Foo1<'a> {
    pub fn with_a(self, a: impl Into<i32>) -> Self {
        Self { a: a.into(), ..self }
    }
    pub fn with_b(self, b: impl Into<&'a str>) -> Self {
        Self { b: b.into(), ..self }
    }
}

#[test]
fn named_struct_test_struct_with_lifetime() {
    let input = DeriveInputDef {
        ident: "Foo1".to_string(),
        attrs: vec![],
        generics: vec![GenericParamDef::LifetimeParam { name: "a".to_string() }],
        where_predicates: vec![],
        data: DataDef::Struct(FieldsDef::Named(vec![
            NamedField { name: "a".to_string(), ty: TypeExpr::Path("i32".to_string()) },
            NamedField { name: "b".to_string(), ty: TypeExpr::Other("&'a str".to_string()) },
        ])),
    };
    let code = derive_with::generate::derive(&input);
    assert_eq!(
        code,
        "#[automatically_derived] impl<'a> Foo1<'a> { pub fn with_a(self, a: impl Into<i32>) -> Self { Self { a: a.into(), ..self } } pub fn with_b(self, b: impl Into<&'a str>) -> Self { Self { b: b.into(), ..self } } }"
    );

    let foo = Foo1::default().with_a(1).with_b("1");
    assert_eq!(foo.a, 1);
    assert_eq!(foo.b, "1");
}

#[derive(Default)]
pub struct Foo2<T: Default> {
    pub a: i32,
    pub b: T,
}

impl<T: Default> Foo2<T> {
    pub fn with_a(self, a: impl Into<i32>) -> Self {
        Self { a: a.into(), ..self }
    }
    pub fn with_b<WT: Default>(self, b: WT) -> Foo2<WT> {
        Foo2 { a: self.a, b }
    }
}

#[test]
fn named_struct_test_struct_with_generic() {
    let input = DeriveInputDef {
        ident: "Foo2".to_string(),
        attrs: vec![],
        generics: vec![GenericParamDef::TypeParam {
            ident: "T".to_string(),
            bounds: Some("Default".to_string()),
        }],
        where_predicates: vec![],
        data: DataDef::Struct(FieldsDef::Named(vec![
            NamedField { name: "a".to_string(), ty: TypeExpr::Path("i32".to_string()) },
            NamedField { name: "b".to_string(), ty: TypeExpr::Path("T".to_string()) },
        ])),
    };
    let code = derive_with::generate::derive(&input);
    assert_eq!(
        code,
        "#[automatically_derived] impl<T: Default> Foo2<T> { pub fn with_a(self, a: impl Into<i32>) -> Self { Self { a: a.into(), ..self } } pub fn with_b<WT: Default>(self, b: WT) -> Foo2<WT> { Foo2 { a: self.a, b } } }"
    );

    let foo = Foo2::<String>::default().with_a(1).with_b("1".to_string());
    assert_eq!(foo.a, 1);
    assert_eq!(foo.b, "1".to_string());
}

#[derive(Default)]
pub struct Foo3<'a, T: Default> {
    pub a: T,
    pub b: &'a str,
}

impl<'a, T: Default> Foo3<'a, T> {
    pub fn with_a<WT: Default>(self, a: WT) -> Foo3<'a, WT> {
        Foo3 { a, b: self.b }
    }
    pub fn with_b(self, b: impl Into<&'a str>) -> Self {
        Self { b: b.into(), ..self }
    }
}

#[test]
fn named_struct_test_struct_with_lifetime_and_generic() {
    let input = DeriveInputDef {
        ident: "Foo3".to_string(),
        attrs: vec![],
        generics: vec![
            GenericParamDef::LifetimeParam { name: "a".to_string() },
            GenericParamDef::TypeParam {
                ident: "T".to_string(),
                bounds: Some("Default".to_string()),
            },
        ],
        where_predicates: vec![],
        data: DataDef::Struct(FieldsDef::Named(vec![
            NamedField { name: "a".to_string(), ty: TypeExpr::Path("T".to_string()) },
            NamedField { name: "b".to_string(), ty: TypeExpr::Other("&'a str".to_string()) },
        ])),
    };
    let code = derive_with::generate::derive(&input);
    assert_eq!(
        code,
        "#[automatically_derived] impl<'a, T: Default> Foo3<'a, T> { pub fn with_a<WT: Default>(self, a: WT) -> Foo3<'a, WT> { Foo3 { a, b: self.b } } pub fn with_b(self, b: impl Into<&'a str>) -> Self { Self { b: b.into(), ..self } } }"
    );

    let foo = Foo3::<i32>::default().with_a(1).with_b("1");
    assert_eq!(foo.a, 1);
    assert_eq!(foo.b, "1");
}

#[derive(Default)]
pub struct Foo4 {
    pub a: i32,
    pub b: String,
}

impl Foo4 {
    pub fn with_a(self, a: impl Into<i32>) -> Self {
        Self { a: a.into(), ..self }
    }
}

#[test]
fn named_struct_test_simple_struct_with_args() {
    let input = DeriveInputDef {
        ident: "Foo4".to_string(),
        attrs: vec![AttrDef { name: "with".to_string(), args: Some(vec!["a".to_string()]) }],
        generics: vec![],
        where_predicates: vec![],
        data: DataDef::Struct(FieldsDef::Named(vec![
            NamedField { name: "a".to_string(), ty: TypeExpr::Path("i32".to_string()) },
            NamedField { name: "b".to_string(), ty: TypeExpr::Path("String".to_string()) },
        ])),
    };
    let code = derive_with::generate::derive(&input);
    assert_eq!(
        code,
        "#[automatically_derived] impl Foo4 { pub fn with_a(self, a: impl Into<i32>) -> Self { Self { a: a.into(), ..self } } }"
    );

    let foo = Foo4::default().with_a(1);
    assert_eq!(foo.a, 1);
    assert_eq!(foo.b, "");
}

#[derive(Default)]
pub struct Foo5<T: Default, Z: Default>
where
    Z: std::fmt::Debug,
{
    pub a: T,
    pub b: Z,
}

impl<T: Default, Z: Default> Foo5<T, Z>
where
    Z: std::fmt::Debug,
{
    pub fn with_a<WT: Default>(self, a: WT) -> Foo5<WT, Z> {
        Foo5 { a, b: self.b }
    }
    pub fn with_b<WZ: Default>(self, b: WZ) -> Foo5<T, WZ>
    where
        WZ: std::fmt::Debug,
    {
        Foo5 { a: self.a, b }
    }
}

#[test]
fn test_struct_switch_generic() {
    let input = DeriveInputDef {
        ident: "Foo5".to_string(),
        attrs: vec![],
        generics: vec![
            GenericParamDef::TypeParam {
                ident: "T".to_string(),
                bounds: Some("Default".to_string()),
            },
            GenericParamDef::TypeParam {
                ident: "Z".to_string(),
                bounds: Some("Default".to_string()),
            },
        ],
        where_predicates: vec![WherePredicateDef::TypeBound {
            bounded: TypeExpr::Path("Z".to_string()),
            bounds: "std::fmt::Debug".to_string(),
        }],
        data: DataDef::Struct(FieldsDef::Named(vec![
            NamedField { name: "a".to_string(), ty: TypeExpr::Path("T".to_string()) },
            NamedField { name: "b".to_string(), ty: TypeExpr::Path("Z".to_string()) },
        ])),
    };
    let code = derive_with::generate::derive(&input);
    assert_eq!(
        code,
        "#[automatically_derived] impl<T: Default, Z: Default> Foo5<T, Z> where Z: std::fmt::Debug { pub fn with_a<WT: Default>(self, a: WT) -> Foo5<WT, Z> { Foo5 { a, b: self.b } } pub fn with_b<WZ: Default>(self, b: WZ) -> Foo5<T, WZ> where WZ: std::fmt::Debug { Foo5 { a: self.a, b } } }"
    );

    let foo = Foo5::<String, String>::default().with_a(1);
    assert_eq!(foo.a, 1);
    assert_eq!(foo.b, "");

    let foo = foo.with_b(2);
    assert_eq!(foo.b, 2);
}

#[derive(Default)]
pub struct SingleField {
    pub single: String,
}

impl SingleField {
    pub fn with_single(self, single: impl Into<String>) -> Self {
        Self { single: single.into() }
    }
}

#[test]
fn test_single_field_struct() {
    let input = DeriveInputDef {
        ident: "SingleField".to_string(),
        attrs: vec![],
        generics: vec![],
        where_predicates: vec![],
        data: DataDef::Struct(FieldsDef::Named(vec![NamedField {
            name: "single".to_string(),
            ty: TypeExpr::Path("String".to_string()),
        }])),
    };
    let code = derive_with::generate::derive(&input);
    assert_eq!(
        code,
        "#[automatically_derived] impl SingleField { pub fn with_single(self, single: impl Into<String>) -> Self { Self { single: single.into() } } }"
    );

    let foo = SingleField::default().with_single("a".to_string());
    assert_eq!(&foo.single, "a");
}

#[derive(Default)]
pub struct Foo6 {
    pub a: usize,
}

impl Foo6 {
    pub fn with_a(self, a: impl Into<usize>) -> Self {
        Self { a: a.into() }
    }
}

#[test]
fn test_struct_with_primitive_types() {
    let input = DeriveInputDef {
        ident: "Foo6".to_string(),
        attrs: vec![],
        generics: vec![],
        where_predicates: vec![],
        data: DataDef::Struct(FieldsDef::Named(vec![NamedField {
            name: "a".to_string(),
            ty: TypeExpr::Path("usize".to_string()),
        }])),
    };
    let code = derive_with::generate::derive(&input);
    assert_eq!(
        code,
        "#[automatically_derived] impl Foo6 { pub fn with_a(self, a: impl Into<usize>) -> Self { Self { a: a.into() } } }"
    );

    let foo = Foo6::default().with_a(1usize);
    assert_eq!(foo.a, 1);
}
