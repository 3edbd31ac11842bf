//! End-to-end runs of the getter and dissolve generators on whole
//! declarations, checking the emitted `impl` blocks and the diagnostics.

use std::str::FromStr;

use derive_getters::ast::{
    Attr, Generics, InputField, StructData, StructFields, Token, Ty, TypeBody, TypeDecl,
};
use derive_getters::consume::{field_types_tuple, fields_tuple};
use derive_getters::faultmsg::{Problem, StructIs};
use derive_getters::{dissolve, dissolve_mut, dissolve_ref, getters};

fn lex(src: &str) -> Vec<Token> {
    let ts = proc_macro2::TokenStream::from_str(src).expect("argument text must lex");
    ts.into_iter()
        .map(|tt| match tt {
            proc_macro2::TokenTree::Ident(i) => Token::Ident(i.to_string()),
            proc_macro2::TokenTree::Punct(p) => Token::Punct(p.as_char()),
            proc_macro2::TokenTree::Literal(l) => {
                let stream = proc_macro2::TokenStream::from(proc_macro2::TokenTree::Literal(l));
                match syn::parse2::<syn::LitStr>(stream) {
                    Ok(ls) => Token::LitStr(ls.value()),
                    Err(_) => Token::Opaque,
                }
            }
            proc_macro2::TokenTree::Group(_) => Token::Opaque,
        })
        .collect()
}

fn outer(path: &str, args: &str) -> Attr {
    Attr {
        outer: true,
        path: path.to_string(),
        args: lex(args),
    }
}

fn plain(name: &str, ty: &str) -> InputField {
    InputField {
        name: Some(name.to_string()),
        ty: Ty::Plain {
            text: ty.to_string(),
        },
        attrs: Vec::new(),
    }
}

fn no_generics() -> Generics {
    Generics {
        impl_generics: String::new(),
        type_generics: String::new(),
        where_clause: String::new(),
    }
}

fn decl(name: &str, fields: Vec<InputField>) -> TypeDecl {
    TypeDecl {
        ident: name.to_string(),
        attrs: Vec::new(),
        generics: no_generics(),
        body: TypeBody::Struct(StructData {
            fields: StructFields::Named(fields),
        }),
    }
}

#[test]
fn number_getter_scenario() {
    let d = decl("Number", vec![plain("num", "u64")]);
    assert_eq!(
        getters(&d).unwrap(),
        "impl Number { pub fn num(&self) -> &u64 { &self.num } }"
    );
}

#[test]
fn number_dissolve_collapses_single_field() {
    let d = decl("Number", vec![plain("num", "u64")]);
    assert_eq!(
        dissolve(&d).unwrap(),
        "impl Number { pub fn dissolve(self) -> u64 { self.num } }"
    );
    assert_eq!(
        dissolve_ref(&d).unwrap(),
        "impl Number { pub fn dissolve_ref(&self) -> &u64 { &self.num } }"
    );
    assert_eq!(
        dissolve_mut(&d).unwrap(),
        "impl Number { pub fn dissolve_mut(&mut self) -> &mut u64 { &mut self.num } }"
    );
}

#[test]
fn dissolve_projects_every_field_in_order() {
    let d = decl(
        "ManyStuff",
        vec![plain("name", "String"), plain("count", "usize")],
    );
    assert_eq!(
        dissolve(&d).unwrap(),
        "impl ManyStuff { pub fn dissolve(self) -> (String, usize) { (self.name, self.count) } }"
    );
    assert_eq!(
        dissolve_ref(&d).unwrap(),
        "impl ManyStuff { pub fn dissolve_ref(&self) -> (&String, &usize) { (&self.name, &self.count) } }"
    );
    assert_eq!(
        dissolve_mut(&d).unwrap(),
        "impl ManyStuff { pub fn dissolve_mut(&mut self) -> (&mut String, &mut usize) { (&mut self.name, &mut self.count) } }"
    );
}

#[test]
fn record_level_rename_scenario() {
    let mut d = decl(
        "LotsOfStuff",
        vec![plain("name", "String"), plain("count", "usize")],
    );
    d.attrs = vec![outer("dissolve", "rename = \"shatter\"")];
    let out = dissolve(&d).unwrap();
    assert_eq!(
        out,
        "impl LotsOfStuff { pub fn shatter(self) -> (String, usize) { (self.name, self.count) } }"
    );
    assert!(!out.contains("fn dissolve"));
    // The other flavors read their own namespaces and keep their defaults.
    assert!(dissolve_mut(&d).unwrap().contains("pub fn dissolve_mut"));
    assert!(dissolve_ref(&d).unwrap().contains("pub fn dissolve_ref"));
    // Each flavor picks up its own rename, with identical tuple behavior.
    d.attrs = vec![
        outer("dissolve", "rename = \"shatter\""),
        outer("dissolve_mut", "rename = \"shatter_mut\""),
        outer("dissolve_ref", "rename = \"shatter_ref\""),
    ];
    assert_eq!(
        dissolve_mut(&d).unwrap(),
        "impl LotsOfStuff { pub fn shatter_mut(&mut self) -> (&mut String, &mut usize) \
         { (&mut self.name, &mut self.count) } }"
    );
    assert_eq!(
        dissolve_ref(&d).unwrap(),
        "impl LotsOfStuff { pub fn shatter_ref(&self) -> (&String, &usize) \
         { (&self.name, &self.count) } }"
    );
}

#[test]
fn field_level_rename_wins_over_record_level() {
    let mut d = decl("Late", vec![plain("a", "u8"), plain("b", "u8")]);
    d.attrs = vec![outer("dissolve", "rename = \"early\"")];
    d.body = TypeBody::Struct(StructData {
        fields: StructFields::Named(vec![plain("a", "u8"), {
            let mut f = plain("b", "u8");
            f.attrs = vec![outer("dissolve", "rename = \"late\"")];
            f
        }]),
    });
    assert_eq!(
        dissolve(&d).unwrap(),
        "impl Late { pub fn late(self) -> (u8, u8) { (self.a, self.b) } }"
    );
}

#[test]
fn dissolve_skip_is_a_checked_no_op() {
    let mut d = decl("Keeps", vec![plain("a", "u8"), plain("b", "u8")]);
    d.attrs = vec![outer("dissolve", "skip")];
    assert_eq!(
        dissolve(&d).unwrap(),
        "impl Keeps { pub fn dissolve(self) -> (u8, u8) { (self.a, self.b) } }"
    );
    d.attrs = vec![outer("dissolve", "skip 1")];
    assert_eq!(dissolve(&d), Err(Problem::TokensFollowSkip));
}

#[test]
fn getter_skip_excludes_only_that_field() {
    let mut skip_me = plain("skip_me", "u64");
    skip_me.attrs = vec![outer("getter", "skip")];
    let mut rename_me = plain("rename_me", "u64");
    rename_me.attrs = vec![outer("getter", "rename = \"number\"")];
    let d = decl("Attributed", vec![plain("keep_me", "u64"), skip_me, rename_me]);
    let out = getters(&d).unwrap();
    assert_eq!(
        out,
        "impl Attributed { pub fn keep_me(&self) -> &u64 { &self.keep_me } \
         pub fn number(&self) -> &u64 { &self.rename_me } }"
    );
    assert!(!out.contains("skip_me"));
    assert!(!out.contains("fn rename_me"));
}

#[test]
fn reference_fields_are_not_borrowed_again() {
    let annotated = TypeDecl {
        ident: "Annotated".to_string(),
        attrs: Vec::new(),
        generics: Generics {
            impl_generics: "<'a, 'b, T>".to_string(),
            type_generics: "<'a, 'b, T>".to_string(),
            where_clause: String::new(),
        },
        body: TypeBody::Struct(StructData {
            fields: StructFields::Named(vec![
                InputField {
                    name: Some("stuff".to_string()),
                    ty: Ty::Reference {
                        lifetime: Some("a".to_string()),
                        inner: "T".to_string(),
                    },
                    attrs: Vec::new(),
                },
                InputField {
                    name: Some("comp".to_string()),
                    ty: Ty::Reference {
                        lifetime: None,
                        inner: "str".to_string(),
                    },
                    attrs: Vec::new(),
                },
                plain("num", "u64"),
            ]),
        }),
    };
    assert_eq!(
        getters(&annotated).unwrap(),
        "impl<'a, 'b, T> Annotated<'a, 'b, T> { \
         pub fn stuff(&'a self) -> &'a T { self.stuff } \
         pub fn comp(&self) -> &str { self.comp } \
         pub fn num(&self) -> &u64 { &self.num } }"
    );
}

#[test]
fn dissolve_ref_borrows_a_reference_field_again() {
    // The non-duplication policy belongs to the getters; the dissolve
    // flavors wrap every declared type uniformly.
    let d = TypeDecl {
        ident: "Holder".to_string(),
        attrs: Vec::new(),
        generics: Generics {
            impl_generics: "<'a>".to_string(),
            type_generics: "<'a>".to_string(),
            where_clause: String::new(),
        },
        body: TypeBody::Struct(StructData {
            fields: StructFields::Named(vec![InputField {
                name: Some("comp".to_string()),
                ty: Ty::Reference {
                    lifetime: Some("a".to_string()),
                    inner: "str".to_string(),
                },
                attrs: Vec::new(),
            }]),
        }),
    };
    assert_eq!(
        dissolve_ref(&d).unwrap(),
        "impl<'a> Holder<'a> { pub fn dissolve_ref(&self) -> &&'a str { &self.comp } }"
    );
}

#[test]
fn generics_and_where_clause_are_threaded_verbatim() {
    let d = TypeDecl {
        ident: "Generic".to_string(),
        attrs: Vec::new(),
        generics: Generics {
            impl_generics: "<T, U>".to_string(),
            type_generics: "<T, U>".to_string(),
            where_clause: "where T: Clone, U: Copy".to_string(),
        },
        body: TypeBody::Struct(StructData {
            fields: StructFields::Named(vec![plain("gen_t", "T"), plain("gen_u", "U")]),
        }),
    };
    assert_eq!(
        getters(&d).unwrap(),
        "impl<T, U> Generic<T, U> where T: Clone, U: Copy { \
         pub fn gen_t(&self) -> &T { &self.gen_t } \
         pub fn gen_u(&self) -> &U { &self.gen_u } }"
    );
    assert_eq!(
        dissolve(&d).unwrap(),
        "impl<T, U> Generic<T, U> where T: Clone, U: Copy { \
         pub fn dissolve(self) -> (T, U) { (self.gen_t, self.gen_u) } }"
    );
}

#[test]
fn rejection_set() {
    let mut d = decl("NotAStruct", Vec::new());
    d.body = TypeBody::Enum;
    assert_eq!(getters(&d), Err(Problem::NotNamedStruct(StructIs::Enum)));
    assert_eq!(dissolve(&d), Err(Problem::NotNamedStruct(StructIs::Enum)));
    d.body = TypeBody::Union;
    assert_eq!(getters(&d), Err(Problem::NotNamedStruct(StructIs::Union)));
    d.body = TypeBody::Struct(StructData {
        fields: StructFields::Unnamed,
    });
    assert_eq!(getters(&d), Err(Problem::UnnamedField));
    d.body = TypeBody::Struct(StructData {
        fields: StructFields::Unit,
    });
    assert_eq!(dissolve(&d), Err(Problem::UnnamedField));
    let mut f = plain("x", "u64");
    f.attrs = vec![outer("getter", "skip, rename=\"x\"")];
    let d = decl("Combined", vec![f]);
    assert_eq!(getters(&d), Err(Problem::InvalidAttribute));
    let mut d = decl("SkipTrails", vec![plain("x", "u64")]);
    d.attrs = vec![outer("dissolve", "skip 1")];
    assert_eq!(dissolve(&d), Err(Problem::TokensFollowSkip));
}

#[test]
fn nameless_field_is_rejected_defensively() {
    let d = decl(
        "Broken",
        vec![InputField {
            name: None,
            ty: Ty::Plain {
                text: "u64".to_string(),
            },
            attrs: Vec::new(),
        }],
    );
    assert_eq!(getters(&d), Err(Problem::UnnamedField));
    assert_eq!(dissolve(&d), Err(Problem::UnnamedField));
}

#[test]
fn first_failure_aborts_generation() {
    let mut bad = plain("bad", "u64");
    bad.attrs = vec![outer("getter", "bongle")];
    let d = decl("FailsFast", vec![bad, InputField {
        name: None,
        ty: Ty::Plain {
            text: "u64".to_string(),
        },
        attrs: Vec::new(),
    }]);
    assert_eq!(getters(&d), Err(Problem::InvalidAttribute));
}

#[test]
fn empty_record_dissolves_to_unit() {
    let d = decl("Empty", Vec::new());
    assert_eq!(
        dissolve(&d).unwrap(),
        "impl Empty { pub fn dissolve(self) -> () { () } }"
    );
    assert_eq!(getters(&d).unwrap(), "impl Empty {  }");
}

#[test]
fn diagnostic_messages() {
    assert_eq!(
        Problem::NotNamedStruct(StructIs::Enum).message(),
        "type must be a named struct, not an enum"
    );
    assert_eq!(
        Problem::NotNamedStruct(StructIs::Union).message(),
        "type must be a named struct, not a union"
    );
    assert_eq!(Problem::UnnamedField.message(), "struct fields must be named");
    assert_eq!(
        Problem::TokensFollowSkip.message(),
        "tokens are not meant to follow skip attribute"
    );
    assert_eq!(
        Problem::TokensFollowNewName.message(),
        "no further tokens must follow new name"
    );
    assert_eq!(Problem::InvalidAttribute.message(), "invalid attribute");
}

#[test]
fn field_tuples() {
    let fields = vec![plain("a", "u64"), plain("b", "String")];
    assert_eq!(
        fields_tuple(&fields).unwrap(),
        vec!["a".to_string(), "b".to_string()]
    );
    assert_eq!(
        field_types_tuple(&fields),
        vec!["u64".to_string(), "String".to_string()]
    );
    let broken = vec![InputField {
        name: None,
        ty: Ty::Plain {
            text: "u64".to_string(),
        },
        attrs: Vec::new(),
    }];
    assert_eq!(fields_tuple(&broken), Err(Problem::UnnamedField));
}
