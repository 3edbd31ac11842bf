//! The model of a type declaration that the generators consume.
//!
//! A declaration arrives from the host as plain values: its name, the three
//! rendered generic-parameter fragments, its attached annotations, and a body
//! that is either a list of fields or some other, unsupported shape.  Every
//! type here carries a view made of `Seq<char>` so that contracts can speak
//! about the declaration mathematically.

use vstd::prelude::*;
use vstd::string::*;

verus! {

// ---------------------------------------------------------------------------
// Declared types of fields
// ---------------------------------------------------------------------------

/// The declared type of a field, classified by the one distinction the
/// getter generator acts on: a reference type (with or without an explicit
/// lifetime) versus anything else.  `inner` and `text` hold the rendered
/// type text; a lifetime is stored without its leading apostrophe.
pub enum Ty {
    Reference { lifetime: Option<String>, inner: String },
    Plain { text: String },
}

/// Mathematical view of [`Ty`].
pub enum TyV {
    Reference { lifetime: Option<Seq<char>>, inner: Seq<char> },
    Plain { text: Seq<char> },
}

impl View for Ty {
    type V = TyV;

    open spec fn view(&self) -> TyV {
        match self {
            Ty::Reference { lifetime, inner } => TyV::Reference {
                lifetime: match lifetime {
                    Some(lt) => Some(lt@),
                    None => None,
                },
                inner: inner@,
            },
            Ty::Plain { text } => TyV::Plain { text: text@ },
        }
    }
}

/// The text of a declared type exactly as the generators print it:
/// `&'a T` or `&T` for a reference, the stored text otherwise.
pub open spec fn ty_text_spec(t: TyV) -> Seq<char> {
    match t {
        TyV::Reference { lifetime, inner } => match lifetime {
            Some(lt) => "&'"@ + lt + " "@ + inner,
            None => "&"@ + inner,
        },
        TyV::Plain { text } => text,
    }
}

impl Ty {
    /// Renders the declared type.
    pub fn text(&self) -> (r: String)
        ensures
            r@ == ty_text_spec(self@),
    {
        match self {
            Ty::Reference { lifetime, inner } => {
                let mut s = "&".to_owned();
                match lifetime {
                    Some(lt) => {
                        s.append("'");
                        s.append(lt.as_str());
                        s.append(" ");
                    },
                    None => {},
                }
                s.append(inner.as_str());
                proof {
                    assert("&"@ + "'"@ =~= "&'"@) by {
                        reveal_strlit("&");
                        reveal_strlit("'");
                        reveal_strlit("&'");
                    }
                    assert(s@ =~= ty_text_spec(self@));
                }
                s
            },
            Ty::Plain { text } => text.clone(),
        }
    }

    /// Structure-preserving copy.
    pub fn dup(&self) -> (r: Ty)
        ensures
            r@ == self@,
    {
        match self {
            Ty::Reference { lifetime, inner } => Ty::Reference {
                lifetime: match lifetime {
                    Some(lt) => Some(lt.clone()),
                    None => None,
                },
                inner: inner.clone(),
            },
            Ty::Plain { text } => Ty::Plain { text: text.clone() },
        }
    }
}

// ---------------------------------------------------------------------------
// Annotation tokens and annotations
// ---------------------------------------------------------------------------

/// One token inside an annotation's argument list.  A string literal carries
/// its decoded value; tokens the directive grammar never accepts (groups,
/// non-string literals) are kept only as `Opaque`.
pub enum Token {
    Ident(String),
    Punct(char),
    LitStr(String),
    Opaque,
}

/// Mathematical view of [`Token`].
pub enum TokenV {
    Ident(Seq<char>),
    Punct(char),
    LitStr(Seq<char>),
    Opaque,
}

impl View for Token {
    type V = TokenV;

    open spec fn view(&self) -> TokenV {
        match self {
            Token::Ident(s) => TokenV::Ident(s@),
            Token::Punct(c) => TokenV::Punct(*c),
            Token::LitStr(s) => TokenV::LitStr(s@),
            Token::Opaque => TokenV::Opaque,
        }
    }
}

/// The view of a whole token list.
pub open spec fn tokens_view(ts: Seq<Token>) -> Seq<TokenV> {
    ts.map_values(|t: Token| t@)
}

/// One annotation attached to a field or to the record itself: its position
/// (outer or inner), its path (the namespace word), and its argument tokens.
pub struct Attr {
    pub outer: bool,
    pub path: String,
    pub args: Vec<Token>,
}

/// Mathematical view of [`Attr`].
pub struct AttrV {
    pub outer: bool,
    pub path: Seq<char>,
    pub args: Seq<TokenV>,
}

impl View for Attr {
    type V = AttrV;

    open spec fn view(&self) -> AttrV {
        AttrV { outer: self.outer, path: self.path@, args: tokens_view(self.args@) }
    }
}

/// The view of a whole annotation list.
pub open spec fn attrs_view(s: Seq<Attr>) -> Seq<AttrV> {
    s.map_values(|a: Attr| a@)
}

// ---------------------------------------------------------------------------
// Fields, generics, and the declaration
// ---------------------------------------------------------------------------

/// One field of a record body.  The name is optional because the broader
/// record grammar admits unnamed fields; the generators reject those.
pub struct InputField {
    pub name: Option<String>,
    pub ty: Ty,
    pub attrs: Vec<Attr>,
}

/// Mathematical view of [`InputField`].
pub struct InputFieldV {
    pub name: Option<Seq<char>>,
    pub ty: TyV,
    pub attrs: Seq<AttrV>,
}

impl View for InputField {
    type V = InputFieldV;

    open spec fn view(&self) -> InputFieldV {
        InputFieldV {
            name: match self.name {
                Some(ref n) => Some(n@),
                None => None,
            },
            ty: self.ty@,
            attrs: attrs_view(self.attrs@),
        }
    }
}

/// The view of a whole field list.
pub open spec fn fields_view(s: Seq<InputField>) -> Seq<InputFieldV> {
    s.map_values(|f: InputField| f@)
}

/// The declaration's generic apparatus, in the three rendered fragments the
/// emitted `impl` block reuses verbatim: the parameter list with its bounds
/// (for the `impl` keyword), the bare argument list (for the type name), and
/// the `where` clause.  Each fragment is empty when the declaration has none.
pub struct Generics {
    pub impl_generics: String,
    pub type_generics: String,
    pub where_clause: String,
}

/// Mathematical view of [`Generics`].
pub struct GenericsV {
    pub impl_generics: Seq<char>,
    pub type_generics: Seq<char>,
    pub where_clause: Seq<char>,
}

impl View for Generics {
    type V = GenericsV;

    open spec fn view(&self) -> GenericsV {
        GenericsV {
            impl_generics: self.impl_generics@,
            type_generics: self.type_generics@,
            where_clause: self.where_clause@,
        }
    }
}

/// The body of a record declaration: named fields, positional fields, or no
/// fields at all.
pub enum StructFields {
    Named(Vec<InputField>),
    Unnamed,
    Unit,
}

/// Mathematical view of [`StructFields`].
pub enum StructFieldsV {
    Named(Seq<InputFieldV>),
    Unnamed,
    Unit,
}

/// A record body.
pub struct StructData {
    pub fields: StructFields,
}

/// Mathematical view of [`StructData`].
pub struct StructDataV {
    pub fields: StructFieldsV,
}

impl View for StructData {
    type V = StructDataV;

    open spec fn view(&self) -> StructDataV {
        StructDataV {
            fields: match self.fields {
                StructFields::Named(ref fs) => StructFieldsV::Named(fields_view(fs@)),
                StructFields::Unnamed => StructFieldsV::Unnamed,
                StructFields::Unit => StructFieldsV::Unit,
            },
        }
    }
}

/// The classification of a declaration's body.
pub enum TypeBody {
    Struct(StructData),
    Enum,
    Union,
}

/// Mathematical view of [`TypeBody`].
pub enum TypeBodyV {
    Struct(StructDataV),
    Enum,
    Union,
}

/// The input to every generator: one type declaration.
pub struct TypeDecl {
    pub ident: String,
    pub attrs: Vec<Attr>,
    pub generics: Generics,
    pub body: TypeBody,
}

/// Mathematical view of [`TypeDecl`].
pub struct TypeDeclV {
    pub ident: Seq<char>,
    pub attrs: Seq<AttrV>,
    pub generics: GenericsV,
    pub body: TypeBodyV,
}

impl View for TypeDecl {
    type V = TypeDeclV;

    open spec fn view(&self) -> TypeDeclV {
        TypeDeclV {
            ident: self.ident@,
            attrs: attrs_view(self.attrs@),
            generics: self.generics@,
            body: match self.body {
                TypeBody::Struct(ref sd) => TypeBodyV::Struct(sd@),
                TypeBody::Enum => TypeBodyV::Enum,
                TypeBody::Union => TypeBodyV::Union,
            },
        }
    }
}

// ---------------------------------------------------------------------------
// Small helpers shared by the generators
// ---------------------------------------------------------------------------

/// The view of a list of rendered strings.
pub open spec fn strings_view(s: Seq<String>) -> Seq<Seq<char>> {
    s.map_values(|x: String| x@)
}

/// The text of a generated `impl` block: the declaration's generic
/// parameters, name, type arguments and `where` clause are reused verbatim
/// around the generated body.
pub open spec fn impl_text_spec(g: GenericsV, name: Seq<char>, body: Seq<char>) -> Seq<char> {
    "impl"@ + g.impl_generics + " "@ + name + g.type_generics + (if g.where_clause.len() == 0 {
        Seq::<char>::empty()
    } else {
        " "@ + g.where_clause
    }) + " { "@ + body + " }"@
}

/// Wraps a generated body in the `impl` block of the given declaration.
pub fn impl_wrap(generics: &Generics, name: &str, body: &str) -> (r: String)
    ensures
        r@ == impl_text_spec(generics@, name@, body@),
{
    let mut s = "impl".to_owned();
    s.append(generics.impl_generics.as_str());
    s.append(" ");
    s.append(name);
    s.append(generics.type_generics.as_str());
    if !generics.where_clause.as_str().is_empty() {
        s.append(" ");
        s.append(generics.where_clause.as_str());
    }
    s.append(" { ");
    s.append(body);
    s.append(" }");
    proof {
        assert(s@ =~= impl_text_spec(generics@, name@, body@));
    }
    s
}

/// Structure-preserving copy of the generic fragments.
impl Generics {
    pub fn dup(&self) -> (r: Generics)
        ensures
            r@ == self@,
    {
        Generics {
            impl_generics: self.impl_generics.clone(),
            type_generics: self.type_generics.clone(),
            where_clause: self.where_clause.clone(),
        }
    }
}

/// Equality of two string slices, decided at the view level.
pub fn str_eq(a: &str, b: &str) -> (r: bool)
    ensures
        r == (a@ == b@),
{
    let owned_a = a.to_owned();
    let owned_b = b.to_owned();
    owned_a.eq(&owned_b)
}

} // verus!
