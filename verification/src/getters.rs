//! The getter generator: one public accessor per retained field.
//!
//! Per field, the `getter` annotation namespace is resolved first: a `skip`
//! directive drops the field (no method, not an error), a `rename` directive
//! replaces the method's default name, which is the field's own.  A field
//! whose declared type is already a reference keeps that type as the return
//! type and hands back a copy of the reference; any other field is returned
//! behind a fresh shared borrow.

use vstd::prelude::*;
use vstd::string::*;

use crate::action::{get_action_from, get_action_spec, Action, ActionV};
use crate::ast::{
    fields_view, impl_text_spec, impl_wrap, ty_text_spec, Generics, GenericsV, InputField,
    InputFieldV, Ty, TyV, TypeDecl, TypeDeclV,
};
use crate::extract::{named_fields, named_fields_spec, named_struct, named_struct_spec};
use crate::faultmsg::Problem;

verus! {

// ---------------------------------------------------------------------------
// One retained field
// ---------------------------------------------------------------------------

/// A field that survived directive resolution: its declared type, its own
/// name, and the name its accessor will bear.
pub struct Field {
    pub ty: Ty,
    pub name: String,
    pub getter: String,
}

/// Mathematical view of [`Field`].
pub struct FieldV {
    pub ty: TyV,
    pub name: Seq<char>,
    pub getter: Seq<char>,
}

impl View for Field {
    type V = FieldV;

    open spec fn view(&self) -> FieldV {
        FieldV { ty: self.ty@, name: self.name@, getter: self.getter@ }
    }
}

/// The view of a list of retained fields.
pub open spec fn gfields_view(s: Seq<Field>) -> Seq<FieldV> {
    s.map_values(|f: Field| f@)
}

/// The view of a one-field outcome.
pub open spec fn opt_field_res_view(r: Result<Option<Field>, Problem>) -> Result<
    Option<FieldV>,
    Problem,
> {
    match r {
        Ok(Some(f)) => Ok(Some(f@)),
        Ok(None) => Ok(None),
        Err(p) => Err(p),
    }
}

/// The view of a field-list outcome.
pub open spec fn fields_res_view(r: Result<Vec<Field>, Problem>) -> Result<Seq<FieldV>, Problem> {
    match r {
        Ok(fs) => Ok(gfields_view(fs@)),
        Err(p) => Err(p),
    }
}

/// What directive resolution makes of one input field: the retained field,
/// nothing for a skipped field, or the diagnostic.
pub open spec fn from_field_spec(f: InputFieldV) -> Result<Option<FieldV>, Problem> {
    match f.name {
        None => Err(Problem::UnnamedField),
        Some(name) => match get_action_spec(f.attrs, "getter"@) {
            Err(p) => Err(p),
            Ok(Some(ActionV::Skip)) => Ok(None),
            Ok(Some(ActionV::Rename(x))) => Ok(Some(FieldV { ty: f.ty, name: name, getter: x })),
            Ok(None) => Ok(Some(FieldV { ty: f.ty, name: name, getter: name })),
        },
    }
}

/// What resolving a whole field list yields, in declaration order and
/// fail-fast: the first failing field aborts the generation.
pub open spec fn from_fields_spec(fs: Seq<InputFieldV>) -> Result<Seq<FieldV>, Problem>
    decreases fs.len(),
{
    if fs.len() == 0 {
        Ok(Seq::empty())
    } else {
        match from_fields_spec(fs.drop_last()) {
            Err(p) => Err(p),
            Ok(done) => match from_field_spec(fs.last()) {
                Err(p) => Err(p),
                Ok(None) => Ok(done),
                Ok(Some(g)) => Ok(done.push(g)),
            },
        }
    }
}

proof fn lemma_from_fields_err_prefix(fs: Seq<InputFieldV>, k: int, p: Problem)
    requires
        0 <= k <= fs.len(),
        from_fields_spec(fs.take(k)) == Err::<Seq<FieldV>, Problem>(p),
    ensures
        from_fields_spec(fs) == Err::<Seq<FieldV>, Problem>(p),
    decreases fs.len() - k,
{
    if k < fs.len() {
        assert(fs.take(k + 1).drop_last() =~= fs.take(k));
        lemma_from_fields_err_prefix(fs, k + 1, p);
    } else {
        assert(fs.take(k) =~= fs);
    }
}

impl Field {
    /// Resolves the `getter` directives of one input field.
    pub fn from_field(field: &InputField) -> (r: Result<Option<Field>, Problem>)
        ensures
            opt_field_res_view(r) == from_field_spec(field@),
    {
        let name: String = match &field.name {
            Some(n) => n.clone(),
            None => {
                return Err(Problem::UnnamedField);
            },
        };
        match get_action_from(&field.attrs, "getter") {
            Err(p) => Err(p),
            Ok(Some(Action::Skip)) => Ok(None),
            Ok(Some(Action::Rename(x))) => Ok(
                Some(Field { ty: field.ty.dup(), name: name, getter: x }),
            ),
            Ok(None) => Ok(
                Some(Field { ty: field.ty.dup(), name: name.clone(), getter: name }),
            ),
        }
    }

    /// Resolves every field of the record, keeping declaration order.
    pub fn from_fields_named(fields_named: &Vec<InputField>) -> (r: Result<Vec<Field>, Problem>)
        ensures
            fields_res_view(r) == from_fields_spec(fields_view(fields_named@)),
    {
        let ghost fsv = fields_view(fields_named@);
        let mut out: Vec<Field> = Vec::new();
        let mut i: usize = 0;
        proof {
            assert(fsv.take(0) =~= Seq::<InputFieldV>::empty());
            assert(gfields_view(out@) =~= Seq::<FieldV>::empty());
        }
        while i < fields_named.len()
            invariant
                i <= fields_named.len(),
                fsv == fields_view(fields_named@),
                from_fields_spec(fsv.take(i as int)) == Ok::<Seq<FieldV>, Problem>(
                    gfields_view(out@),
                ),
            decreases fields_named.len() - i,
        {
            proof {
                assert(fsv[i as int] == fields_named@[i as int]@);
                assert(fsv.take(i as int + 1).drop_last() =~= fsv.take(i as int));
                assert(fsv.take(i as int + 1).last() == fsv[i as int]);
            }
            match Field::from_field(&fields_named[i]) {
                Err(p) => {
                    proof {
                        lemma_from_fields_err_prefix(fsv, i as int + 1, p);
                    }
                    return Err(p);
                },
                Ok(Some(f)) => {
                    let ghost prev = out@;
                    out.push(f);
                    proof {
                        assert(gfields_view(out@) =~= gfields_view(prev).push(f@));
                    }
                },
                Ok(None) => {},
            }
            i += 1;
        }
        proof {
            assert(fsv.take(fields_named@.len() as int) =~= fsv);
        }
        Ok(out)
    }
}

// ---------------------------------------------------------------------------
// Rendering
// ---------------------------------------------------------------------------

/// The receiver of a field's accessor: when the field's declared type is a
/// reference with an explicit lifetime, `self` is borrowed for exactly that
/// lifetime; otherwise for the call's own anonymous lifetime.
pub open spec fn recv_text_spec(t: TyV) -> Seq<char> {
    match t {
        TyV::Reference { lifetime: Some(lt), inner } => "&'"@ + lt + " self"@,
        _ => "&self"@,
    }
}

/// The return type of a field's accessor: a reference-typed field keeps its
/// declared type unchanged (the accessor hands back a copy of the reference,
/// never a reference to a reference); any other field is returned behind a
/// fresh `&`.
pub open spec fn ret_text_spec(t: TyV) -> Seq<char> {
    match t {
        TyV::Reference { lifetime, inner } => ty_text_spec(t),
        TyV::Plain { text } => "&"@ + text,
    }
}

/// The accessor's body: the plain projection for a reference-typed field,
/// the borrowed projection otherwise.  No copy, no transformation.
pub open spec fn body_expr_spec(f: FieldV) -> Seq<char> {
    match f.ty {
        TyV::Reference { lifetime, inner } => "self."@ + f.name,
        TyV::Plain { text } => "&self."@ + f.name,
    }
}

/// The text of one accessor.
pub open spec fn emit_spec(f: FieldV) -> Seq<char> {
    "pub fn "@ + f.getter + "("@ + recv_text_spec(f.ty) + ") -> "@ + ret_text_spec(f.ty) + " { "@
        + body_expr_spec(f) + " }"@
}

fn recv_text(t: &Ty) -> (r: String)
    ensures
        r@ == recv_text_spec(t@),
{
    match t {
        Ty::Reference { lifetime: Some(lt), inner: _ } => {
            let mut s = "&'".to_owned();
            s.append(lt.as_str());
            s.append(" self");
            s
        },
        _ => "&self".to_owned(),
    }
}

fn ret_text(t: &Ty) -> (r: String)
    ensures
        r@ == ret_text_spec(t@),
{
    match t {
        Ty::Reference { lifetime: _, inner: _ } => t.text(),
        Ty::Plain { text } => {
            let mut s = "&".to_owned();
            s.append(text.as_str());
            s
        },
    }
}

impl Field {
    fn body_expr(&self) -> (r: String)
        ensures
            r@ == body_expr_spec(self@),
    {
        let mut s = match &self.ty {
            Ty::Reference { lifetime: _, inner: _ } => "self.".to_owned(),
            Ty::Plain { text: _ } => "&self.".to_owned(),
        };
        s.append(self.name.as_str());
        s
    }

    /// Renders this field's accessor.
    pub fn emit(&self) -> (r: String)
        ensures
            r@ == emit_spec(self@),
    {
        let mut s = "pub fn ".to_owned();
        s.append(self.getter.as_str());
        s.append("(");
        let recv = recv_text(&self.ty);
        s.append(recv.as_str());
        s.append(") -> ");
        let ret = ret_text(&self.ty);
        s.append(ret.as_str());
        s.append(" { ");
        let be = self.body_expr();
        s.append(be.as_str());
        s.append(" }");
        proof {
            assert(s@ =~= emit_spec(self@));
        }
        s
    }
}

// ---------------------------------------------------------------------------
// The whole record
// ---------------------------------------------------------------------------

/// A validated named-field record, ready to emit accessors.
pub struct NamedStruct {
    pub name: String,
    pub generics: Generics,
    pub fields: Vec<Field>,
}

/// Mathematical view of [`NamedStruct`].
pub struct NamedStructV {
    pub name: Seq<char>,
    pub generics: GenericsV,
    pub fields: Seq<FieldV>,
}

impl View for NamedStruct {
    type V = NamedStructV;

    open spec fn view(&self) -> NamedStructV {
        NamedStructV { name: self.name@, generics: self.generics@, fields: gfields_view(self.fields@) }
    }
}

/// The view of a validation outcome.
pub open spec fn named_struct_res_view(r: Result<NamedStruct, Problem>) -> Result<
    NamedStructV,
    Problem,
> {
    match r {
        Ok(ns) => Ok(ns@),
        Err(p) => Err(p),
    }
}

/// What validating a whole declaration yields: shape first, then field
/// names, then directives; the first failure aborts.
pub open spec fn try_from_spec(d: TypeDeclV) -> Result<NamedStructV, Problem> {
    match named_struct_spec(d) {
        Err(p) => Err(p),
        Ok(sd) => match named_fields_spec(sd) {
            Err(p) => Err(p),
            Ok(fs) => match from_fields_spec(fs) {
                Err(p) => Err(p),
                Ok(gs) => Ok(NamedStructV { name: d.ident, generics: d.generics, fields: gs }),
            },
        },
    }
}

/// The methods of the generated `impl` block, in declaration order.
pub open spec fn methods_text_spec(fs: Seq<FieldV>) -> Seq<char>
    decreases fs.len(),
{
    if fs.len() == 0 {
        Seq::empty()
    } else if fs.len() == 1 {
        emit_spec(fs[0])
    } else {
        methods_text_spec(fs.drop_last()) + " "@ + emit_spec(fs.last())
    }
}

/// The full text the getter generator emits for a validated record.
pub open spec fn impl_spec(ns: NamedStructV) -> Seq<char> {
    impl_text_spec(ns.generics, ns.name, methods_text_spec(ns.fields))
}

impl NamedStruct {
    /// Validates a declaration for the getter generator.
    pub fn try_from(node: &TypeDecl) -> (r: Result<NamedStruct, Problem>)
        ensures
            named_struct_res_view(r) == try_from_spec(node@),
    {
        let struct_data = match named_struct(node) {
            Ok(sd) => sd,
            Err(p) => {
                return Err(p);
            },
        };
        let nf = match named_fields(struct_data) {
            Ok(fs) => fs,
            Err(p) => {
                return Err(p);
            },
        };
        let fields = match Field::from_fields_named(nf) {
            Ok(v) => v,
            Err(p) => {
                return Err(p);
            },
        };
        Ok(NamedStruct { name: node.ident.clone(), generics: node.generics.dup(), fields })
    }

    /// Renders the whole generated `impl` block.
    pub fn emit(&self) -> (r: String)
        ensures
            r@ == impl_spec(self@),
    {
        let ghost fsv = gfields_view(self.fields@);
        let mut methods = String::new();
        let mut i: usize = 0;
        while i < self.fields.len()
            invariant
                i <= self.fields.len(),
                fsv == gfields_view(self.fields@),
                methods@ == methods_text_spec(fsv.take(i as int)),
            decreases self.fields.len() - i,
        {
            proof {
                assert(fsv[i as int] == self.fields@[i as int]@);
                assert(fsv.take(i as int + 1).drop_last() =~= fsv.take(i as int));
                assert(fsv.take(i as int + 1).last() == fsv[i as int]);
            }
            if i > 0 {
                methods.append(" ");
            }
            let m = self.fields[i].emit();
            methods.append(m.as_str());
            i += 1;
        }
        proof {
            assert(fsv.take(self.fields@.len() as int) =~= fsv);
        }
        impl_wrap(&self.generics, self.name.as_str(), methods.as_str())
    }
}

} // verus!
