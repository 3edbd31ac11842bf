//! The dissolve-family generators: one method per record that projects every
//! field out as a tuple.
//!
//! Three flavors share the walk and differ in receiver and projection:
//! `Dissolve` consumes `self` and moves the fields, `DissolveRef` borrows
//! `self` and returns shared references, `DissolveMut` borrows `self`
//! mutably and returns mutable references.  Each flavor reads its own
//! annotation namespace, over the record's own annotations first and then
//! every field's in declaration order, last one winning: a `rename`
//! directive replaces the method's default name (the namespace word); a
//! `skip` directive is a deliberate no-op at this layer, because the tuple
//! always includes every field — its grammar is still checked.  A record
//! with exactly one field returns the bare value, not a one-element tuple.

use vstd::prelude::*;
use vstd::string::*;

use crate::action::{
    fold_action, fold_action_spec, get_action_spec, lemma_fold_action_err, opt_action_res_view,
    opt_action_view, Action, ActionV,
};
use crate::ast::{
    attrs_view, fields_view, impl_text_spec, impl_wrap, ty_text_spec, Generics, GenericsV,
    InputField, InputFieldV, StructData, StructDataV, Ty, TyV, TypeDecl, TypeDeclV,
};
use crate::extract::{named_fields, named_fields_spec, named_struct, named_struct_spec};
use crate::faultmsg::Problem;

verus! {

// ---------------------------------------------------------------------------
// Flavors
// ---------------------------------------------------------------------------

/// The three projection flavors.
#[derive(Debug, Clone, Copy, PartialEq, Eq, Structural)]
pub enum Flavor {
    Dissolve,
    DissolveRef,
    DissolveMut,
}

/// The annotation namespace a flavor reads, which is also its default
/// method name.
pub open spec fn namespace_spec(fl: Flavor) -> Seq<char> {
    match fl {
        Flavor::Dissolve => "dissolve"@,
        Flavor::DissolveRef => "dissolve_ref"@,
        Flavor::DissolveMut => "dissolve_mut"@,
    }
}

impl Flavor {
    /// The namespace word of this flavor.
    pub fn namespace(&self) -> (r: &'static str)
        ensures
            r@ == namespace_spec(*self),
    {
        match self {
            Flavor::Dissolve => "dissolve",
            Flavor::DissolveRef => "dissolve_ref",
            Flavor::DissolveMut => "dissolve_mut",
        }
    }

    /// The receiver the generated method takes.
    pub fn receiver(&self) -> (r: &'static str)
        ensures
            r@ == receiver_spec(*self),
    {
        match self {
            Flavor::Dissolve => "self",
            Flavor::DissolveRef => "&self",
            Flavor::DissolveMut => "&mut self",
        }
    }
}

/// The receiver text of each flavor.
pub open spec fn receiver_spec(fl: Flavor) -> Seq<char> {
    match fl {
        Flavor::Dissolve => "self"@,
        Flavor::DissolveRef => "&self"@,
        Flavor::DissolveMut => "&mut self"@,
    }
}

// ---------------------------------------------------------------------------
// Fields
// ---------------------------------------------------------------------------

/// One field as the dissolve flavors see it: its declared type and its name.
pub struct Field {
    pub ty: Ty,
    pub name: String,
}

/// Mathematical view of [`Field`].
pub struct FieldV {
    pub ty: TyV,
    pub name: Seq<char>,
}

impl View for Field {
    type V = FieldV;

    open spec fn view(&self) -> FieldV {
        FieldV { ty: self.ty@, name: self.name@ }
    }
}

/// The view of a field list.
pub open spec fn dfields_view(s: Seq<Field>) -> Seq<FieldV> {
    s.map_values(|f: Field| f@)
}

/// The view of a one-field outcome.
pub open spec fn field_res_view(r: Result<Field, Problem>) -> Result<FieldV, Problem> {
    match r {
        Ok(f) => Ok(f@),
        Err(p) => Err(p),
    }
}

/// The view of a field-list outcome.
pub open spec fn fields_res_view(r: Result<Vec<Field>, Problem>) -> Result<Seq<FieldV>, Problem> {
    match r {
        Ok(fs) => Ok(dfields_view(fs@)),
        Err(p) => Err(p),
    }
}

/// What one input field contributes: its name and type, or `UnnamedField`.
pub open spec fn from_field_spec(f: InputFieldV) -> Result<FieldV, Problem> {
    match f.name {
        None => Err(Problem::UnnamedField),
        Some(n) => Ok(FieldV { ty: f.ty, name: n }),
    }
}

/// What the whole field list contributes, in declaration order, fail-fast.
pub open spec fn from_fields_spec(fs: Seq<InputFieldV>) -> Result<Seq<FieldV>, Problem>
    decreases fs.len(),
{
    if fs.len() == 0 {
        Ok(Seq::empty())
    } else {
        match from_fields_spec(fs.drop_last()) {
            Err(p) => Err(p),
            Ok(done) => match from_field_spec(fs.last()) {
                Err(p) => Err(p),
                Ok(f) => Ok(done.push(f)),
            },
        }
    }
}

proof fn lemma_from_fields_err_prefix(fs: Seq<InputFieldV>, k: int, p: Problem)
    requires
        0 <= k <= fs.len(),
        from_fields_spec(fs.take(k)) == Err::<Seq<FieldV>, Problem>(p),
    ensures
        from_fields_spec(fs) == Err::<Seq<FieldV>, Problem>(p),
    decreases fs.len() - k,
{
    if k < fs.len() {
        assert(fs.take(k + 1).drop_last() =~= fs.take(k));
        lemma_from_fields_err_prefix(fs, k + 1, p);
    } else {
        assert(fs.take(k) =~= fs);
    }
}

impl Field {
    /// Takes one input field's name and type.
    pub fn from_field(field: &InputField) -> (r: Result<Field, Problem>)
        ensures
            field_res_view(r) == from_field_spec(field@),
    {
        match &field.name {
            Some(n) => Ok(Field { ty: field.ty.dup(), name: n.clone() }),
            None => Err(Problem::UnnamedField),
        }
    }

    /// Takes every field of the record, keeping declaration order.
    pub fn from_fields_named(fields_named: &Vec<InputField>) -> (r: Result<Vec<Field>, Problem>)
        ensures
            fields_res_view(r) == from_fields_spec(fields_view(fields_named@)),
    {
        let ghost fsv = fields_view(fields_named@);
        let mut out: Vec<Field> = Vec::new();
        let mut i: usize = 0;
        proof {
            assert(fsv.take(0) =~= Seq::<InputFieldV>::empty());
            assert(dfields_view(out@) =~= Seq::<FieldV>::empty());
        }
        while i < fields_named.len()
            invariant
                i <= fields_named.len(),
                fsv == fields_view(fields_named@),
                from_fields_spec(fsv.take(i as int)) == Ok::<Seq<FieldV>, Problem>(
                    dfields_view(out@),
                ),
            decreases fields_named.len() - i,
        {
            proof {
                assert(fsv[i as int] == fields_named@[i as int]@);
                assert(fsv.take(i as int + 1).drop_last() =~= fsv.take(i as int));
                assert(fsv.take(i as int + 1).last() == fsv[i as int]);
            }
            match Field::from_field(&fields_named[i]) {
                Err(p) => {
                    proof {
                        lemma_from_fields_err_prefix(fsv, i as int + 1, p);
                    }
                    return Err(p);
                },
                Ok(f) => {
                    let ghost prev = out@;
                    out.push(f);
                    proof {
                        assert(dfields_view(out@) =~= dfields_view(prev).push(f@));
                    }
                },
            }
            i += 1;
        }
        proof {
            assert(fsv.take(fields_named@.len() as int) =~= fsv);
        }
        Ok(out)
    }
}

// ---------------------------------------------------------------------------
// Shape extraction (shared with the getter generator)
// ---------------------------------------------------------------------------

/// Confirms the declaration is a record of some shape.
pub fn extract_struct<'a>(node: &'a TypeDecl) -> (r: Result<&'a StructData, Problem>)
    ensures
        match r {
            Ok(sd) => named_struct_spec(node@) == Ok::<StructDataV, Problem>(sd@),
            Err(p) => named_struct_spec(node@) == Err::<StructDataV, Problem>(p),
        },
{
    named_struct(node)
}

/// Confirms the record's fields are named and hands them out.
pub fn extract_fields<'a>(structure: &'a StructData) -> (r: Result<&'a Vec<InputField>, Problem>)
    ensures
        match r {
            Ok(fs) => named_fields_spec(structure@) == Ok::<Seq<InputFieldV>, Problem>(
                fields_view(fs@),
            ),
            Err(p) => named_fields_spec(structure@) == Err::<Seq<InputFieldV>, Problem>(p),
        },
{
    named_fields(structure)
}

// ---------------------------------------------------------------------------
// Method-name resolution
// ---------------------------------------------------------------------------

/// Folds one namespace over every field's annotations, in declaration order,
/// continuing from an already-resolved directive.
pub open spec fn fields_fold_spec(
    init: Result<Option<ActionV>, Problem>,
    fs: Seq<InputFieldV>,
    ns: Seq<char>,
) -> Result<Option<ActionV>, Problem>
    decreases fs.len(),
{
    if fs.len() == 0 {
        init
    } else {
        fold_action_spec(fields_fold_spec(init, fs.drop_last(), ns), fs.last().attrs, ns)
    }
}

proof fn lemma_fields_fold_err(p: Problem, fs: Seq<InputFieldV>, ns: Seq<char>)
    ensures
        fields_fold_spec(Err(p), fs, ns) == Err::<Option<ActionV>, Problem>(p),
    decreases fs.len(),
{
    if fs.len() > 0 {
        lemma_fields_fold_err(p, fs.drop_last(), ns);
        lemma_fold_action_err(p, fs.last().attrs, ns);
    }
}

proof fn lemma_fields_fold_err_prefix(
    init: Result<Option<ActionV>, Problem>,
    fs: Seq<InputFieldV>,
    k: int,
    ns: Seq<char>,
    p: Problem,
)
    requires
        0 <= k <= fs.len(),
        fields_fold_spec(init, fs.take(k), ns) == Err::<Option<ActionV>, Problem>(p),
    ensures
        fields_fold_spec(init, fs, ns) == Err::<Option<ActionV>, Problem>(p),
    decreases fs.len() - k,
{
    if k < fs.len() {
        assert(fs.take(k + 1).drop_last() =~= fs.take(k));
        lemma_fold_action_err(p, fs.take(k + 1).last().attrs, ns);
        lemma_fields_fold_err_prefix(init, fs, k + 1, ns, p);
    } else {
        assert(fs.take(k) =~= fs);
    }
}

/// What resolving one flavor's directive over a whole declaration yields:
/// the record's annotations first, then each field's, last one winning.
pub open spec fn flavor_action_spec(
    d: TypeDeclV,
    fs: Seq<InputFieldV>,
    ns: Seq<char>,
) -> Result<Option<ActionV>, Problem> {
    fields_fold_spec(get_action_spec(d.attrs, ns), fs, ns)
}

/// The effective method name: a resolved `rename` payload, else the flavor's
/// own word (`skip` has nothing to exclude here and keeps the default).
pub open spec fn method_name_spec(act: Option<ActionV>, fl: Flavor) -> Seq<char> {
    match act {
        Some(ActionV::Rename(x)) => x,
        _ => namespace_spec(fl),
    }
}

fn resolve_flavor_action(
    node: &TypeDecl,
    fields_named: &Vec<InputField>,
    flavor: Flavor,
) -> (r: Result<Option<Action>, Problem>)
    ensures
        opt_action_res_view(r) == flavor_action_spec(
            node@,
            fields_view(fields_named@),
            namespace_spec(flavor),
        ),
{
    let ghost nsv = namespace_spec(flavor);
    let ghost fsv = fields_view(fields_named@);
    let ghost init = get_action_spec(attrs_view(node.attrs@), nsv);
    let ns = flavor.namespace();
    let mut cur: Option<Action> = match fold_action(None, &node.attrs, ns) {
        Ok(c) => c,
        Err(p) => {
            proof {
                lemma_fields_fold_err(p, fsv, nsv);
            }
            return Err(p);
        },
    };
    let mut i: usize = 0;
    proof {
        assert(fsv.take(0) =~= Seq::<InputFieldV>::empty());
    }
    while i < fields_named.len()
        invariant
            i <= fields_named.len(),
            nsv == namespace_spec(flavor),
            ns@ == nsv,
            fsv == fields_view(fields_named@),
            init == get_action_spec(attrs_view(node.attrs@), nsv),
            fields_fold_spec(init, fsv.take(i as int), nsv) == Ok::<Option<ActionV>, Problem>(
                opt_action_view(cur),
            ),
        decreases fields_named.len() - i,
    {
        proof {
            assert(fsv[i as int] == fields_named@[i as int]@);
            assert(fsv.take(i as int + 1).drop_last() =~= fsv.take(i as int));
            assert(fsv.take(i as int + 1).last() == fsv[i as int]);
        }
        cur = match fold_action(cur, &fields_named[i].attrs, ns) {
            Ok(c) => c,
            Err(p) => {
                proof {
                    assert(fields_fold_spec(init, fsv.take(i as int + 1), nsv)
                        == Err::<Option<ActionV>, Problem>(p));
                    lemma_fields_fold_err_prefix(init, fsv, i as int + 1, nsv, p);
                }
                return Err(p);
            },
        };
        i += 1;
    }
    proof {
        assert(fsv.take(fields_named@.len() as int) =~= fsv);
    }
    Ok(cur)
}

// ---------------------------------------------------------------------------
// The whole record
// ---------------------------------------------------------------------------

/// A validated record together with one flavor's resolved method name.
pub struct NamedStruct {
    pub name: String,
    pub generics: Generics,
    pub flavor: Flavor,
    pub method_name: String,
    pub fields: Vec<Field>,
}

/// Mathematical view of [`NamedStruct`].
pub struct NamedStructV {
    pub name: Seq<char>,
    pub generics: GenericsV,
    pub flavor: Flavor,
    pub method_name: Seq<char>,
    pub fields: Seq<FieldV>,
}

impl View for NamedStruct {
    type V = NamedStructV;

    open spec fn view(&self) -> NamedStructV {
        NamedStructV {
            name: self.name@,
            generics: self.generics@,
            flavor: self.flavor,
            method_name: self.method_name@,
            fields: dfields_view(self.fields@),
        }
    }
}

/// The view of a validation outcome.
pub open spec fn named_struct_res_view(r: Result<NamedStruct, Problem>) -> Result<
    NamedStructV,
    Problem,
> {
    match r {
        Ok(ns) => Ok(ns@),
        Err(p) => Err(p),
    }
}

/// What validating a declaration for one flavor yields: shape first, then
/// field names, then the flavor's directives; the first failure aborts.
pub open spec fn try_from_spec(d: TypeDeclV, fl: Flavor) -> Result<NamedStructV, Problem> {
    match named_struct_spec(d) {
        Err(p) => Err(p),
        Ok(sd) => match named_fields_spec(sd) {
            Err(p) => Err(p),
            Ok(fs) => match from_fields_spec(fs) {
                Err(p) => Err(p),
                Ok(dfs) => match flavor_action_spec(d, fs, namespace_spec(fl)) {
                    Err(p) => Err(p),
                    Ok(act) => Ok(
                        NamedStructV {
                            name: d.ident,
                            generics: d.generics,
                            flavor: fl,
                            method_name: method_name_spec(act, fl),
                            fields: dfs,
                        },
                    ),
                },
            },
        },
    }
}

impl NamedStruct {
    /// Validates a declaration for one dissolve flavor.
    pub fn try_from(node: &TypeDecl, flavor: Flavor) -> (r: Result<NamedStruct, Problem>)
        ensures
            named_struct_res_view(r) == try_from_spec(node@, flavor),
    {
        let struct_data = match extract_struct(node) {
            Ok(sd) => sd,
            Err(p) => {
                return Err(p);
            },
        };
        let nf = match extract_fields(struct_data) {
            Ok(fs) => fs,
            Err(p) => {
                return Err(p);
            },
        };
        let fields = match Field::from_fields_named(nf) {
            Ok(v) => v,
            Err(p) => {
                return Err(p);
            },
        };
        let action = match resolve_flavor_action(node, nf, flavor) {
            Ok(a) => a,
            Err(p) => {
                return Err(p);
            },
        };
        let method_name: String = match action {
            Some(Action::Rename(x)) => x,
            _ => flavor.namespace().to_owned(),
        };
        Ok(
            NamedStruct {
                name: node.ident.clone(),
                generics: node.generics.dup(),
                flavor,
                method_name,
                fields,
            },
        )
    }
}

// ---------------------------------------------------------------------------
// Rendering
// ---------------------------------------------------------------------------

/// One slot of the returned tuple's type.
pub open spec fn elem_ty_spec(fl: Flavor, t: TyV) -> Seq<char> {
    match fl {
        Flavor::Dissolve => ty_text_spec(t),
        Flavor::DissolveRef => "&"@ + ty_text_spec(t),
        Flavor::DissolveMut => "&mut "@ + ty_text_spec(t),
    }
}

/// One slot of the body tuple: the field projected as the flavor demands.
pub open spec fn elem_expr_spec(fl: Flavor, name: Seq<char>) -> Seq<char> {
    match fl {
        Flavor::Dissolve => "self."@ + name,
        Flavor::DissolveRef => "&self."@ + name,
        Flavor::DissolveMut => "&mut self."@ + name,
    }
}

/// The comma-joined slot types, in declaration order.
pub open spec fn types_text_spec(fs: Seq<FieldV>, fl: Flavor) -> Seq<char>
    decreases fs.len(),
{
    if fs.len() == 0 {
        Seq::empty()
    } else if fs.len() == 1 {
        elem_ty_spec(fl, fs[0].ty)
    } else {
        types_text_spec(fs.drop_last(), fl) + ", "@ + elem_ty_spec(fl, fs.last().ty)
    }
}

/// The comma-joined body slots, in declaration order.
pub open spec fn exprs_text_spec(fs: Seq<FieldV>, fl: Flavor) -> Seq<char>
    decreases fs.len(),
{
    if fs.len() == 0 {
        Seq::empty()
    } else if fs.len() == 1 {
        elem_expr_spec(fl, fs[0].name)
    } else {
        exprs_text_spec(fs.drop_last(), fl) + ", "@ + elem_expr_spec(fl, fs.last().name)
    }
}

/// The return type: a record with exactly one field collapses to the bare
/// slot type instead of a one-element tuple.
pub open spec fn ret_text_spec(fs: Seq<FieldV>, fl: Flavor) -> Seq<char> {
    if fs.len() == 1 {
        elem_ty_spec(fl, fs[0].ty)
    } else {
        "("@ + types_text_spec(fs, fl) + ")"@
    }
}

/// The body expression, collapsed the same way.
pub open spec fn body_text_spec(fs: Seq<FieldV>, fl: Flavor) -> Seq<char> {
    if fs.len() == 1 {
        elem_expr_spec(fl, fs[0].name)
    } else {
        "("@ + exprs_text_spec(fs, fl) + ")"@
    }
}

/// The text of the one generated method.
pub open spec fn method_text_spec(ns: NamedStructV) -> Seq<char> {
    "pub fn "@ + ns.method_name + "("@ + receiver_spec(ns.flavor) + ") -> "@ + ret_text_spec(
        ns.fields,
        ns.flavor,
    ) + " { "@ + body_text_spec(ns.fields, ns.flavor) + " }"@
}

/// The full text the flavor emits for a validated record.
pub open spec fn impl_spec(ns: NamedStructV) -> Seq<char> {
    impl_text_spec(ns.generics, ns.name, method_text_spec(ns))
}

fn elem_ty(fl: Flavor, t: &Ty) -> (r: String)
    ensures
        r@ == elem_ty_spec(fl, t@),
{
    match fl {
        Flavor::Dissolve => t.text(),
        Flavor::DissolveRef => {
            let mut s = "&".to_owned();
            let tt = t.text();
            s.append(tt.as_str());
            s
        },
        Flavor::DissolveMut => {
            let mut s = "&mut ".to_owned();
            let tt = t.text();
            s.append(tt.as_str());
            s
        },
    }
}

fn elem_expr(fl: Flavor, name: &str) -> (r: String)
    ensures
        r@ == elem_expr_spec(fl, name@),
{
    let mut s = match fl {
        Flavor::Dissolve => "self.".to_owned(),
        Flavor::DissolveRef => "&self.".to_owned(),
        Flavor::DissolveMut => "&mut self.".to_owned(),
    };
    s.append(name);
    s
}

impl NamedStruct {
    /// Renders the whole generated `impl` block.
    pub fn emit(&self) -> (r: String)
        ensures
            r@ == impl_spec(self@),
    {
        let ghost fsv = dfields_view(self.fields@);
        let mut types = String::new();
        let mut exprs = String::new();
        let mut i: usize = 0;
        proof {
            assert(fsv.take(0) =~= Seq::<FieldV>::empty());
        }
        while i < self.fields.len()
            invariant
                i <= self.fields.len(),
                fsv == dfields_view(self.fields@),
                types@ == types_text_spec(fsv.take(i as int), self.flavor),
                exprs@ == exprs_text_spec(fsv.take(i as int), self.flavor),
            decreases self.fields.len() - i,
        {
            proof {
                assert(fsv[i as int] == self.fields@[i as int]@);
                assert(fsv.take(i as int + 1).drop_last() =~= fsv.take(i as int));
                assert(fsv.take(i as int + 1).last() == fsv[i as int]);
            }
            if i > 0 {
                types.append(", ");
                exprs.append(", ");
            }
            let t = elem_ty(self.flavor, &self.fields[i].ty);
            types.append(t.as_str());
            let e = elem_expr(self.flavor, self.fields[i].name.as_str());
            exprs.append(e.as_str());
            i += 1;
        }
        proof {
            assert(fsv.take(self.fields@.len() as int) =~= fsv);
        }
        let mut m = "pub fn ".to_owned();
        m.append(self.method_name.as_str());
        m.append("(");
        m.append(self.flavor.receiver());
        m.append(") -> ");
        if self.fields.len() == 1 {
            proof {
                assert(fsv[0] == self.fields@[0]@);
            }
            let t = elem_ty(self.flavor, &self.fields[0].ty);
            m.append(t.as_str());
        } else {
            m.append("(");
            m.append(types.as_str());
            m.append(")");
        }
        m.append(" { ");
        if self.fields.len() == 1 {
            let e = elem_expr(self.flavor, self.fields[0].name.as_str());
            m.append(e.as_str());
        } else {
            m.append("(");
            m.append(exprs.as_str());
            m.append(")");
        }
        m.append(" }");
        proof {
            assert(m@ =~= method_text_spec(self@));
        }
        impl_wrap(&self.generics, self.name.as_str(), m.as_str())
    }
}

} // verus!
