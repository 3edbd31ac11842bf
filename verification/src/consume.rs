//! Ordered projections of a named field list: the tuple of field names and
//! the tuple of field types, as the dissolve-family generators print them.

use vstd::prelude::*;

use crate::ast::{fields_view, strings_view, ty_text_spec, InputField, InputFieldV};
use crate::faultmsg::Problem;

verus! {

/// The view of a name-tuple outcome.
pub open spec fn names_res_view(r: Result<Vec<String>, Problem>) -> Result<Seq<Seq<char>>, Problem> {
    match r {
        Ok(v) => Ok(strings_view(v@)),
        Err(p) => Err(p),
    }
}

/// The field names in declaration order, or `UnnamedField` as soon as one
/// field has no name.
pub open spec fn fields_tuple_spec(fs: Seq<InputFieldV>) -> Result<Seq<Seq<char>>, Problem>
    decreases fs.len(),
{
    if fs.len() == 0 {
        Ok(Seq::empty())
    } else {
        match fields_tuple_spec(fs.drop_last()) {
            Err(p) => Err(p),
            Ok(done) => match fs.last().name {
                None => Err(Problem::UnnamedField),
                Some(n) => Ok(done.push(n)),
            },
        }
    }
}

proof fn lemma_fields_tuple_err_prefix(fs: Seq<InputFieldV>, k: int, p: Problem)
    requires
        0 <= k <= fs.len(),
        fields_tuple_spec(fs.take(k)) == Err::<Seq<Seq<char>>, Problem>(p),
    ensures
        fields_tuple_spec(fs) == Err::<Seq<Seq<char>>, Problem>(p),
    decreases fs.len() - k,
{
    if k < fs.len() {
        assert(fs.take(k + 1).drop_last() =~= fs.take(k));
        lemma_fields_tuple_err_prefix(fs, k + 1, p);
    } else {
        assert(fs.take(k) =~= fs);
    }
}

/// Collects every field's name, in declaration order.
pub fn fields_tuple(fields: &Vec<InputField>) -> (r: Result<Vec<String>, Problem>)
    ensures
        names_res_view(r) == fields_tuple_spec(fields_view(fields@)),
{
    let ghost fsv = fields_view(fields@);
    let mut out: Vec<String> = Vec::new();
    let mut i: usize = 0;
    proof {
        assert(fsv.take(0) =~= Seq::<InputFieldV>::empty());
        assert(strings_view(out@) =~= Seq::<Seq<char>>::empty());
    }
    while i < fields.len()
        invariant
            i <= fields.len(),
            fsv == fields_view(fields@),
            fields_tuple_spec(fsv.take(i as int)) == Ok::<Seq<Seq<char>>, Problem>(
                strings_view(out@),
            ),
        decreases fields.len() - i,
    {
        proof {
            assert(fsv[i as int] == fields@[i as int]@);
            assert(fsv.take(i as int + 1).drop_last() =~= fsv.take(i as int));
            assert(fsv.take(i as int + 1).last() == fsv[i as int]);
        }
        match &fields[i].name {
            Some(n) => {
                let ghost prev = out@;
                out.push(n.clone());
                proof {
                    assert(strings_view(out@) =~= strings_view(prev).push(n@));
                }
            },
            None => {
                proof {
                    lemma_fields_tuple_err_prefix(fsv, i as int + 1, Problem::UnnamedField);
                }
                return Err(Problem::UnnamedField);
            },
        }
        i += 1;
    }
    proof {
        assert(fsv.take(fields@.len() as int) =~= fsv);
    }
    Ok(out)
}

/// The rendered field types in declaration order.
pub open spec fn field_types_tuple_spec(fs: Seq<InputFieldV>) -> Seq<Seq<char>>
    decreases fs.len(),
{
    if fs.len() == 0 {
        Seq::empty()
    } else {
        field_types_tuple_spec(fs.drop_last()).push(ty_text_spec(fs.last().ty))
    }
}

/// Collects every field's rendered type, in declaration order.
pub fn field_types_tuple(fields: &Vec<InputField>) -> (r: Vec<String>)
    ensures
        strings_view(r@) == field_types_tuple_spec(fields_view(fields@)),
{
    let ghost fsv = fields_view(fields@);
    let mut out: Vec<String> = Vec::new();
    let mut i: usize = 0;
    proof {
        assert(fsv.take(0) =~= Seq::<InputFieldV>::empty());
        assert(strings_view(out@) =~= Seq::<Seq<char>>::empty());
    }
    while i < fields.len()
        invariant
            i <= fields.len(),
            fsv == fields_view(fields@),
            strings_view(out@) == field_types_tuple_spec(fsv.take(i as int)),
        decreases fields.len() - i,
    {
        proof {
            assert(fsv[i as int] == fields@[i as int]@);
            assert(fsv.take(i as int + 1).drop_last() =~= fsv.take(i as int));
            assert(fsv.take(i as int + 1).last() == fsv[i as int]);
        }
        let ghost prev = out@;
        let t = fields[i].ty.text();
        out.push(t);
        proof {
            assert(strings_view(out@) =~= field_types_tuple_spec(fsv.take(i as int + 1)));
        }
        i += 1;
    }
    proof {
        assert(fsv.take(fields@.len() as int) =~= fsv);
    }
    out
}

} // verus!
