//! Shape extraction: confirming that a declaration is a named-field record
//! before any field-level processing begins.  Extraction is all-or-nothing:
//! it either yields the whole ordered field list or one diagnostic.

use vstd::prelude::*;

use crate::ast::{
    fields_view, InputField, InputFieldV, StructData, StructDataV, StructFields, StructFieldsV,
    TypeBody, TypeBodyV, TypeDecl, TypeDeclV,
};
use crate::faultmsg::{Problem, StructIs};

verus! {

/// What classifying a declaration's body yields: the record body, or the
/// diagnostic naming the kind actually encountered.
pub open spec fn named_struct_spec(d: TypeDeclV) -> Result<StructDataV, Problem> {
    match d.body {
        TypeBodyV::Struct(sd) => Ok(sd),
        TypeBodyV::Enum => Err(Problem::NotNamedStruct(StructIs::Enum)),
        TypeBodyV::Union => Err(Problem::NotNamedStruct(StructIs::Union)),
    }
}

/// What extracting the fields of a record body yields: the named field list,
/// or `UnnamedField` for positional-field and no-field records, which have
/// no named fields to extract.
pub open spec fn named_fields_spec(sd: StructDataV) -> Result<Seq<InputFieldV>, Problem> {
    match sd.fields {
        StructFieldsV::Named(fs) => Ok(fs),
        StructFieldsV::Unnamed => Err(Problem::UnnamedField),
        StructFieldsV::Unit => Err(Problem::UnnamedField),
    }
}

/// Confirms the declaration is a record of some shape.
pub fn named_struct<'a>(node: &'a TypeDecl) -> (r: Result<&'a StructData, Problem>)
    ensures
        match r {
            Ok(sd) => named_struct_spec(node@) == Ok::<StructDataV, Problem>(sd@),
            Err(p) => named_struct_spec(node@) == Err::<StructDataV, Problem>(p),
        },
{
    match &node.body {
        TypeBody::Struct(sd) => Ok(sd),
        TypeBody::Enum => Err(Problem::NotNamedStruct(StructIs::Enum)),
        TypeBody::Union => Err(Problem::NotNamedStruct(StructIs::Union)),
    }
}

/// Confirms the record's fields are named and hands them out in declaration
/// order.
pub fn named_fields<'a>(structure: &'a StructData) -> (r: Result<&'a Vec<InputField>, Problem>)
    ensures
        match r {
            Ok(fs) => named_fields_spec(structure@) == Ok::<Seq<InputFieldV>, Problem>(
                fields_view(fs@),
            ),
            Err(p) => named_fields_spec(structure@) == Err::<Seq<InputFieldV>, Problem>(p),
        },
{
    match &structure.fields {
        StructFields::Named(fs) => Ok(fs),
        StructFields::Unnamed => Err(Problem::UnnamedField),
        StructFields::Unit => Err(Problem::UnnamedField),
    }
}

} // verus!
