//! The input data model: the structural description of a record type as the
//! record-definition inspector reports it, and the extraction of the ordered
//! field-model list that every downstream synthesizer consumes.

use vstd::prelude::*;

verus! {

/// The `(name, type expression)` pair extracted for one named field of a
/// record definition. The type expression is carried verbatim as text; the
/// generator never interprets it.
pub struct FieldModel {
    pub name: String,
    pub ty: String,
}

/// Mathematical abstraction of a [`FieldModel`]: the field's name and type
/// expression as character sequences.
pub struct FieldModelV {
    pub name: Seq<char>,
    pub ty: Seq<char>,
}

impl View for FieldModel {
    type V = FieldModelV;

    open spec fn view(&self) -> FieldModelV {
        FieldModelV { name: self.name@, ty: self.ty@ }
    }
}

impl DeepView for FieldModel {
    type V = FieldModelV;

    open spec fn deep_view(&self) -> FieldModelV {
        self.view()
    }
}

/// The underlying shape of a record definition. Only a named-field aggregate
/// yields a usable builder; every other shape degenerates to an empty one.
pub enum RecordShape {
    /// An aggregate with named fields, in declaration order.
    Named(Vec<FieldModel>),
    /// An aggregate with positional fields; carries their type expressions.
    Positional(Vec<String>),
    /// An aggregate with no fields at all.
    Unit,
    /// Not an aggregate (an enum or union definition).
    NonAggregate,
}

/// The structural description of one record type: its name and its shape.
/// Produced once per invocation by the external inspector and consumed by
/// [`crate::synth::generate`].
pub struct RecordDefinition {
    pub name: String,
    pub shape: RecordShape,
}

/// The field models a definition yields: one per named field, in declaration
/// order, and the empty sequence for every other shape.
pub open spec fn field_models_of(def: RecordDefinition) -> Seq<FieldModelV> {
    match def.shape {
        RecordShape::Named(fields) => fields.deep_view(),
        _ => Seq::empty(),
    }
}

/// Turns a record definition into its ordered field-model list, copying each
/// named field's name and type verbatim. A shape without named fields yields
/// the empty list — the degenerate fallback, never an error.
pub fn extract_field_models(def: &RecordDefinition) -> (models: Vec<FieldModel>)
    ensures
        models.deep_view() == field_models_of(*def),
{
    match &def.shape {
        RecordShape::Named(fields) => {
            let mut models: Vec<FieldModel> = Vec::new();
            let mut i: usize = 0;
            while i < fields.len()
                invariant
                    i <= fields.len(),
                    models@.len() == i,
                    forall|j: int| 0 <= j < i ==> #[trigger] models@[j]@ == fields@[j]@,
                decreases fields.len() - i,
            {
                let field = &fields[i];
                models.push(FieldModel { name: field.name.clone(), ty: field.ty.clone() });
                i = i + 1;
            }
            proof {
                assert forall|j: int| 0 <= j < models.deep_view().len() implies
                    models.deep_view()[j] == field_models_of(*def)[j] by {
                    assert(models@[j]@ == fields@[j]@);
                }
                assert(models.deep_view() =~= field_models_of(*def));
            }
            models
        },
        _ => {
            let models: Vec<FieldModel> = Vec::new();
            assert(models.deep_view() =~= field_models_of(*def));
            models
        },
    }
}

} // verus!
