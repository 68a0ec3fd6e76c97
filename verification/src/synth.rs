//! The synthesizers: from the ordered field-model list they derive the
//! builder type's shape, the per-field setters, the presence checks, the
//! factory, and the finalizer, and assemble them into the ordered declaration
//! sequence handed to the code emitter.

use vstd::prelude::*;
use vstd::string::StringExecFns;

use crate::model::{FieldModel, FieldModelV, RecordDefinition, field_models_of, extract_field_models};
use crate::decl::{
    OptionalFieldModel, BuilderTypeDecl, BuilderTypeDeclV, FactoryDecl, FactoryDeclV, SetterDecl,
    SetterDeclV, PresenceCheck, PresenceCheckV, FinalizerDecl, FinalizerDeclV, Decl, DeclV,
};

verus! {

/// The builder type's name: the origin name with a fixed suffix appended.
pub open spec fn builder_name_of(origin: Seq<char>) -> Seq<char> {
    origin + "Builder"@
}

/// The builder type a field-model list yields: derived name, one
/// optional-wrapped field per model, order preserved.
pub open spec fn builder_type_of(origin: Seq<char>, models: Seq<FieldModelV>) -> BuilderTypeDeclV {
    BuilderTypeDeclV { name: builder_name_of(origin), fields: models }
}

/// The factory declaration: `builder()` on the origin type, returning a new,
/// all-absent value of the derived builder type.
pub open spec fn factory_of(origin: Seq<char>) -> FactoryDeclV {
    FactoryDeclV { origin, builder: builder_name_of(origin) }
}

/// The setter declarations: one per field, named after the field, taking the
/// field's original type, in declaration order.
pub open spec fn setters_of(models: Seq<FieldModelV>) -> Seq<SetterDeclV> {
    models.map_values(|m: FieldModelV| SetterDeclV { field: m.name, ty: m.ty })
}

/// The presence checks: one per field, in declaration order.
pub open spec fn checks_of(models: Seq<FieldModelV>) -> Seq<PresenceCheckV> {
    models.map_values(|m: FieldModelV| PresenceCheckV { field: m.name })
}

/// The finalizer declaration: the presence checks in declaration order,
/// wired in front of the reconstruction of the origin record.
pub open spec fn finalizer_of(origin: Seq<char>, models: Seq<FieldModelV>) -> FinalizerDeclV {
    FinalizerDeclV { origin, checks: checks_of(models) }
}

/// The whole ordered output of the generator for one record definition:
/// builder type, factory, the setters in field order, finalizer.
pub open spec fn declarations_of(def: RecordDefinition) -> Seq<DeclV> {
    let models = field_models_of(def);
    seq![
        DeclV::BuilderType(builder_type_of(def.name@, models)),
        DeclV::Factory(factory_of(def.name@)),
    ] + setters_of(models).map_values(|s: SetterDeclV| DeclV::Setter(s)) + seq![
        DeclV::Finalizer(finalizer_of(def.name@, models)),
    ]
}

/// Law: for every record definition with `n` named fields the generated
/// output opens with the builder type declaration, and that builder has
/// exactly `n` fields — each an origin field wrapped in the absent-or-present
/// container — in the origin's declaration order; for every other shape `n`
/// is zero and the builder is the empty shell.
pub proof fn lemma_builder_shape(def: RecordDefinition)
    ensures
        declarations_of(def).len() == 3 + field_models_of(def).len(),
        declarations_of(def)[0] matches DeclV::BuilderType(b) && b.name == builder_name_of(
            def.name@,
        ) && b.fields == field_models_of(def),
{
}

/// Derives the builder type's name from the origin record's name.
pub fn builder_name(origin: &String) -> (r: String)
    ensures
        r@ == builder_name_of(origin@),
{
    origin.clone().concat("Builder")
}

/// Derives the builder type declaration: each origin field wrapped in the
/// absent-or-present container, field order preserved, no other state.
pub fn synthesize_builder_type(origin: &String, models: &Vec<FieldModel>) -> (r: BuilderTypeDecl)
    ensures
        r@ == builder_type_of(origin@, models.deep_view()),
{
    let mut fields: Vec<OptionalFieldModel> = Vec::new();
    let mut i: usize = 0;
    while i < models.len()
        invariant
            i <= models.len(),
            fields@.len() == i,
            forall|j: int| 0 <= j < i ==> #[trigger] fields@[j]@ == models@[j]@,
        decreases models.len() - i,
    {
        let m = &models[i];
        fields.push(
            OptionalFieldModel { field: FieldModel { name: m.name.clone(), ty: m.ty.clone() } },
        );
        i = i + 1;
    }
    proof {
        assert forall|j: int| 0 <= j < fields.deep_view().len() implies fields.deep_view()[j]
            == models.deep_view()[j] by {
            assert(fields@[j]@ == models@[j]@);
        }
        assert(fields.deep_view() =~= models.deep_view());
    }
    BuilderTypeDecl { name: builder_name(origin), fields }
}

/// Derives the factory declaration for the origin type.
pub fn assemble_factory(origin: &String) -> (r: FactoryDecl)
    ensures
        r@ == factory_of(origin@),
{
    FactoryDecl { origin: origin.clone(), builder: builder_name(origin) }
}

/// Derives one setter declaration per field, in declaration order.
pub fn synthesize_setters(models: &Vec<FieldModel>) -> (r: Vec<SetterDecl>)
    ensures
        r.deep_view() == setters_of(models.deep_view()),
{
    let mut setters: Vec<SetterDecl> = Vec::new();
    let mut i: usize = 0;
    while i < models.len()
        invariant
            i <= models.len(),
            setters@.len() == i,
            forall|j: int| 0 <= j < i ==> (#[trigger] setters@[j]@) == (SetterDeclV {
                field: models@[j]@.name,
                ty: models@[j]@.ty,
            }),
        decreases models.len() - i,
    {
        let m = &models[i];
        setters.push(SetterDecl { field: m.name.clone(), ty: m.ty.clone() });
        i = i + 1;
    }
    proof {
        assert forall|j: int| 0 <= j < setters.deep_view().len() implies setters.deep_view()[j]
            == setters_of(models.deep_view())[j] by {
            assert(setters@[j]@ == (SetterDeclV { field: models@[j]@.name, ty: models@[j]@.ty }));
        }
        assert(setters.deep_view() =~= setters_of(models.deep_view()));
    }
    setters
}

/// Derives one presence check per field, in declaration order.
pub fn synthesize_checks(models: &Vec<FieldModel>) -> (r: Vec<PresenceCheck>)
    ensures
        r.deep_view() == checks_of(models.deep_view()),
{
    let mut checks: Vec<PresenceCheck> = Vec::new();
    let mut i: usize = 0;
    while i < models.len()
        invariant
            i <= models.len(),
            checks@.len() == i,
            forall|j: int| 0 <= j < i ==> (#[trigger] checks@[j]@) == (PresenceCheckV {
                field: models@[j]@.name,
            }),
        decreases models.len() - i,
    {
        let m = &models[i];
        checks.push(PresenceCheck { field: m.name.clone() });
        i = i + 1;
    }
    proof {
        assert forall|j: int| 0 <= j < checks.deep_view().len() implies checks.deep_view()[j]
            == checks_of(models.deep_view())[j] by {
            assert(checks@[j]@ == (PresenceCheckV { field: models@[j]@.name }));
        }
        assert(checks.deep_view() =~= checks_of(models.deep_view()));
    }
    checks
}

/// Assembles the finalizer declaration from the presence checks.
pub fn assemble_finalizer(origin: &String, checks: Vec<PresenceCheck>) -> (r: FinalizerDecl)
    ensures
        r@ == (FinalizerDeclV { origin: origin@, checks: checks.deep_view() }),
{
    FinalizerDecl { origin: origin.clone(), checks }
}

/// The whole generation pass: extracts the field models from the definition
/// and emits, in order, the builder type declaration, the factory, one setter
/// per field, and the finalizer. Generation is total: every well-formed
/// structural input yields output, degenerate shapes included.
pub fn generate(def: &RecordDefinition) -> (decls: Vec<Decl>)
    ensures
        decls.deep_view() == declarations_of(*def),
{
    let models = extract_field_models(def);
    let builder_type = synthesize_builder_type(&def.name, &models);
    let factory = assemble_factory(&def.name);
    let setters = synthesize_setters(&models);
    let checks = synthesize_checks(&models);
    let finalizer = assemble_finalizer(&def.name, checks);

    let ghost modelsv: Seq<FieldModelV> = field_models_of(*def);
    let ghost settersv: Seq<SetterDeclV> = setters_of(modelsv);

    let mut decls: Vec<Decl> = Vec::new();
    decls.push(Decl::BuilderType(builder_type));
    decls.push(Decl::Factory(factory));
    let mut i: usize = 0;
    while i < setters.len()
        invariant
            i <= setters.len(),
            setters.deep_view() == settersv,
            decls@.len() == 2 + i,
            decls@[0]@ == DeclV::BuilderType(builder_type_of(def.name@, modelsv)),
            decls@[1]@ == DeclV::Factory(factory_of(def.name@)),
            forall|j: int| 0 <= j < i ==> (#[trigger] decls@[2 + j]@) == DeclV::Setter(
                settersv[j],
            ),
        decreases setters.len() - i,
    {
        let s = &setters[i];
        decls.push(Decl::Setter(SetterDecl { field: s.field.clone(), ty: s.ty.clone() }));
        proof {
            assert(setters@[i as int]@ == settersv[i as int]);
        }
        i = i + 1;
    }
    let ghost pre: Seq<Decl> = decls@;
    decls.push(Decl::Finalizer(finalizer));
    proof {
        let specd = declarations_of(*def);
        let n = modelsv.len();
        assert(settersv.len() == n);
        assert(specd.len() == 3 + n);
        assert forall|j: int| 0 <= j < decls.deep_view().len() implies decls.deep_view()[j]
            == specd[j] by {
            if j == 0 {
                assert(specd[0] == DeclV::BuilderType(builder_type_of(def.name@, modelsv)));
            } else if j == 1 {
                assert(specd[1] == DeclV::Factory(factory_of(def.name@)));
            } else if j < 2 + n {
                assert(specd[j] == settersv.map_values(|s: SetterDeclV| DeclV::Setter(s))[j - 2]);
                assert(decls@[j] == pre[j]);
                assert(pre[2 + (j - 2)]@ == DeclV::Setter(settersv[j - 2]));
            } else {
                assert(specd[j] == DeclV::Finalizer(finalizer_of(def.name@, modelsv)));
            }
        }
        assert(decls.deep_view() =~= specd);
    }
    decls
}

} // verus!
