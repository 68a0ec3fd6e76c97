//! The generated-declaration tree: each declaration the generator emits is a
//! small tagged-variant value that a separate back end renders into target
//! syntax. The views of these types pin down, per declaration, exactly what
//! the generator derived from the field models.

use vstd::prelude::*;

use crate::model::FieldModelV;
use crate::model::FieldModel;

verus! {

/// One field of the builder type: the origin field wrapped in an
/// absent-or-present container ("not yet supplied" vs. "supplied with a value
/// of the declared type"). Rendered as `name: Optional<ty>`.
pub struct OptionalFieldModel {
    pub field: FieldModel,
}

impl View for OptionalFieldModel {
    type V = FieldModelV;

    open spec fn view(&self) -> FieldModelV {
        self.field@
    }
}

impl DeepView for OptionalFieldModel {
    type V = FieldModelV;

    open spec fn deep_view(&self) -> FieldModelV {
        self.field@
    }
}

/// Declaration of the builder type itself: its derived name and its
/// optional-wrapped fields, in origin declaration order.
pub struct BuilderTypeDecl {
    pub name: String,
    pub fields: Vec<OptionalFieldModel>,
}

/// Abstraction of a [`BuilderTypeDecl`]: the builder's name and the models of
/// the fields it wraps, in order.
pub struct BuilderTypeDeclV {
    pub name: Seq<char>,
    pub fields: Seq<FieldModelV>,
}

impl View for BuilderTypeDecl {
    type V = BuilderTypeDeclV;

    open spec fn view(&self) -> BuilderTypeDeclV {
        BuilderTypeDeclV { name: self.name@, fields: self.fields.deep_view() }
    }
}

impl DeepView for BuilderTypeDecl {
    type V = BuilderTypeDeclV;

    open spec fn deep_view(&self) -> BuilderTypeDeclV {
        self.view()
    }
}

/// Declaration of the factory operation on the origin type: `builder()`
/// returns a new builder value with every field absent.
pub struct FactoryDecl {
    pub origin: String,
    pub builder: String,
}

/// Abstraction of a [`FactoryDecl`].
pub struct FactoryDeclV {
    pub origin: Seq<char>,
    pub builder: Seq<char>,
}

impl View for FactoryDecl {
    type V = FactoryDeclV;

    open spec fn view(&self) -> FactoryDeclV {
        FactoryDeclV { origin: self.origin@, builder: self.builder@ }
    }
}

impl DeepView for FactoryDecl {
    type V = FactoryDeclV;

    open spec fn deep_view(&self) -> FactoryDeclV {
        self.view()
    }
}

/// Declaration of one setter: a mutator named after the field, taking one
/// argument of the field's original type, storing it as present and returning
/// the builder for chaining.
pub struct SetterDecl {
    pub field: String,
    pub ty: String,
}

/// Abstraction of a [`SetterDecl`].
pub struct SetterDeclV {
    pub field: Seq<char>,
    pub ty: Seq<char>,
}

impl View for SetterDecl {
    type V = SetterDeclV;

    open spec fn view(&self) -> SetterDeclV {
        SetterDeclV { field: self.field@, ty: self.ty@ }
    }
}

impl DeepView for SetterDecl {
    type V = SetterDeclV;

    open spec fn deep_view(&self) -> SetterDeclV {
        self.view()
    }
}

/// One presence check of the finalizer: "is this field's optional slot
/// non-absent?" — a pure predicate that never mutates the builder.
pub struct PresenceCheck {
    pub field: String,
}

/// Abstraction of a [`PresenceCheck`].
pub struct PresenceCheckV {
    pub field: Seq<char>,
}

impl View for PresenceCheck {
    type V = PresenceCheckV;

    open spec fn view(&self) -> PresenceCheckV {
        PresenceCheckV { field: self.field@ }
    }
}

impl DeepView for PresenceCheck {
    type V = PresenceCheckV;

    open spec fn deep_view(&self) -> PresenceCheckV {
        self.view()
    }
}

/// Declaration of the finalization operation `build()`: the presence checks,
/// in declaration order with short-circuit failure, then reconstruction of
/// the origin record from the unwrapped fields.
pub struct FinalizerDecl {
    pub origin: String,
    pub checks: Vec<PresenceCheck>,
}

/// Abstraction of a [`FinalizerDecl`].
pub struct FinalizerDeclV {
    pub origin: Seq<char>,
    pub checks: Seq<PresenceCheckV>,
}

impl View for FinalizerDecl {
    type V = FinalizerDeclV;

    open spec fn view(&self) -> FinalizerDeclV {
        FinalizerDeclV { origin: self.origin@, checks: self.checks.deep_view() }
    }
}

impl DeepView for FinalizerDecl {
    type V = FinalizerDeclV;

    open spec fn deep_view(&self) -> FinalizerDeclV {
        self.view()
    }
}

/// One generated declaration, in the tagged-variant form handed to the code
/// emitter.
pub enum Decl {
    BuilderType(BuilderTypeDecl),
    Factory(FactoryDecl),
    Setter(SetterDecl),
    Finalizer(FinalizerDecl),
}

/// Abstraction of a [`Decl`].
pub enum DeclV {
    BuilderType(BuilderTypeDeclV),
    Factory(FactoryDeclV),
    Setter(SetterDeclV),
    Finalizer(FinalizerDeclV),
}

impl View for Decl {
    type V = DeclV;

    open spec fn view(&self) -> DeclV {
        match self {
            Decl::BuilderType(d) => DeclV::BuilderType(d@),
            Decl::Factory(d) => DeclV::Factory(d@),
            Decl::Setter(d) => DeclV::Setter(d@),
            Decl::Finalizer(d) => DeclV::Finalizer(d@),
        }
    }
}

impl DeepView for Decl {
    type V = DeclV;

    open spec fn deep_view(&self) -> DeclV {
        self.view()
    }
}

} // verus!
