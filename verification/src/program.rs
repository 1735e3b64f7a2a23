//! The generated rendering programs: ordered tables of render actions that
//! a host UI toolkit interprets against a live instance of the described
//! type.

use vstd::prelude::*;

use crate::config::WidgetKind;
use crate::schema::{GenericParam, GenericParamV};

verus! {

/// The location a render action reads or writes: a field of the rendered
/// value itself, or a binding introduced by the active variant's pattern.
pub enum FieldPlace {
    OwnNamed { ident: String },
    OwnPositional { index: usize },
    BoundNamed { ident: String },
    BoundPositional { index: usize },
}

/// Mathematical model of `FieldPlace`.
pub enum FieldPlaceV {
    OwnNamed { ident: Seq<char> },
    OwnPositional { index: usize },
    BoundNamed { ident: Seq<char> },
    BoundPositional { index: usize },
}

impl DeepView for FieldPlace {
    type V = FieldPlaceV;

    open spec fn deep_view(&self) -> FieldPlaceV {
        match self {
            FieldPlace::OwnNamed { ident } => FieldPlaceV::OwnNamed { ident: ident.deep_view() },
            FieldPlace::OwnPositional { index } => FieldPlaceV::OwnPositional { index: *index },
            FieldPlace::BoundNamed { ident } => FieldPlaceV::BoundNamed {
                ident: ident.deep_view(),
            },
            FieldPlace::BoundPositional { index } => FieldPlaceV::BoundPositional {
                index: *index,
            },
        }
    }
}

/// One render action.  `Standard` calls the field value's own rendering
/// entry point — the mutable one when `mutable` is true — passing the
/// resolved label and, for numeric fields, the widget kind and bounds.
/// `Custom` calls the named function instead, with a shared or mutable
/// borrow of the field according to `mutable`.
pub enum Action {
    Standard {
        place: FieldPlace,
        label: String,
        mutable: bool,
        widget_kind: WidgetKind,
        min_bits: u32,
        max_bits: u32,
        multiline: bool,
    },
    Custom { func: String, place: FieldPlace, label: String, mutable: bool },
}

/// Mathematical model of `Action`.
pub enum ActionV {
    Standard {
        place: FieldPlaceV,
        label: Seq<char>,
        mutable: bool,
        widget_kind: WidgetKind,
        min_bits: u32,
        max_bits: u32,
        multiline: bool,
    },
    Custom { func: Seq<char>, place: FieldPlaceV, label: Seq<char>, mutable: bool },
}

impl DeepView for Action {
    type V = ActionV;

    open spec fn deep_view(&self) -> ActionV {
        match self {
            Action::Standard { place, label, mutable, widget_kind, min_bits, max_bits, multiline }
                => ActionV::Standard {
                place: place.deep_view(),
                label: label.deep_view(),
                mutable: *mutable,
                widget_kind: *widget_kind,
                min_bits: *min_bits,
                max_bits: *max_bits,
                multiline: *multiline,
            },
            Action::Custom { func, place, label, mutable } => ActionV::Custom {
                func: func.deep_view(),
                place: place.deep_view(),
                label: label.deep_view(),
                mutable: *mutable,
            },
        }
    }
}

/// The payload of a freshly default-constructed variant: every field reset
/// to its type's default.
pub enum DefaultPayload {
    Named { field_names: Vec<String> },
    Positional { arity: usize },
    Empty,
}

/// Mathematical model of `DefaultPayload`.
pub enum DefaultPayloadV {
    Named { field_names: Seq<Seq<char>> },
    Positional { arity: usize },
    Empty,
}

impl DeepView for DefaultPayload {
    type V = DefaultPayloadV;

    open spec fn deep_view(&self) -> DefaultPayloadV {
        match self {
            DefaultPayload::Named { field_names } => DefaultPayloadV::Named {
                field_names: field_names.deep_view(),
            },
            DefaultPayload::Positional { arity } => DefaultPayloadV::Positional { arity: *arity },
            DefaultPayload::Empty => DefaultPayloadV::Empty,
        }
    }
}

/// One entry of the variant selector: choosing it replaces the current
/// instance with a default-constructed instance of the named variant.
pub struct SelectorOption {
    pub label: String,
    pub payload: DefaultPayload,
}

/// Mathematical model of `SelectorOption`.
pub struct SelectorOptionV {
    pub label: Seq<char>,
    pub payload: DefaultPayloadV,
}

impl DeepView for SelectorOption {
    type V = SelectorOptionV;

    open spec fn deep_view(&self) -> SelectorOptionV {
        SelectorOptionV { label: self.label.deep_view(), payload: self.payload.deep_view() }
    }
}

/// The dispatch branch of one variant: its actions run only while that
/// variant is the active one.
pub struct VariantArm {
    pub tag: String,
    pub actions: Vec<Action>,
}

/// Mathematical model of `VariantArm`.
pub struct VariantArmV {
    pub tag: Seq<char>,
    pub actions: Seq<ActionV>,
}

impl DeepView for VariantArm {
    type V = VariantArmV;

    open spec fn deep_view(&self) -> VariantArmV {
        VariantArmV { tag: self.tag.deep_view(), actions: self.actions.deep_view() }
    }
}

/// The rendering program of an enum.  The host first shows the type's own
/// label, then — in editable mode — the selector, or — in read-only mode —
/// the active variant's tag from `tags`, then runs the active variant's arm.
pub struct EnumProgram {
    /// Tag reflection: the symbolic name of each variant, in declaration
    /// order, indexed by the active variant.
    pub tags: Vec<String>,
    /// The variant selector; present exactly in the editable program.
    pub selector: Option<Vec<SelectorOption>>,
    /// Per-variant dispatch, in declaration order.
    pub arms: Vec<VariantArm>,
}

/// Mathematical model of `EnumProgram`.
pub struct EnumProgramV {
    pub tags: Seq<Seq<char>>,
    pub selector: Option<Seq<SelectorOptionV>>,
    pub arms: Seq<VariantArmV>,
}

impl DeepView for EnumProgram {
    type V = EnumProgramV;

    open spec fn deep_view(&self) -> EnumProgramV {
        EnumProgramV {
            tags: self.tags.deep_view(),
            selector: match &self.selector {
                Some(opts) => Some(opts.deep_view()),
                None => None,
            },
            arms: self.arms.deep_view(),
        }
    }
}

/// One rendering program.  For a struct, the host shows the type's own
/// label and then runs the field actions in order.
pub enum Program {
    Struct { fields: Vec<Action> },
    Enum { body: EnumProgram },
}

/// Mathematical model of `Program`.
pub enum ProgramV {
    Struct { fields: Seq<ActionV> },
    Enum { body: EnumProgramV },
}

impl DeepView for Program {
    type V = ProgramV;

    open spec fn deep_view(&self) -> ProgramV {
        match self {
            Program::Struct { fields } => ProgramV::Struct { fields: fields.deep_view() },
            Program::Enum { body } => ProgramV::Enum { body: body.deep_view() },
        }
    }
}

/// The complete binding for one type: both rendering programs, and the
/// generic parameters with the inspectable-capability requirement added.
pub struct Binding {
    pub ident: String,
    pub generics: Vec<GenericParam>,
    pub inspect: Program,
    pub inspect_mut: Program,
}

/// Mathematical model of `Binding`.
pub struct BindingV {
    pub ident: Seq<char>,
    pub generics: Seq<GenericParamV>,
    pub inspect: ProgramV,
    pub inspect_mut: ProgramV,
}

impl DeepView for Binding {
    type V = BindingV;

    open spec fn deep_view(&self) -> BindingV {
        BindingV {
            ident: self.ident.deep_view(),
            generics: self.generics.deep_view(),
            inspect: self.inspect.deep_view(),
            inspect_mut: self.inspect_mut.deep_view(),
        }
    }
}

/// A generation-time failure.  `UnresolvedFunction` names the offending
/// field and the custom-function reference that is not well formed;
/// `UnsupportedShape` rejects a structural shape the generator does not
/// model.
#[derive(Debug)]
pub enum GenError {
    UnresolvedFunction { field: String, func: String },
    UnsupportedShape,
}

/// Mathematical model of `GenError`.
pub enum GenErrorV {
    UnresolvedFunction { field: Seq<char>, func: Seq<char> },
    UnsupportedShape,
}

impl DeepView for GenError {
    type V = GenErrorV;

    open spec fn deep_view(&self) -> GenErrorV {
        match self {
            GenError::UnresolvedFunction { field, func } => GenErrorV::UnresolvedFunction {
                field: field.deep_view(),
                func: func.deep_view(),
            },
            GenError::UnsupportedShape => GenErrorV::UnsupportedShape,
        }
    }
}

} // verus!
