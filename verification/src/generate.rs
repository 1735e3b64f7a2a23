//! The generator: from a type's structural description to its two
//! rendering programs.  Field dispatch preserves declaration order, skips
//! hidden fields, honours custom-function overrides with their exact
//! precedence, and fails at generation time on an ill-formed
//! custom-function reference or an unsupported structural shape.

use vstd::prelude::*;

use crate::config::{resolve, resolve_spec, FieldConfig, FieldConfigV};
use crate::labels::{ordinal_label, ordinal_label_string};
use crate::paths::{check_path, valid_path};
use crate::program::{
    Action, ActionV, Binding, BindingV, DefaultPayload, DefaultPayloadV, EnumProgram, EnumProgramV,
    FieldPlace, FieldPlaceV, GenError, GenErrorV, Program, ProgramV, SelectorOption,
    SelectorOptionV, VariantArm, VariantArmV,
};
use crate::schema::{
    DataDecl, DataDeclV, FieldsDecl, FieldsDeclV, GenericParam, GenericParamV, NamedField,
    NamedFieldV, TypeDecl, TypeDeclV, UnnamedField, UnnamedFieldV, VariantDecl, VariantDeclV,
};

verus! {

// ---------------------------------------------------------------------
// Per-field dispatch decisions
// ---------------------------------------------------------------------
/// Whether the field is actually edited: only in the editable program, and
/// not when the field forces read-only rendering.
pub open spec fn effective_mutable(cfg: FieldConfigV, mutable: bool) -> bool {
    mutable && !cfg.editable_override
}

/// The custom function the mode consults, if any: the writer exactly when
/// the field is actually edited, otherwise the reader.
pub open spec fn consulted_custom(cfg: FieldConfigV, em: bool) -> Option<Seq<char>> {
    if em {
        cfg.custom_writer
    } else {
        cfg.custom_reader
    }
}

/// The label shown for a field: the declared override, or the structural
/// fallback name.
pub open spec fn display_label(cfg: FieldConfigV, fallback: Seq<char>) -> Seq<char> {
    match cfg.display_name {
        Some(n) => n,
        None => fallback,
    }
}

/// The render action for one visible field: the consulted custom function
/// when one is set, otherwise the standard dispatch through the field's
/// own rendering entry point.
pub open spec fn field_action(
    cfg: FieldConfigV,
    fallback: Seq<char>,
    place: FieldPlaceV,
    mutable: bool,
) -> ActionV {
    let em = effective_mutable(cfg, mutable);
    let label = display_label(cfg, fallback);
    match consulted_custom(cfg, em) {
        Some(func) => ActionV::Custom { func, place, label, mutable: em },
        None => ActionV::Standard {
            place,
            label,
            mutable: em,
            widget_kind: cfg.widget_kind,
            min_bits: cfg.min_bits,
            max_bits: cfg.max_bits,
            multiline: cfg.multiline,
        },
    }
}

/// Generation succeeds for a visible field exactly when the consulted
/// custom function, if any, is a well-formed reference.
pub open spec fn field_ok(cfg: FieldConfigV, mutable: bool) -> bool {
    match consulted_custom(cfg, effective_mutable(cfg, mutable)) {
        Some(func) => valid_path(func),
        None => true,
    }
}

/// The place a named field is accessed at: on the rendered value itself
/// inside a struct, or through the variant pattern's binding.
pub open spec fn named_place(use_self: bool, ident: Seq<char>) -> FieldPlaceV {
    if use_self {
        FieldPlaceV::OwnNamed { ident }
    } else {
        FieldPlaceV::BoundNamed { ident }
    }
}

/// The place a positional field is accessed at.
pub open spec fn positional_place(use_self: bool, index: usize) -> FieldPlaceV {
    if use_self {
        FieldPlaceV::OwnPositional { index }
    } else {
        FieldPlaceV::BoundPositional { index }
    }
}

// ---------------------------------------------------------------------
// Field dispatch over a whole shape
// ---------------------------------------------------------------------
/// Whether generation succeeds for one named field: hidden fields are
/// skipped before any custom function is consulted.
pub open spec fn named_field_ok(f: NamedFieldV, mutable: bool) -> bool {
    let cfg = resolve_spec(f.attrs);
    cfg.hidden || field_ok(cfg, mutable)
}

/// The action of one visible named field.
pub open spec fn named_field_action(f: NamedFieldV, use_self: bool, mutable: bool) -> ActionV {
    let cfg = resolve_spec(f.attrs);
    field_action(cfg, f.ident, named_place(use_self, f.ident), mutable)
}

/// The ordered actions of a named-field shape: one action per non-hidden
/// field, in declaration order.
pub open spec fn named_actions(fs: Seq<NamedFieldV>, use_self: bool, mutable: bool) -> Seq<ActionV>
    decreases fs.len(),
{
    if fs.len() == 0 {
        Seq::empty()
    } else {
        let prefix = named_actions(fs.drop_last(), use_self, mutable);
        if resolve_spec(fs.last().attrs).hidden {
            prefix
        } else {
            prefix.push(named_field_action(fs.last(), use_self, mutable))
        }
    }
}

/// Generation succeeds for a named-field shape exactly when it succeeds
/// for every field.
pub open spec fn named_ok(fs: Seq<NamedFieldV>, mutable: bool) -> bool {
    forall|i: int| 0 <= i < fs.len() ==> #[trigger] named_field_ok(fs[i], mutable)
}

/// The error reported for one named field: the offending field is named by
/// its resolved label, the function by its declared reference.
pub open spec fn named_field_err(f: NamedFieldV, mutable: bool, e: GenErrorV) -> bool {
    let cfg = resolve_spec(f.attrs);
    &&& !cfg.hidden
    &&& match consulted_custom(cfg, effective_mutable(cfg, mutable)) {
        Some(func) => !valid_path(func) && e == (GenErrorV::UnresolvedFunction {
            field: display_label(cfg, f.ident),
            func,
        }),
        None => false,
    }
}

/// Some named field of the shape accounts for the reported error.
pub open spec fn named_bad_witness(fs: Seq<NamedFieldV>, mutable: bool, e: GenErrorV) -> bool {
    exists|i: int| 0 <= i < fs.len() && #[trigger] named_field_err(fs[i], mutable, e)
}

/// Whether generation succeeds for one positional field.
pub open spec fn unnamed_field_ok(f: UnnamedFieldV, mutable: bool) -> bool {
    let cfg = resolve_spec(f.attrs);
    cfg.hidden || field_ok(cfg, mutable)
}

/// The action of one visible positional field; its fallback label is the
/// synthesized ordinal of its declaration index.
pub open spec fn unnamed_field_action(
    f: UnnamedFieldV,
    index: usize,
    use_self: bool,
    mutable: bool,
) -> ActionV {
    let cfg = resolve_spec(f.attrs);
    field_action(cfg, ordinal_label(index as nat), positional_place(use_self, index), mutable)
}

/// The ordered actions of a positional-field shape.
pub open spec fn unnamed_actions(
    fs: Seq<UnnamedFieldV>,
    use_self: bool,
    mutable: bool,
) -> Seq<ActionV>
    decreases fs.len(),
{
    if fs.len() == 0 {
        Seq::empty()
    } else {
        let prefix = unnamed_actions(fs.drop_last(), use_self, mutable);
        if resolve_spec(fs.last().attrs).hidden {
            prefix
        } else {
            prefix.push(
                unnamed_field_action(fs.last(), (fs.len() - 1) as usize, use_self, mutable),
            )
        }
    }
}

/// Generation succeeds for a positional-field shape exactly when it
/// succeeds for every field.
pub open spec fn unnamed_ok(fs: Seq<UnnamedFieldV>, mutable: bool) -> bool {
    forall|i: int| 0 <= i < fs.len() ==> #[trigger] unnamed_field_ok(fs[i], mutable)
}

/// The error reported for one positional field.
pub open spec fn unnamed_field_err(
    f: UnnamedFieldV,
    index: usize,
    mutable: bool,
    e: GenErrorV,
) -> bool {
    let cfg = resolve_spec(f.attrs);
    &&& !cfg.hidden
    &&& match consulted_custom(cfg, effective_mutable(cfg, mutable)) {
        Some(func) => !valid_path(func) && e == (GenErrorV::UnresolvedFunction {
            field: display_label(cfg, ordinal_label(index as nat)),
            func,
        }),
        None => false,
    }
}

/// Some positional field of the shape accounts for the reported error.
pub open spec fn unnamed_bad_witness(fs: Seq<UnnamedFieldV>, mutable: bool, e: GenErrorV) -> bool {
    exists|i: int|
        0 <= i < fs.len() && #[trigger] unnamed_field_err(fs[i], i as usize, mutable, e)
}

/// The ordered actions of any shape; an empty shape renders nothing of its
/// own (the type's or variant's label is still emitted by the caller).
pub open spec fn fields_actions(fs: FieldsDeclV, use_self: bool, mutable: bool) -> Seq<ActionV> {
    match fs {
        FieldsDeclV::Named { fields } => named_actions(fields, use_self, mutable),
        FieldsDeclV::Unnamed { fields } => unnamed_actions(fields, use_self, mutable),
        FieldsDeclV::Unit => Seq::empty(),
    }
}

/// Whether generation succeeds for a whole shape.
pub open spec fn fields_ok(fs: FieldsDeclV, mutable: bool) -> bool {
    match fs {
        FieldsDeclV::Named { fields } => named_ok(fields, mutable),
        FieldsDeclV::Unnamed { fields } => unnamed_ok(fields, mutable),
        FieldsDeclV::Unit => true,
    }
}

/// Some field of the shape accounts for the reported error.
pub open spec fn fields_bad_witness(fs: FieldsDeclV, mutable: bool, e: GenErrorV) -> bool {
    match fs {
        FieldsDeclV::Named { fields } => named_bad_witness(fields, mutable, e),
        FieldsDeclV::Unnamed { fields } => unnamed_bad_witness(fields, mutable, e),
        FieldsDeclV::Unit => false,
    }
}

// ---------------------------------------------------------------------
// Enum generation
// ---------------------------------------------------------------------
/// The selector entry of one variant: its symbolic name, and a payload in
/// which every field is reset to its type's default.
pub open spec fn combo_option_spec(v: VariantDeclV) -> SelectorOptionV {
    SelectorOptionV {
        label: v.ident,
        payload: match v.fields {
            FieldsDeclV::Named { fields } => DefaultPayloadV::Named {
                field_names: fields.map_values(|f: NamedFieldV| f.ident),
            },
            FieldsDeclV::Unnamed { fields } => DefaultPayloadV::Positional {
                arity: fields.len() as usize,
            },
            FieldsDeclV::Unit => DefaultPayloadV::Empty,
        },
    }
}

/// The dispatch branch of one variant.
pub open spec fn variant_arm_spec(v: VariantDeclV, mutable: bool) -> VariantArmV {
    VariantArmV { tag: v.ident, actions: fields_actions(v.fields, false, mutable) }
}

/// Tag reflection: each variant's symbolic name, in declaration order.
pub open spec fn enum_tags(vs: Seq<VariantDeclV>) -> Seq<Seq<char>> {
    vs.map_values(|v: VariantDeclV| v.ident)
}

/// The selector entries, in declaration order.
pub open spec fn enum_selector(vs: Seq<VariantDeclV>) -> Seq<SelectorOptionV> {
    vs.map_values(|v: VariantDeclV| combo_option_spec(v))
}

/// The dispatch branches, in declaration order.
pub open spec fn enum_arms(vs: Seq<VariantDeclV>, mutable: bool) -> Seq<VariantArmV> {
    vs.map_values(|v: VariantDeclV| variant_arm_spec(v, mutable))
}

/// The whole enum program: the selector is present exactly in the editable
/// program.
pub open spec fn enum_program_spec(vs: Seq<VariantDeclV>, mutable: bool) -> EnumProgramV {
    EnumProgramV {
        tags: enum_tags(vs),
        selector: if mutable {
            Some(enum_selector(vs))
        } else {
            None
        },
        arms: enum_arms(vs, mutable),
    }
}

/// Whether generation succeeds for every variant's payload.
pub open spec fn enum_ok(vs: Seq<VariantDeclV>, mutable: bool) -> bool {
    forall|i: int| 0 <= i < vs.len() ==> #[trigger] variant_ok(vs[i], mutable)
}

/// Whether generation succeeds for one variant's payload.
pub open spec fn variant_ok(v: VariantDeclV, mutable: bool) -> bool {
    fields_ok(v.fields, mutable)
}

/// One variant's payload accounts for the reported error.
pub open spec fn variant_bad(v: VariantDeclV, mutable: bool, e: GenErrorV) -> bool {
    fields_bad_witness(v.fields, mutable, e)
}

/// Some variant of the enum accounts for the reported error.
pub open spec fn enum_bad_witness(vs: Seq<VariantDeclV>, mutable: bool, e: GenErrorV) -> bool {
    exists|i: int| 0 <= i < vs.len() && #[trigger] variant_bad(vs[i], mutable, e)
}

// ---------------------------------------------------------------------
// Whole-type generation
// ---------------------------------------------------------------------
/// Structural shapes the generator models: structs and enums, not unions.
pub open spec fn data_supported(d: DataDeclV) -> bool {
    !(d is Union)
}

/// The rendering program of a supported shape in the given mode.
pub open spec fn program_spec(d: DataDeclV, mutable: bool) -> ProgramV {
    match d {
        DataDeclV::Struct { fields } => ProgramV::Struct {
            fields: fields_actions(fields, true, mutable),
        },
        DataDeclV::Enum { variants } => ProgramV::Enum {
            body: enum_program_spec(variants, mutable),
        },
        DataDeclV::Union => arbitrary(),
    }
}

/// Whether generation succeeds for a supported shape in the given mode.
pub open spec fn data_ok(d: DataDeclV, mutable: bool) -> bool {
    match d {
        DataDeclV::Struct { fields } => fields_ok(fields, mutable),
        DataDeclV::Enum { variants } => enum_ok(variants, mutable),
        DataDeclV::Union => true,
    }
}

/// Some field of the type accounts for the reported error.
pub open spec fn data_bad_witness(d: DataDeclV, mutable: bool, e: GenErrorV) -> bool {
    match d {
        DataDeclV::Struct { fields } => fields_bad_witness(fields, mutable, e),
        DataDeclV::Enum { variants } => enum_bad_witness(variants, mutable, e),
        DataDeclV::Union => false,
    }
}

/// The type parameters with the inspectable-capability requirement added;
/// lifetime and const parameters are unchanged.
pub open spec fn bound_param(g: GenericParamV) -> GenericParamV {
    match g {
        GenericParamV::Type { ident, needs_inspect } => GenericParamV::Type {
            ident,
            needs_inspect: true,
        },
        _ => g,
    }
}

/// All generic parameters, bounded.
pub open spec fn add_bounds_spec(gs: Seq<GenericParamV>) -> Seq<GenericParamV> {
    gs.map_values(|g: GenericParamV| bound_param(g))
}

/// Whether generation of the whole binding succeeds: the shape is
/// supported and both passes resolve every consulted custom function.
pub open spec fn gen_ok(t: TypeDeclV) -> bool {
    &&& data_supported(t.data)
    &&& data_ok(t.data, false)
    &&& data_ok(t.data, true)
}

/// The complete binding of a type whose generation succeeds.
pub open spec fn binding_spec(t: TypeDeclV) -> BindingV {
    BindingV {
        ident: t.ident,
        generics: add_bounds_spec(t.generics),
        inspect: program_spec(t.data, false),
        inspect_mut: program_spec(t.data, true),
    }
}

// ---------------------------------------------------------------------
// Executable generation
// ---------------------------------------------------------------------
/// Clones a field place; the model value is unchanged.
fn clone_place(p: &FieldPlace) -> (r: FieldPlace)
    ensures
        r.deep_view() == p.deep_view(),
{
    match p {
        FieldPlace::OwnNamed { ident } => FieldPlace::OwnNamed { ident: ident.clone() },
        FieldPlace::OwnPositional { index } => FieldPlace::OwnPositional { index: *index },
        FieldPlace::BoundNamed { ident } => FieldPlace::BoundNamed { ident: ident.clone() },
        FieldPlace::BoundPositional { index } => FieldPlace::BoundPositional { index: *index },
    }
}

/// Standard dispatch: the call of the field value's own rendering entry
/// point, with the resolved label and widget configuration.
pub fn get_default_function_call(
    label: String,
    place: FieldPlace,
    em: bool,
    cfg: &FieldConfig,
) -> (a: Action)
    ensures
        a.deep_view() == (ActionV::Standard {
            place: place.deep_view(),
            label: label@,
            mutable: em,
            widget_kind: cfg.widget_kind,
            min_bits: cfg.min_bits,
            max_bits: cfg.max_bits,
            multiline: cfg.multiline,
        }),
{
    Action::Standard {
        place,
        label,
        mutable: em,
        widget_kind: cfg.widget_kind,
        min_bits: cfg.min_bits,
        max_bits: cfg.max_bits,
        multiline: cfg.multiline,
    }
}

/// Custom Override Resolver for one field: substitutes the consulted
/// custom function, if one is set, for the standard dispatch.  `em` says
/// whether the field is actually edited.  An ill-formed reference is a
/// generation-time error naming the field by its resolved label.
pub fn handle_custom_func(cfg: &FieldConfig, em: bool, label: &String, place: &FieldPlace) -> (r:
    Result<Option<Action>, GenError>)
    ensures
        match r {
            Ok(Some(a)) => {
                &&& consulted_custom(cfg.deep_view(), em) matches Some(func) && valid_path(func)
                    && a.deep_view() == (ActionV::Custom {
                    func,
                    place: place.deep_view(),
                    label: label@,
                    mutable: em,
                })
            },
            Ok(None) => consulted_custom(cfg.deep_view(), em) is None,
            Err(e) => {
                &&& consulted_custom(cfg.deep_view(), em) matches Some(func) && !valid_path(func)
                    && e.deep_view() == (GenErrorV::UnresolvedFunction { field: label@, func })
            },
        },
{
    let func_ref: &Option<String> = if em {
        &cfg.custom_writer
    } else {
        &cfg.custom_reader
    };
    match func_ref {
        Some(func) => {
            if check_path(func.as_str()) {
                Ok(
                    Some(
                        Action::Custom {
                            func: func.clone(),
                            place: clone_place(place),
                            label: label.clone(),
                            mutable: em,
                        },
                    ),
                )
            } else {
                Err(GenError::UnresolvedFunction { field: label.clone(), func: func.clone() })
            }
        },
        None => Ok(None),
    }
}

/// The resolved label of a field: the declared override or the fallback.
fn resolved_label(cfg: &FieldConfig, fallback: &String) -> (label: String)
    ensures
        label@ == display_label(cfg.deep_view(), fallback@),
{
    match &cfg.display_name {
        Some(n) => n.clone(),
        None => fallback.clone(),
    }
}

/// One field's contribution: `None` when hidden, otherwise its action.
fn dispatch_field(cfg: &FieldConfig, fallback: &String, place: FieldPlace, mutable: bool) -> (r:
    Result<Option<Action>, GenError>)
    ensures
        match r {
            Ok(Some(a)) => {
                &&& !cfg.deep_view().hidden
                &&& field_ok(cfg.deep_view(), mutable)
                &&& a.deep_view() == field_action(
                    cfg.deep_view(),
                    fallback@,
                    place.deep_view(),
                    mutable,
                )
            },
            Ok(None) => cfg.deep_view().hidden,
            Err(e) => {
                &&& !cfg.deep_view().hidden
                &&& !field_ok(cfg.deep_view(), mutable)
                &&& consulted_custom(
                    cfg.deep_view(),
                    effective_mutable(cfg.deep_view(), mutable),
                ) matches Some(func) && !valid_path(func) && e.deep_view()
                    == (GenErrorV::UnresolvedFunction {
                    field: display_label(cfg.deep_view(), fallback@),
                    func,
                })
            },
        },
{
    if cfg.hidden {
        return Ok(None);
    }
    let em = mutable && !cfg.editable_override;
    let label = resolved_label(cfg, fallback);
    match handle_custom_func(cfg, em, &label, &place) {
        Err(e) => Err(e),
        Ok(Some(a)) => Ok(Some(a)),
        Ok(None) => Ok(Some(get_default_function_call(label, place, em, cfg))),
    }
}

/// Field Dispatch Generator over named fields: an ordered action per
/// non-hidden field, in declaration order.
pub fn inspect_named_fields(fields: &Vec<NamedField>, use_self: bool, mutable: bool) -> (r: Result<
    Vec<Action>,
    GenError,
>)
    ensures
        match r {
            Ok(v) => named_ok(fields.deep_view(), mutable) && v.deep_view() == named_actions(
                fields.deep_view(),
                use_self,
                mutable,
            ),
            Err(e) => !named_ok(fields.deep_view(), mutable) && named_bad_witness(
                fields.deep_view(),
                mutable,
                e.deep_view(),
            ),
        },
{
    let ghost fsv = fields.deep_view();
    let mut out: Vec<Action> = Vec::new();
    let mut i: usize = 0;
    proof {
        assert(out.deep_view() =~= named_actions(fsv.take(0), use_self, mutable));
    }
    while i < fields.len()
        invariant
            i <= fields.len(),
            fsv == fields.deep_view(),
            fsv.len() == fields.len(),
            out.deep_view() == named_actions(fsv.take(i as int), use_self, mutable),
            forall|j: int| 0 <= j < i ==> #[trigger] named_field_ok(fsv[j], mutable),
        decreases fields.len() - i,
    {
        let f = &fields[i];
        let cfg = resolve(&f.attrs);
        let place = if use_self {
            FieldPlace::OwnNamed { ident: f.ident.clone() }
        } else {
            FieldPlace::BoundNamed { ident: f.ident.clone() }
        };
        match dispatch_field(&cfg, &f.ident, place, mutable) {
            Err(e) => {
                proof {
                    assert(named_field_err(fsv[i as int], mutable, e.deep_view()));
                    assert(!named_field_ok(fsv[i as int], mutable));
                }
                return Err(e);
            },
            Ok(opt) => {
                match opt {
                    Some(a) => {
                        out.push(a);
                    },
                    None => {},
                }
            },
        }
        proof {
            assert(fsv.take(i as int + 1).drop_last() =~= fsv.take(i as int));
            assert(fsv.take(i as int + 1).last() == fsv[i as int]);
        }
        i = i + 1;
    }
    proof {
        assert(fsv.take(fsv.len() as int) =~= fsv);
    }
    Ok(out)
}

/// Field Dispatch Generator over positional fields: each field's fallback
/// label is the synthesized ordinal of its declaration index.
pub fn inspect_unnamed_fields(fields: &Vec<UnnamedField>, use_self: bool, mutable: bool) -> (r:
    Result<Vec<Action>, GenError>)
    ensures
        match r {
            Ok(v) => unnamed_ok(fields.deep_view(), mutable) && v.deep_view() == unnamed_actions(
                fields.deep_view(),
                use_self,
                mutable,
            ),
            Err(e) => !unnamed_ok(fields.deep_view(), mutable) && unnamed_bad_witness(
                fields.deep_view(),
                mutable,
                e.deep_view(),
            ),
        },
{
    let ghost fsv = fields.deep_view();
    let mut out: Vec<Action> = Vec::new();
    let mut i: usize = 0;
    proof {
        assert(out.deep_view() =~= unnamed_actions(fsv.take(0), use_self, mutable));
    }
    while i < fields.len()
        invariant
            i <= fields.len(),
            fsv == fields.deep_view(),
            fsv.len() == fields.len(),
            out.deep_view() == unnamed_actions(fsv.take(i as int), use_self, mutable),
            forall|j: int| 0 <= j < i ==> #[trigger] unnamed_field_ok(fsv[j], mutable),
        decreases fields.len() - i,
    {
        let f = &fields[i];
        let cfg = resolve(&f.attrs);
        let fallback = ordinal_label_string(i);
        let place = if use_self {
            FieldPlace::OwnPositional { index: i }
        } else {
            FieldPlace::BoundPositional { index: i }
        };
        match dispatch_field(&cfg, &fallback, place, mutable) {
            Err(e) => {
                proof {
                    assert(unnamed_field_err(fsv[i as int], (i as int) as usize, mutable,
                        e.deep_view()));
                    assert(!unnamed_field_ok(fsv[i as int], mutable));
                    assert(unnamed_bad_witness(fsv, mutable, e.deep_view()));
                }
                return Err(e);
            },
            Ok(opt) => {
                match opt {
                    Some(a) => {
                        out.push(a);
                    },
                    None => {},
                }
            },
        }
        proof {
            assert(fsv.take(i as int + 1).drop_last() =~= fsv.take(i as int));
            assert(fsv.take(i as int + 1).last() == fsv[i as int]);
        }
        i = i + 1;
    }
    proof {
        assert(fsv.take(fsv.len() as int) =~= fsv);
    }
    Ok(out)
}

/// Field Dispatch Generator: dispatches on the structural shape.  An empty
/// shape yields an empty dispatch.
pub fn inspect_fields(fields: &FieldsDecl, use_self: bool, mutable: bool) -> (r: Result<
    Vec<Action>,
    GenError,
>)
    ensures
        match r {
            Ok(v) => fields_ok(fields.deep_view(), mutable) && v.deep_view() == fields_actions(
                fields.deep_view(),
                use_self,
                mutable,
            ),
            Err(e) => !fields_ok(fields.deep_view(), mutable) && fields_bad_witness(
                fields.deep_view(),
                mutable,
                e.deep_view(),
            ),
        },
{
    match fields {
        FieldsDecl::Named { fields } => inspect_named_fields(fields, use_self, mutable),
        FieldsDecl::Unnamed { fields } => inspect_unnamed_fields(fields, use_self, mutable),
        FieldsDecl::Unit => {
            let out: Vec<Action> = Vec::new();
            proof {
                assert(out.deep_view() =~= Seq::<ActionV>::empty());
            }
            Ok(out)
        },
    }
}

/// Tag reflection for one variant: its symbolic name, used as a label.
pub fn variant_name_arm(v: &VariantDecl) -> (tag: String)
    ensures
        tag@ == v.deep_view().ident,
{
    v.ident.clone()
}

/// The selector entry of one variant: choosing it replaces the instance
/// with a freshly default-constructed instance of that variant — every
/// payload field reset to its type's default, nothing carried over.
pub fn variant_combo(v: &VariantDecl) -> (o: SelectorOption)
    ensures
        o.deep_view() == combo_option_spec(v.deep_view()),
{
    let payload = match &v.fields {
        FieldsDecl::Named { fields } => {
            let ghost fsv = fields.deep_view();
            let mut names: Vec<String> = Vec::new();
            let mut i: usize = 0;
            proof {
                assert(names.deep_view() =~= fsv.take(0).map_values(|f: NamedFieldV| f.ident));
            }
            while i < fields.len()
                invariant
                    i <= fields.len(),
                    fsv == fields.deep_view(),
                    fsv.len() == fields.len(),
                    names.deep_view() == fsv.take(i as int).map_values(
                        |f: NamedFieldV| f.ident,
                    ),
                decreases fields.len() - i,
            {
                names.push(fields[i].ident.clone());
                proof {
                    assert(fsv.take(i as int + 1).map_values(|f: NamedFieldV| f.ident)
                        =~= fsv.take(i as int).map_values(|f: NamedFieldV| f.ident).push(
                        fsv[i as int].ident,
                    ));
                }
                i = i + 1;
            }
            proof {
                assert(fsv.take(fsv.len() as int) =~= fsv);
            }
            DefaultPayload::Named { field_names: names }
        },
        FieldsDecl::Unnamed { fields } => DefaultPayload::Positional { arity: fields.len() },
        FieldsDecl::Unit => DefaultPayload::Empty,
    };
    SelectorOption { label: v.ident.clone(), payload }
}

/// The dispatch branch of one variant, active only while that variant is
/// selected.
pub fn variant_inspect_arm(v: &VariantDecl, mutable: bool) -> (r: Result<VariantArm, GenError>)
    ensures
        match r {
            Ok(arm) => variant_ok(v.deep_view(), mutable) && arm.deep_view() == variant_arm_spec(
                v.deep_view(),
                mutable,
            ),
            Err(e) => !variant_ok(v.deep_view(), mutable) && variant_bad(
                v.deep_view(),
                mutable,
                e.deep_view(),
            ),
        },
{
    match inspect_fields(&v.fields, false, mutable) {
        Ok(actions) => Ok(VariantArm { tag: v.ident.clone(), actions }),
        Err(e) => Err(e),
    }
}

/// Enum Variant Generator: tag reflection, the selector in editable mode,
/// and one dispatch branch per variant, all in declaration order.
pub fn inspect_enum(variants: &Vec<VariantDecl>, mutable: bool) -> (r: Result<
    EnumProgram,
    GenError,
>)
    ensures
        match r {
            Ok(p) => enum_ok(variants.deep_view(), mutable) && p.deep_view() == enum_program_spec(
                variants.deep_view(),
                mutable,
            ),
            Err(e) => !enum_ok(variants.deep_view(), mutable) && enum_bad_witness(
                variants.deep_view(),
                mutable,
                e.deep_view(),
            ),
        },
{
    let ghost vsv = variants.deep_view();
    let mut tags: Vec<String> = Vec::new();
    let mut i: usize = 0;
    proof {
        assert(tags.deep_view() =~= enum_tags(vsv.take(0)));
    }
    while i < variants.len()
        invariant
            i <= variants.len(),
            vsv == variants.deep_view(),
            vsv.len() == variants.len(),
            tags.deep_view() == enum_tags(vsv.take(i as int)),
        decreases variants.len() - i,
    {
        tags.push(variant_name_arm(&variants[i]));
        proof {
            assert(enum_tags(vsv.take(i as int + 1)) =~= enum_tags(vsv.take(i as int)).push(
                vsv[i as int].ident,
            ));
        }
        i = i + 1;
    }
    let selector: Option<Vec<SelectorOption>> = if mutable {
        let mut opts: Vec<SelectorOption> = Vec::new();
        let mut k: usize = 0;
        proof {
            assert(opts.deep_view() =~= enum_selector(vsv.take(0)));
        }
        while k < variants.len()
            invariant
                k <= variants.len(),
                vsv == variants.deep_view(),
                vsv.len() == variants.len(),
                opts.deep_view() == enum_selector(vsv.take(k as int)),
            decreases variants.len() - k,
        {
            opts.push(variant_combo(&variants[k]));
            proof {
                assert(enum_selector(vsv.take(k as int + 1)) =~= enum_selector(
                    vsv.take(k as int),
                ).push(combo_option_spec(vsv[k as int])));
            }
            k = k + 1;
        }
        proof {
            assert(vsv.take(vsv.len() as int) =~= vsv);
        }
        Some(opts)
    } else {
        None
    };
    let mut arms: Vec<VariantArm> = Vec::new();
    let mut m: usize = 0;
    proof {
        assert(arms.deep_view() =~= enum_arms(vsv.take(0), mutable));
    }
    while m < variants.len()
        invariant
            m <= variants.len(),
            vsv == variants.deep_view(),
            vsv.len() == variants.len(),
            arms.deep_view() == enum_arms(vsv.take(m as int), mutable),
            forall|j: int| 0 <= j < m ==> #[trigger] variant_ok(vsv[j], mutable),
        decreases variants.len() - m,
    {
        match variant_inspect_arm(&variants[m], mutable) {
            Ok(arm) => {
                arms.push(arm);
            },
            Err(e) => {
                proof {
                    assert(variant_bad(vsv[m as int], mutable, e.deep_view()));
                }
                return Err(e);
            },
        }
        proof {
            assert(enum_arms(vsv.take(m as int + 1), mutable) =~= enum_arms(
                vsv.take(m as int),
                mutable,
            ).push(variant_arm_spec(vsv[m as int], mutable)));
        }
        m = m + 1;
    }
    proof {
        assert(vsv.take(vsv.len() as int) =~= vsv);
    }
    Ok(EnumProgram { tags, selector, arms })
}

/// Binding Emitter for one mode: the rendering program of a struct or an
/// enum body; a union is an unsupported structural shape and is rejected
/// outright.
pub fn inspect_data(data: &DataDecl, mutable: bool) -> (r: Result<Program, GenError>)
    ensures
        match r {
            Ok(p) => {
                &&& data_supported(data.deep_view())
                &&& data_ok(data.deep_view(), mutable)
                &&& p.deep_view() == program_spec(data.deep_view(), mutable)
            },
            Err(e) => {
                &&& !(data_supported(data.deep_view()) && data_ok(data.deep_view(), mutable))
                &&& (e.deep_view() is UnsupportedShape <==> !data_supported(data.deep_view()))
                &&& (e.deep_view() is UnresolvedFunction ==> data_bad_witness(
                    data.deep_view(),
                    mutable,
                    e.deep_view(),
                ))
            },
        },
{
    match data {
        DataDecl::Struct { fields } => {
            match inspect_fields(fields, true, mutable) {
                Ok(actions) => Ok(Program::Struct { fields: actions }),
                Err(e) => Err(e),
            }
        },
        DataDecl::Enum { variants } => {
            match inspect_enum(variants, mutable) {
                Ok(body) => Ok(Program::Enum { body }),
                Err(e) => Err(e),
            }
        },
        DataDecl::Union => Err(GenError::UnsupportedShape),
    }
}

/// Adds the inspectable-capability requirement to every type parameter;
/// lifetime and const parameters pass through unchanged.
pub fn add_trait_bounds(generics: &Vec<GenericParam>) -> (r: Vec<GenericParam>)
    ensures
        r.deep_view() == add_bounds_spec(generics.deep_view()),
{
    let ghost gsv = generics.deep_view();
    let mut out: Vec<GenericParam> = Vec::new();
    let mut i: usize = 0;
    proof {
        assert(out.deep_view() =~= add_bounds_spec(gsv.take(0)));
    }
    while i < generics.len()
        invariant
            i <= generics.len(),
            gsv == generics.deep_view(),
            gsv.len() == generics.len(),
            out.deep_view() == add_bounds_spec(gsv.take(i as int)),
        decreases generics.len() - i,
    {
        let bounded = match &generics[i] {
            GenericParam::Type { ident, needs_inspect } => GenericParam::Type {
                ident: ident.clone(),
                needs_inspect: true,
            },
            GenericParam::Lifetime { ident } => GenericParam::Lifetime { ident: ident.clone() },
            GenericParam::Const { ident } => GenericParam::Const { ident: ident.clone() },
        };
        out.push(bounded);
        proof {
            assert(add_bounds_spec(gsv.take(i as int + 1)) =~= add_bounds_spec(
                gsv.take(i as int),
            ).push(bound_param(gsv[i as int])));
        }
        i = i + 1;
    }
    proof {
        assert(gsv.take(gsv.len() as int) =~= gsv);
    }
    out
}

/// Binding Emitter: the complete binding for a type — the read-only and
/// the editable rendering program, sharing all resolution logic, plus the
/// bounded generic parameters.  Generation aborts on the first ill-formed
/// custom-function reference or unsupported shape; there is no partial
/// output.
pub fn derive_egui_inspect(input: &TypeDecl) -> (r: Result<Binding, GenError>)
    ensures
        match r {
            Ok(b) => gen_ok(input.deep_view()) && b.deep_view() == binding_spec(input.deep_view()),
            Err(e) => {
                &&& !gen_ok(input.deep_view())
                &&& (e.deep_view() is UnsupportedShape <==> !data_supported(
                    input.deep_view().data,
                ))
                &&& (e.deep_view() is UnresolvedFunction ==> data_bad_witness(
                    input.deep_view().data,
                    false,
                    e.deep_view(),
                ) || data_bad_witness(input.deep_view().data, true, e.deep_view()))
            },
        },
{
    let generics = add_trait_bounds(&input.generics);
    let inspect = match inspect_data(&input.data, false) {
        Ok(p) => p,
        Err(e) => {
            return Err(e);
        },
    };
    let inspect_mut = match inspect_data(&input.data, true) {
        Ok(p) => p,
        Err(e) => {
            return Err(e);
        },
    };
    Ok(Binding { ident: input.ident.clone(), generics, inspect, inspect_mut })
}

} // verus!
