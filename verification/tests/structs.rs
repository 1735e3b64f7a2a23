use inspect_gen::config::{FieldAttrs, WidgetKind};
use inspect_gen::generate::{add_trait_bounds, derive_egui_inspect};
use inspect_gen::program::{Action, FieldPlace, GenError, Program};
use inspect_gen::schema::{DataDecl, FieldsDecl, GenericParam, NamedField, TypeDecl, UnnamedField};

fn named(ident: &str, attrs: FieldAttrs) -> NamedField {
    NamedField { ident: ident.to_string(), attrs }
}

fn struct_decl(ident: &str, fields: Vec<NamedField>) -> TypeDecl {
    TypeDecl {
        ident: ident.to_string(),
        generics: vec![],
        data: DataDecl::Struct { fields: FieldsDecl::Named { fields } },
    }
}

fn struct_fields(p: &Program) -> &Vec<Action> {
    match p {
        Program::Struct { fields } => fields,
        Program::Enum { .. } => panic!("expected a struct program"),
    }
}

fn action_label(a: &Action) -> &str {
    match a {
        Action::Standard { label, .. } => label,
        Action::Custom { label, .. } => label,
    }
}

#[test]
fn scenario_bounded_slider_hidden_and_forced_read_only() {
    let mut a = FieldAttrs::default();
    a.display_name = Some("Count".to_string());
    a.slider = Some(true);
    a.min_bits = Some(12.0f32.to_bits());
    a.max_bits = Some(53.0f32.to_bits());
    let mut b = FieldAttrs::default();
    b.hidden = Some(true);
    let mut c = FieldAttrs::default();
    c.editable_override = Some(true);
    let decl = struct_decl("Settings", vec![named("a", a), named("b", b), named("c", c)]);
    let binding = derive_egui_inspect(&decl).expect("generation succeeds");
    assert_eq!(binding.ident, "Settings");

    // b is omitted entirely in both modes.
    let ro = struct_fields(&binding.inspect);
    let ed = struct_fields(&binding.inspect_mut);
    assert_eq!(ro.len(), 2);
    assert_eq!(ed.len(), 2);

    // a renders as a bounded slider labeled "Count".
    match &ro[0] {
        Action::Standard { place, label, mutable, widget_kind, min_bits, max_bits, .. } => {
            assert_eq!(label, "Count");
            assert!(!*mutable);
            assert_eq!(*widget_kind, WidgetKind::Slider);
            assert_eq!(*min_bits, 12.0f32.to_bits());
            assert_eq!(*max_bits, 53.0f32.to_bits());
            match place {
                FieldPlace::OwnNamed { ident } => assert_eq!(ident, "a"),
                _ => panic!("expected a field of the value itself"),
            }
        }
        Action::Custom { .. } => panic!("expected standard dispatch"),
    }
    match &ed[0] {
        Action::Standard { label, mutable, .. } => {
            assert_eq!(label, "Count");
            assert!(*mutable);
        }
        Action::Custom { .. } => panic!("expected standard dispatch"),
    }

    // c renders read-only in both programs.
    match &ro[1] {
        Action::Standard { label, mutable, .. } => {
            assert_eq!(label, "c");
            assert!(!*mutable);
        }
        Action::Custom { .. } => panic!("expected standard dispatch"),
    }
    match &ed[1] {
        Action::Standard { label, mutable, .. } => {
            assert_eq!(label, "c");
            assert!(!*mutable);
        }
        Action::Custom { .. } => panic!("expected standard dispatch"),
    }
}

#[test]
fn rendering_order_follows_declaration_order() {
    let decl = struct_decl(
        "Pair",
        vec![named("first", FieldAttrs::default()), named("second", FieldAttrs::default())],
    );
    let binding = derive_egui_inspect(&decl).expect("generation succeeds");
    let labels: Vec<&str> = struct_fields(&binding.inspect).iter().map(action_label).collect();
    assert_eq!(labels, vec!["first", "second"]);

    let swapped = struct_decl(
        "Pair",
        vec![named("second", FieldAttrs::default()), named("first", FieldAttrs::default())],
    );
    let binding2 = derive_egui_inspect(&swapped).expect("generation succeeds");
    let labels2: Vec<&str> = struct_fields(&binding2.inspect).iter().map(action_label).collect();
    assert_eq!(labels2, vec!["second", "first"]);
}

#[test]
fn custom_writer_replaces_standard_dispatch_in_editable_mode() {
    let mut a = FieldAttrs::default();
    a.custom_writer = Some("paint::write".to_string());
    a.custom_reader = Some("paint::show".to_string());
    let decl = struct_decl("Doc", vec![named("body", a)]);
    let binding = derive_egui_inspect(&decl).expect("generation succeeds");

    // Editable mode invokes exactly the writer, mutably.
    match &struct_fields(&binding.inspect_mut)[0] {
        Action::Custom { func, label, mutable, .. } => {
            assert_eq!(func, "paint::write");
            assert_eq!(label, "body");
            assert!(*mutable);
        }
        Action::Standard { .. } => panic!("expected the custom writer"),
    }

    // Read-only mode invokes the reader.
    match &struct_fields(&binding.inspect)[0] {
        Action::Custom { func, mutable, .. } => {
            assert_eq!(func, "paint::show");
            assert!(!*mutable);
        }
        Action::Standard { .. } => panic!("expected the custom reader"),
    }
}

#[test]
fn reader_alone_falls_back_to_standard_dispatch_when_editable() {
    let mut a = FieldAttrs::default();
    a.custom_reader = Some("paint::show".to_string());
    let decl = struct_decl("Doc", vec![named("body", a)]);
    let binding = derive_egui_inspect(&decl).expect("generation succeeds");
    match &struct_fields(&binding.inspect_mut)[0] {
        Action::Standard { mutable, .. } => assert!(*mutable),
        Action::Custom { .. } => panic!("the reader must not leak into editable dispatch"),
    }
    match &struct_fields(&binding.inspect)[0] {
        Action::Custom { func, .. } => assert_eq!(func, "paint::show"),
        Action::Standard { .. } => panic!("expected the custom reader"),
    }
}

#[test]
fn forced_read_only_field_uses_the_reader_even_when_editable() {
    let mut a = FieldAttrs::default();
    a.editable_override = Some(true);
    a.custom_reader = Some("paint::show".to_string());
    a.custom_writer = Some("paint::write".to_string());
    let decl = struct_decl("Doc", vec![named("body", a)]);
    let binding = derive_egui_inspect(&decl).expect("generation succeeds");
    for program in [&binding.inspect, &binding.inspect_mut] {
        match &struct_fields(program)[0] {
            Action::Custom { func, mutable, .. } => {
                assert_eq!(func, "paint::show");
                assert!(!*mutable);
            }
            Action::Standard { .. } => panic!("expected the custom reader"),
        }
    }
}

#[test]
fn round_trip_visits_every_field_once_with_matching_labels() {
    let plain = struct_decl(
        "Triple",
        vec![
            named("x", FieldAttrs::default()),
            named("y", FieldAttrs::default()),
            named("z", FieldAttrs::default()),
        ],
    );
    let binding = derive_egui_inspect(&plain).expect("generation succeeds");
    let ro: Vec<&str> = struct_fields(&binding.inspect).iter().map(action_label).collect();
    assert_eq!(ro, vec!["x", "y", "z"]);

    let mut fx = FieldAttrs::default();
    fx.editable_override = Some(true);
    let mut fy = FieldAttrs::default();
    fy.editable_override = Some(true);
    let mut fz = FieldAttrs::default();
    fz.editable_override = Some(true);
    let forced = struct_decl("Triple", vec![named("x", fx), named("y", fy), named("z", fz)]);
    let binding2 = derive_egui_inspect(&forced).expect("generation succeeds");
    let ed: Vec<&str> = struct_fields(&binding2.inspect_mut).iter().map(action_label).collect();
    assert_eq!(ed, ro);
}

#[test]
fn positional_fields_get_ordinal_labels_and_places() {
    let decl = TypeDecl {
        ident: "Tuple".to_string(),
        generics: vec![],
        data: DataDecl::Struct {
            fields: FieldsDecl::Unnamed {
                fields: vec![
                    UnnamedField { attrs: FieldAttrs::default() },
                    UnnamedField { attrs: FieldAttrs::default() },
                ],
            },
        },
    };
    let binding = derive_egui_inspect(&decl).expect("generation succeeds");
    let fields = struct_fields(&binding.inspect);
    assert_eq!(fields.len(), 2);
    for (i, expected) in ["Field 0", "Field 1"].iter().enumerate() {
        match &fields[i] {
            Action::Standard { place, label, .. } => {
                assert_eq!(label, expected);
                match place {
                    FieldPlace::OwnPositional { index } => assert_eq!(*index, i),
                    _ => panic!("expected a positional place"),
                }
            }
            Action::Custom { .. } => panic!("expected standard dispatch"),
        }
    }
}

#[test]
fn hidden_positional_field_is_skipped_but_keeps_later_ordinals() {
    let mut h = FieldAttrs::default();
    h.hidden = Some(true);
    let decl = TypeDecl {
        ident: "Tuple".to_string(),
        generics: vec![],
        data: DataDecl::Struct {
            fields: FieldsDecl::Unnamed {
                fields: vec![
                    UnnamedField { attrs: h },
                    UnnamedField { attrs: FieldAttrs::default() },
                ],
            },
        },
    };
    let binding = derive_egui_inspect(&decl).expect("generation succeeds");
    let fields = struct_fields(&binding.inspect);
    assert_eq!(fields.len(), 1);
    assert_eq!(action_label(&fields[0]), "Field 1");
}

#[test]
fn ill_formed_custom_reference_aborts_generation() {
    let mut a = FieldAttrs::default();
    a.display_name = Some("Body".to_string());
    a.custom_reader = Some("not a path!".to_string());
    let decl = struct_decl("Doc", vec![named("body", a)]);
    match derive_egui_inspect(&decl) {
        Err(GenError::UnresolvedFunction { field, func }) => {
            assert_eq!(field, "Body");
            assert_eq!(func, "not a path!");
        }
        _ => panic!("expected an unresolved-function error"),
    }
}

#[test]
fn ill_formed_writer_fails_only_the_editable_pass_but_still_aborts() {
    let mut a = FieldAttrs::default();
    a.custom_writer = Some("::broken".to_string());
    let decl = struct_decl("Doc", vec![named("body", a)]);
    match derive_egui_inspect(&decl) {
        Err(GenError::UnresolvedFunction { field, func }) => {
            assert_eq!(field, "body");
            assert_eq!(func, "::broken");
        }
        _ => panic!("expected an unresolved-function error"),
    }
}

#[test]
fn hidden_field_with_ill_formed_reference_is_never_consulted() {
    let mut a = FieldAttrs::default();
    a.hidden = Some(true);
    a.custom_reader = Some("not a path!".to_string());
    let decl = struct_decl("Doc", vec![named("body", a)]);
    let binding = derive_egui_inspect(&decl).expect("hidden fields are skipped first");
    assert_eq!(struct_fields(&binding.inspect).len(), 0);
}

#[test]
fn unions_are_rejected_outright() {
    let decl = TypeDecl {
        ident: "Raw".to_string(),
        generics: vec![],
        data: DataDecl::Union,
    };
    match derive_egui_inspect(&decl) {
        Err(GenError::UnsupportedShape) => {}
        _ => panic!("expected the unsupported-shape error"),
    }
}

#[test]
fn type_parameters_get_the_inspect_requirement() {
    let generics = vec![
        GenericParam::Type { ident: "T".to_string(), needs_inspect: false },
        GenericParam::Lifetime { ident: "a".to_string() },
        GenericParam::Const { ident: "N".to_string() },
    ];
    let bounded = add_trait_bounds(&generics);
    assert_eq!(bounded.len(), 3);
    match &bounded[0] {
        GenericParam::Type { ident, needs_inspect } => {
            assert_eq!(ident, "T");
            assert!(*needs_inspect);
        }
        _ => panic!("expected a type parameter"),
    }
    match &bounded[1] {
        GenericParam::Lifetime { ident } => assert_eq!(ident, "a"),
        _ => panic!("expected a lifetime parameter"),
    }
    match &bounded[2] {
        GenericParam::Const { ident } => assert_eq!(ident, "N"),
        _ => panic!("expected a const parameter"),
    }
}
