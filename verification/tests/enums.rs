use inspect_gen::config::FieldAttrs;
use inspect_gen::generate::derive_egui_inspect;
use inspect_gen::program::{Action, DefaultPayload, EnumProgram, FieldPlace, Program};
use inspect_gen::schema::{
    DataDecl, FieldsDecl, NamedField, TypeDecl, UnnamedField, VariantDecl,
};

/// An enum with variants Idle (no payload), Active { count } and
/// Failed(two positional fields).
fn status_decl() -> TypeDecl {
    TypeDecl {
        ident: "Status".to_string(),
        generics: vec![],
        data: DataDecl::Enum {
            variants: vec![
                VariantDecl { ident: "Idle".to_string(), fields: FieldsDecl::Unit },
                VariantDecl {
                    ident: "Active".to_string(),
                    fields: FieldsDecl::Named {
                        fields: vec![NamedField {
                            ident: "count".to_string(),
                            attrs: FieldAttrs::default(),
                        }],
                    },
                },
                VariantDecl {
                    ident: "Failed".to_string(),
                    fields: FieldsDecl::Unnamed {
                        fields: vec![
                            UnnamedField { attrs: FieldAttrs::default() },
                            UnnamedField { attrs: FieldAttrs::default() },
                        ],
                    },
                },
            ],
        },
    }
}

fn enum_body(p: &Program) -> &EnumProgram {
    match p {
        Program::Enum { body } => body,
        Program::Struct { .. } => panic!("expected an enum program"),
    }
}

#[test]
fn read_only_program_reflects_tags_and_has_no_selector() {
    let binding = derive_egui_inspect(&status_decl()).expect("generation succeeds");
    let body = enum_body(&binding.inspect);
    assert_eq!(body.tags, vec!["Idle", "Active", "Failed"]);
    assert!(body.selector.is_none());
    assert_eq!(body.arms.len(), 3);
}

#[test]
fn active_arm_renders_its_single_numeric_field() {
    let binding = derive_egui_inspect(&status_decl()).expect("generation succeeds");
    let body = enum_body(&binding.inspect);
    assert_eq!(body.arms[0].tag, "Idle");
    assert!(body.arms[0].actions.is_empty());
    assert_eq!(body.arms[1].tag, "Active");
    assert_eq!(body.arms[1].actions.len(), 1);
    match &body.arms[1].actions[0] {
        Action::Standard { place, label, mutable, .. } => {
            assert_eq!(label, "count");
            assert!(!*mutable);
            match place {
                FieldPlace::BoundNamed { ident } => assert_eq!(ident, "count"),
                _ => panic!("expected a binding of the variant pattern"),
            }
        }
        Action::Custom { .. } => panic!("expected standard dispatch"),
    }
}

#[test]
fn failed_arm_renders_both_positional_fields() {
    let binding = derive_egui_inspect(&status_decl()).expect("generation succeeds");
    let body = enum_body(&binding.inspect_mut);
    assert_eq!(body.arms[2].tag, "Failed");
    assert_eq!(body.arms[2].actions.len(), 2);
    for (i, expected) in ["Field 0", "Field 1"].iter().enumerate() {
        match &body.arms[2].actions[i] {
            Action::Standard { place, label, mutable, .. } => {
                assert_eq!(label, expected);
                assert!(*mutable);
                match place {
                    FieldPlace::BoundPositional { index } => assert_eq!(*index, i),
                    _ => panic!("expected a positional binding"),
                }
            }
            Action::Custom { .. } => panic!("expected standard dispatch"),
        }
    }
}

#[test]
fn editable_program_offers_a_three_option_selector() {
    let binding = derive_egui_inspect(&status_decl()).expect("generation succeeds");
    let body = enum_body(&binding.inspect_mut);
    let selector = body.selector.as_ref().expect("editable mode renders a selector");
    assert_eq!(selector.len(), 3);
    assert_eq!(selector[0].label, "Idle");
    assert_eq!(selector[1].label, "Active");
    assert_eq!(selector[2].label, "Failed");
}

#[test]
fn choosing_a_variant_resets_its_payload_to_defaults() {
    let binding = derive_egui_inspect(&status_decl()).expect("generation succeeds");
    let body = enum_body(&binding.inspect_mut);
    let selector = body.selector.as_ref().expect("editable mode renders a selector");
    match &selector[0].payload {
        DefaultPayload::Empty => {}
        _ => panic!("Idle carries no payload"),
    }
    match &selector[1].payload {
        DefaultPayload::Named { field_names } => {
            assert_eq!(field_names, &vec!["count".to_string()])
        }
        _ => panic!("Active resets its named fields to defaults"),
    }
    // Choosing "Failed" replaces the instance with both positional fields
    // default-constructed.
    match &selector[2].payload {
        DefaultPayload::Positional { arity } => assert_eq!(*arity, 2),
        _ => panic!("Failed resets both positional fields to defaults"),
    }
}

#[test]
fn hidden_variant_fields_are_skipped_inside_arms() {
    let mut hidden = FieldAttrs::default();
    hidden.hidden = Some(true);
    let decl = TypeDecl {
        ident: "Wrap".to_string(),
        generics: vec![],
        data: DataDecl::Enum {
            variants: vec![VariantDecl {
                ident: "Only".to_string(),
                fields: FieldsDecl::Named {
                    fields: vec![
                        NamedField { ident: "shown".to_string(), attrs: FieldAttrs::default() },
                        NamedField { ident: "secret".to_string(), attrs: hidden },
                    ],
                },
            }],
        },
    };
    let binding = derive_egui_inspect(&decl).expect("generation succeeds");
    let body = enum_body(&binding.inspect);
    assert_eq!(body.arms[0].actions.len(), 1);
    // The selector still resets every declared field, hidden or not:
    // reset is about the instance, not about what is rendered.
    let editable = enum_body(&binding.inspect_mut);
    let selector = editable.selector.as_ref().expect("selector present");
    match &selector[0].payload {
        DefaultPayload::Named { field_names } => {
            assert_eq!(field_names, &vec!["shown".to_string(), "secret".to_string()]);
        }
        _ => panic!("expected named defaults"),
    }
}
