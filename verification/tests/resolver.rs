use inspect_gen::config::{resolve, FieldAttrs, FieldConfig, WidgetKind};
use inspect_gen::labels::{decimal_string, ordinal_label_string};
use inspect_gen::paths::check_path;
use inspect_gen::schema::{get_path_str, DeclaredType};

#[test]
fn default_record_matches_fixed_defaults() {
    let cfg = FieldConfig::default();
    assert!(cfg.display_name.is_none());
    assert!(!cfg.hidden);
    assert!(!cfg.editable_override);
    assert_eq!(cfg.widget_kind, WidgetKind::Slider);
    assert_eq!(cfg.min_bits, 0.0f32.to_bits());
    assert_eq!(cfg.max_bits, 100.0f32.to_bits());
    assert!(!cfg.multiline);
    assert!(cfg.custom_reader.is_none());
    assert!(cfg.custom_writer.is_none());
}

#[test]
fn resolving_no_overrides_gives_the_default_record() {
    let cfg = resolve(&FieldAttrs::default());
    let dft = FieldConfig::default();
    assert_eq!(cfg.display_name, dft.display_name);
    assert_eq!(cfg.hidden, dft.hidden);
    assert_eq!(cfg.editable_override, dft.editable_override);
    assert_eq!(cfg.widget_kind, dft.widget_kind);
    assert_eq!(cfg.min_bits, dft.min_bits);
    assert_eq!(cfg.max_bits, dft.max_bits);
    assert_eq!(cfg.multiline, dft.multiline);
    assert_eq!(cfg.custom_reader, dft.custom_reader);
    assert_eq!(cfg.custom_writer, dft.custom_writer);
}

#[test]
fn declared_overrides_win_over_defaults() {
    let mut a = FieldAttrs::default();
    a.display_name = Some("Count".to_string());
    a.hidden = Some(false);
    a.editable_override = Some(true);
    a.slider = Some(false);
    a.min_bits = Some(12.0f32.to_bits());
    a.max_bits = Some(53.0f32.to_bits());
    a.multiline = Some(true);
    a.custom_reader = Some("paint::show".to_string());
    let cfg = resolve(&a);
    assert_eq!(cfg.display_name.as_deref(), Some("Count"));
    assert!(!cfg.hidden);
    assert!(cfg.editable_override);
    assert_eq!(cfg.widget_kind, WidgetKind::Plain);
    assert_eq!(cfg.min_bits, 12.0f32.to_bits());
    assert_eq!(cfg.max_bits, 53.0f32.to_bits());
    assert!(cfg.multiline);
    assert_eq!(cfg.custom_reader.as_deref(), Some("paint::show"));
    assert!(cfg.custom_writer.is_none());
}

#[test]
fn slider_defaults_on_and_turns_off_explicitly() {
    let absent = resolve(&FieldAttrs::default());
    assert_eq!(absent.widget_kind, WidgetKind::Slider);
    let mut on = FieldAttrs::default();
    on.slider = Some(true);
    assert_eq!(resolve(&on).widget_kind, WidgetKind::Slider);
    let mut off = FieldAttrs::default();
    off.slider = Some(false);
    assert_eq!(resolve(&off).widget_kind, WidgetKind::Plain);
}

#[test]
fn function_references_are_checked_as_paths() {
    assert!(check_path("show"));
    assert!(check_path("my_mod::draw2"));
    assert!(check_path("a::b::c"));
    assert!(check_path("_private"));
    assert!(!check_path(""));
    assert!(!check_path("3ab"));
    assert!(!check_path("a::"));
    assert!(!check_path("::a"));
    assert!(!check_path("a:b"));
    assert!(!check_path("a b"));
    assert!(!check_path("a::b!"));
}

#[test]
fn ordinal_labels_render_the_declaration_index() {
    assert_eq!(ordinal_label_string(0), "Field 0");
    assert_eq!(ordinal_label_string(1), "Field 1");
    assert_eq!(ordinal_label_string(10), "Field 10");
    assert_eq!(decimal_string(905), "905");
    assert_eq!(decimal_string(0), "0");
}

#[test]
fn path_str_extracts_the_base_identifier() {
    let plain = DeclaredType::Path { segments: vec!["u32".to_string()] };
    assert_eq!(get_path_str(&plain).as_deref(), Some("u32"));
    let long = DeclaredType::Path {
        segments: vec!["std".to_string(), "string".to_string(), "String".to_string()],
    };
    assert_eq!(get_path_str(&long), None);
    let reference = DeclaredType::Reference {
        inner: Box::new(DeclaredType::Path { segments: vec!["str".to_string()] }),
    };
    assert_eq!(get_path_str(&reference).as_deref(), Some("str"));
    let other = DeclaredType::Other;
    assert_eq!(get_path_str(&other).as_deref(), Some(""));
}
