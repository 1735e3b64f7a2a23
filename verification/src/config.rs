//! Per-field configuration: raw declared overrides and their resolution
//! against the fixed default record.

use vstd::prelude::*;

verus! {

/// How a numeric field is edited: a plain editor or a bounded slider.
#[derive(Clone, Copy, Debug, PartialEq, Eq, Structural)]
pub enum WidgetKind {
    Plain,
    Slider,
}

/// Bit pattern of the IEEE 754 single-precision value 0.0, the default
/// lower bound for numeric widgets.  Bounds are carried as bit patterns;
/// the host converts them to its floating-point type.
pub const DEFAULT_MIN_BITS: u32 = 0x0000_0000;

/// Bit pattern of the IEEE 754 single-precision value 100.0, the default
/// upper bound for numeric widgets.
pub const DEFAULT_MAX_BITS: u32 = 0x42C8_0000;

/// Raw per-field overrides as declared on a field.  Every option is
/// absent unless the declaration sets it.
pub struct FieldAttrs {
    /// Overrides the field's structural name in UI labels.
    pub display_name: Option<String>,
    /// Excludes the field from both rendering programs.
    pub hidden: Option<bool>,
    /// Forces the field to render read-only even in the editable program.
    pub editable_override: Option<bool>,
    /// Slider-style editing for numeric fields (`true`) or plain editing
    /// (`false`).
    pub slider: Option<bool>,
    /// Lower numeric bound, as an IEEE 754 single-precision bit pattern.
    pub min_bits: Option<u32>,
    /// Upper numeric bound, as an IEEE 754 single-precision bit pattern.
    pub max_bits: Option<u32>,
    /// Text fields render as multi-line editors.
    pub multiline: Option<bool>,
    /// Path of a function that replaces standard read-only rendering.
    pub custom_reader: Option<String>,
    /// Path of a function that replaces standard editable rendering.
    pub custom_writer: Option<String>,
}

/// Mathematical model of `FieldAttrs`.
pub struct FieldAttrsV {
    pub display_name: Option<Seq<char>>,
    pub hidden: Option<bool>,
    pub editable_override: Option<bool>,
    pub slider: Option<bool>,
    pub min_bits: Option<u32>,
    pub max_bits: Option<u32>,
    pub multiline: Option<bool>,
    pub custom_reader: Option<Seq<char>>,
    pub custom_writer: Option<Seq<char>>,
}

impl DeepView for FieldAttrs {
    type V = FieldAttrsV;

    open spec fn deep_view(&self) -> FieldAttrsV {
        FieldAttrsV {
            display_name: self.display_name.deep_view(),
            hidden: self.hidden,
            editable_override: self.editable_override,
            slider: self.slider,
            min_bits: self.min_bits,
            max_bits: self.max_bits,
            multiline: self.multiline,
            custom_reader: self.custom_reader.deep_view(),
            custom_writer: self.custom_writer.deep_view(),
        }
    }
}

/// The attribute record with nothing declared: every option absent.
pub open spec fn absent_attrs() -> FieldAttrsV {
    FieldAttrsV {
        display_name: None,
        hidden: None,
        editable_override: None,
        slider: None,
        min_bits: None,
        max_bits: None,
        multiline: None,
        custom_reader: None,
        custom_writer: None,
    }
}

impl Default for FieldAttrs {
    /// A declaration that sets no option at all.
    fn default() -> (a: Self)
        ensures
            a.deep_view() == absent_attrs(),
    {
        FieldAttrs {
            display_name: None,
            hidden: None,
            editable_override: None,
            slider: None,
            min_bits: None,
            max_bits: None,
            multiline: None,
            custom_reader: None,
            custom_writer: None,
        }
    }
}

/// Fully-resolved per-field configuration: every setting present, either
/// declared or taken from the default record.
pub struct FieldConfig {
    pub display_name: Option<String>,
    pub hidden: bool,
    pub editable_override: bool,
    pub widget_kind: WidgetKind,
    pub min_bits: u32,
    pub max_bits: u32,
    pub multiline: bool,
    pub custom_reader: Option<String>,
    pub custom_writer: Option<String>,
}

/// Mathematical model of `FieldConfig`.
pub struct FieldConfigV {
    pub display_name: Option<Seq<char>>,
    pub hidden: bool,
    pub editable_override: bool,
    pub widget_kind: WidgetKind,
    pub min_bits: u32,
    pub max_bits: u32,
    pub multiline: bool,
    pub custom_reader: Option<Seq<char>>,
    pub custom_writer: Option<Seq<char>>,
}

impl DeepView for FieldConfig {
    type V = FieldConfigV;

    open spec fn deep_view(&self) -> FieldConfigV {
        FieldConfigV {
            display_name: self.display_name.deep_view(),
            hidden: self.hidden,
            editable_override: self.editable_override,
            widget_kind: self.widget_kind,
            min_bits: self.min_bits,
            max_bits: self.max_bits,
            multiline: self.multiline,
            custom_reader: self.custom_reader.deep_view(),
            custom_writer: self.custom_writer.deep_view(),
        }
    }
}

/// The fixed default record: visible, editable, slider widget with bounds
/// 0.0 to 100.0, single-line text, no name override, no custom functions.
pub open spec fn default_config() -> FieldConfigV {
    FieldConfigV {
        display_name: None,
        hidden: false,
        editable_override: false,
        widget_kind: WidgetKind::Slider,
        min_bits: DEFAULT_MIN_BITS,
        max_bits: DEFAULT_MAX_BITS,
        multiline: false,
        custom_reader: None,
        custom_writer: None,
    }
}

/// Resolution of raw overrides against the default record: a declared
/// option wins, an absent one takes the default.
pub open spec fn resolve_spec(a: FieldAttrsV) -> FieldConfigV {
    FieldConfigV {
        display_name: a.display_name,
        hidden: a.hidden.unwrap_or(false),
        editable_override: a.editable_override.unwrap_or(false),
        widget_kind: if a.slider.unwrap_or(true) {
            WidgetKind::Slider
        } else {
            WidgetKind::Plain
        },
        min_bits: a.min_bits.unwrap_or(DEFAULT_MIN_BITS),
        max_bits: a.max_bits.unwrap_or(DEFAULT_MAX_BITS),
        multiline: a.multiline.unwrap_or(false),
        custom_reader: a.custom_reader,
        custom_writer: a.custom_writer,
    }
}

impl Default for FieldConfig {
    /// The default record itself, as a value.
    fn default() -> (c: Self)
        ensures
            c.deep_view() == default_config(),
    {
        FieldConfig {
            display_name: None,
            hidden: false,
            editable_override: false,
            widget_kind: WidgetKind::Slider,
            min_bits: DEFAULT_MIN_BITS,
            max_bits: DEFAULT_MAX_BITS,
            multiline: false,
            custom_reader: None,
            custom_writer: None,
        }
    }
}

/// Clones an optional string; the model value is unchanged.
fn clone_opt_string(s: &Option<String>) -> (r: Option<String>)
    ensures
        r.deep_view() == s.deep_view(),
{
    match s {
        Some(x) => Some(x.clone()),
        None => None,
    }
}

/// Attribute Schema Resolver: merges the declared overrides with the
/// default record into a complete configuration.  Absence of an override
/// is always valid, so resolution never fails.
pub fn resolve(a: &FieldAttrs) -> (c: FieldConfig)
    ensures
        c.deep_view() == resolve_spec(a.deep_view()),
{
    let hidden: bool = match a.hidden {
        Some(b) => b,
        None => false,
    };
    let editable_override: bool = match a.editable_override {
        Some(b) => b,
        None => false,
    };
    let slider: bool = match a.slider {
        Some(b) => b,
        None => true,
    };
    let min_bits: u32 = match a.min_bits {
        Some(b) => b,
        None => DEFAULT_MIN_BITS,
    };
    let max_bits: u32 = match a.max_bits {
        Some(b) => b,
        None => DEFAULT_MAX_BITS,
    };
    let multiline: bool = match a.multiline {
        Some(b) => b,
        None => false,
    };
    FieldConfig {
        display_name: clone_opt_string(&a.display_name),
        hidden,
        editable_override,
        widget_kind: if slider {
            WidgetKind::Slider
        } else {
            WidgetKind::Plain
        },
        min_bits,
        max_bits,
        multiline,
        custom_reader: clone_opt_string(&a.custom_reader),
        custom_writer: clone_opt_string(&a.custom_writer),
    }
}

/// Resolving a declaration that sets nothing yields exactly the default
/// record.
pub proof fn lemma_resolve_absent()
    ensures
        resolve_spec(absent_attrs()) == default_config(),
{
}

} // verus!
