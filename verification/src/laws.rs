//! Laws of the generator: order preservation, exclusion of hidden fields,
//! the exact precedence of custom overrides, forced read-only rendering,
//! the reset semantics of the variant selector, and the full-visit round
//! trip.

use vstd::prelude::*;

use crate::config::resolve_spec;
use crate::generate::{
    combo_option_spec, display_label, enum_selector, field_action, named_actions,
    named_field_action, program_spec, unnamed_actions, unnamed_field_action,
};
use crate::schema::{DataDeclV, FieldsDeclV};
use crate::program::{ActionV, FieldPlaceV};
use crate::schema::{NamedFieldV, UnnamedFieldV};

verus! {

/// The named field at index `j` is visible: not hidden by its resolved
/// configuration.
pub open spec fn visible_named_at(fs: Seq<NamedFieldV>, j: int) -> bool {
    !resolve_spec(fs[j].attrs).hidden
}

/// The positional field at index `j` is visible.
pub open spec fn visible_unnamed_at(fs: Seq<UnnamedFieldV>, j: int) -> bool {
    !resolve_spec(fs[j].attrs).hidden
}

/// A named field whose resolved configuration forces read-only rendering.
pub open spec fn forced_named(f: NamedFieldV) -> bool {
    resolve_spec(f.attrs).editable_override
}

/// A named field with nothing hidden and no custom function in either
/// direction.
pub open spec fn plain_named(f: NamedFieldV) -> bool {
    let cfg = resolve_spec(f.attrs);
    &&& !cfg.hidden
    &&& cfg.custom_reader is None
    &&& cfg.custom_writer is None
}

/// A positional field with nothing hidden and no custom function.
pub open spec fn plain_unnamed(f: UnnamedFieldV) -> bool {
    let cfg = resolve_spec(f.attrs);
    &&& !cfg.hidden
    &&& cfg.custom_reader is None
    &&& cfg.custom_writer is None
}

/// Dispatch over named fields distributes over concatenation of the
/// declarations: the actions of `a + b` are the actions of `a` followed by
/// the actions of `b`.  Hence the order of rendering actions equals
/// declaration order, and reordering declared fields reorders the output
/// identically.
pub proof fn lemma_named_actions_concat(
    a: Seq<NamedFieldV>,
    b: Seq<NamedFieldV>,
    use_self: bool,
    mutable: bool,
)
    ensures
        named_actions(a + b, use_self, mutable) == named_actions(a, use_self, mutable)
            + named_actions(b, use_self, mutable),
    decreases b.len(),
{
    if b.len() == 0 {
        assert(a + b =~= a);
        assert(named_actions(a, use_self, mutable) + named_actions(b, use_self, mutable)
            =~= named_actions(a, use_self, mutable));
    } else {
        lemma_named_actions_concat(a, b.drop_last(), use_self, mutable);
        assert((a + b).drop_last() =~= a + b.drop_last());
        assert((a + b).last() == b.last());
        if !resolve_spec(b.last().attrs).hidden {
            assert((named_actions(a, use_self, mutable) + named_actions(
                b.drop_last(),
                use_self,
                mutable,
            )).push(named_field_action(b.last(), use_self, mutable)) =~= named_actions(
                a,
                use_self,
                mutable,
            ) + named_actions(b.drop_last(), use_self, mutable).push(
                named_field_action(b.last(), use_self, mutable),
            ));
        }
    }
}

/// A hidden named field appears in neither rendering program, regardless
/// of its other settings: removing it from the declaration leaves the
/// generated actions unchanged, in both modes.
pub proof fn lemma_hidden_named_excluded(
    fs: Seq<NamedFieldV>,
    i: int,
    use_self: bool,
    mutable: bool,
)
    requires
        0 <= i < fs.len(),
        resolve_spec(fs[i].attrs).hidden,
    ensures
        named_actions(fs, use_self, mutable) == named_actions(fs.remove(i), use_self, mutable),
{
    let front = fs.take(i);
    let mid = seq![fs[i]];
    let back = fs.skip(i + 1);
    assert(fs =~= (front + mid) + back);
    assert(fs.remove(i) =~= front + back);
    lemma_named_actions_concat(front + mid, back, use_self, mutable);
    lemma_named_actions_concat(front, mid, use_self, mutable);
    lemma_named_actions_concat(front, back, use_self, mutable);
    assert(mid.drop_last() =~= Seq::<NamedFieldV>::empty());
    assert(mid.len() == 1 && mid.last() == fs[i]);
    assert(named_actions(Seq::<NamedFieldV>::empty(), use_self, mutable)
        == Seq::<ActionV>::empty());
    assert(named_actions(mid, use_self, mutable) == named_actions(
        mid.drop_last(),
        use_self,
        mutable,
    ));
    assert(named_actions(front, use_self, mutable) + named_actions(mid, use_self, mutable)
        =~= named_actions(front, use_self, mutable));
}

/// Every action of a named dispatch arises from some visible declared
/// field; in particular no hidden field contributes any action.
pub proof fn lemma_action_source_named(
    fs: Seq<NamedFieldV>,
    use_self: bool,
    mutable: bool,
    k: int,
)
    requires
        0 <= k < named_actions(fs, use_self, mutable).len(),
    ensures
        exists|j: int|
            0 <= j < fs.len() && #[trigger] visible_named_at(fs, j) && named_actions(
                fs,
                use_self,
                mutable,
            )[k] == named_field_action(fs[j], use_self, mutable),
    decreases fs.len(),
{
    let acts = named_actions(fs, use_self, mutable);
    let prefix = named_actions(fs.drop_last(), use_self, mutable);
    if resolve_spec(fs.last().attrs).hidden || k < prefix.len() {
        lemma_action_source_named(fs.drop_last(), use_self, mutable, k);
        let j = choose|j: int|
            0 <= j < fs.drop_last().len() && #[trigger] visible_named_at(fs.drop_last(), j)
                && prefix[k] == named_field_action(fs.drop_last()[j], use_self, mutable);
        assert(fs.drop_last()[j] == fs[j]);
        assert(visible_named_at(fs, j));
    } else {
        assert(acts[k] == named_field_action(fs.last(), use_self, mutable));
        assert(visible_named_at(fs, fs.len() - 1));
    }
}

/// Every action of a positional dispatch arises from some visible declared
/// field at its own declaration index.
pub proof fn lemma_action_source_unnamed(
    fs: Seq<UnnamedFieldV>,
    use_self: bool,
    mutable: bool,
    k: int,
)
    requires
        0 <= k < unnamed_actions(fs, use_self, mutable).len(),
    ensures
        exists|j: int|
            0 <= j < fs.len() && #[trigger] visible_unnamed_at(fs, j) && unnamed_actions(
                fs,
                use_self,
                mutable,
            )[k] == unnamed_field_action(fs[j], j as usize, use_self, mutable),
    decreases fs.len(),
{
    let acts = unnamed_actions(fs, use_self, mutable);
    let prefix = unnamed_actions(fs.drop_last(), use_self, mutable);
    if resolve_spec(fs.last().attrs).hidden || k < prefix.len() {
        lemma_action_source_unnamed(fs.drop_last(), use_self, mutable, k);
        let j = choose|j: int|
            0 <= j < fs.drop_last().len() && #[trigger] visible_unnamed_at(fs.drop_last(), j)
                && prefix[k] == unnamed_field_action(
                fs.drop_last()[j],
                j as usize,
                use_self,
                mutable,
            );
        assert(fs.drop_last()[j] == fs[j]);
        assert(visible_unnamed_at(fs, j));
    } else {
        assert(acts[k] == unnamed_field_action(
            fs.last(),
            (fs.len() - 1) as usize,
            use_self,
            mutable,
        ));
        assert(visible_unnamed_at(fs, fs.len() - 1));
    }
}

/// Custom-writer precedence: for a field with a custom writer and no
/// forced read-only rendering, the editable action invokes exactly that
/// writer, mutably — never the standard dispatch and never the custom
/// reader.
pub proof fn lemma_custom_writer_used(cfg: crate::config::FieldConfigV, fallback: Seq<char>,
    place: FieldPlaceV)
    requires
        cfg.custom_writer is Some,
        !cfg.editable_override,
    ensures
        field_action(cfg, fallback, place, true) == (ActionV::Custom {
            func: cfg.custom_writer.unwrap(),
            place,
            label: display_label(cfg, fallback),
            mutable: true,
        }),
{
}

/// Forced read-only rendering: a field with the editable override renders
/// in the editable program exactly as in the read-only program.
pub proof fn lemma_forced_read_only(cfg: crate::config::FieldConfigV, fallback: Seq<char>,
    place: FieldPlaceV)
    requires
        cfg.editable_override,
    ensures
        field_action(cfg, fallback, place, true) == field_action(cfg, fallback, place, false),
{
}

/// When every named field forces read-only rendering, the whole editable
/// dispatch equals the read-only dispatch — in particular the sequence of
/// display names is the same.
pub proof fn lemma_forced_read_only_named(fs: Seq<NamedFieldV>, use_self: bool)
    requires
        forall|i: int| 0 <= i < fs.len() ==> #[trigger] forced_named(fs[i]),
    ensures
        named_actions(fs, use_self, true) == named_actions(fs, use_self, false),
    decreases fs.len(),
{
    if fs.len() > 0 {
        assert forall|i: int| 0 <= i < fs.drop_last().len() implies #[trigger] forced_named(
            fs.drop_last()[i],
        ) by {
            assert(fs.drop_last()[i] == fs[i]);
        }
        lemma_forced_read_only_named(fs.drop_last(), use_self);
        assert(forced_named(fs.last()));
    }
}

/// Round trip, read-only half: with no field hidden and no custom
/// functions, the read-only dispatch visits every declared field exactly
/// once, in declaration order, through its standard rendering entry point.
pub proof fn lemma_full_visit_named(fs: Seq<NamedFieldV>, use_self: bool, mutable: bool)
    requires
        forall|i: int| 0 <= i < fs.len() ==> #[trigger] plain_named(fs[i]),
    ensures
        named_actions(fs, use_self, mutable).len() == fs.len(),
        forall|i: int|
            0 <= i < fs.len() ==> named_actions(fs, use_self, mutable)[i]
                == named_field_action(#[trigger] fs[i], use_self, mutable),
    decreases fs.len(),
{
    if fs.len() > 0 {
        assert forall|i: int| 0 <= i < fs.drop_last().len() implies #[trigger] plain_named(
            fs.drop_last()[i],
        ) by {
            assert(fs.drop_last()[i] == fs[i]);
        }
        lemma_full_visit_named(fs.drop_last(), use_self, mutable);
        assert(plain_named(fs.last()));
        assert forall|i: int|
            0 <= i < fs.len() implies named_actions(fs, use_self, mutable)[i]
            == named_field_action(#[trigger] fs[i], use_self, mutable) by {
            if i < fs.len() - 1 {
                assert(fs.drop_last()[i] == fs[i]);
            }
        }
    }
}

/// Round trip for positional fields: with no field hidden and no custom
/// functions, the dispatch visits every declared field exactly once, in
/// declaration order.
pub proof fn lemma_full_visit_unnamed(fs: Seq<UnnamedFieldV>, use_self: bool, mutable: bool)
    requires
        forall|i: int| 0 <= i < fs.len() ==> #[trigger] plain_unnamed(fs[i]),
    ensures
        unnamed_actions(fs, use_self, mutable).len() == fs.len(),
        forall|i: int|
            0 <= i < fs.len() ==> unnamed_actions(fs, use_self, mutable)[i]
                == unnamed_field_action(#[trigger] fs[i], i as usize, use_self, mutable),
    decreases fs.len(),
{
    if fs.len() > 0 {
        assert forall|i: int| 0 <= i < fs.drop_last().len() implies #[trigger] plain_unnamed(
            fs.drop_last()[i],
        ) by {
            assert(fs.drop_last()[i] == fs[i]);
        }
        lemma_full_visit_unnamed(fs.drop_last(), use_self, mutable);
        assert(plain_unnamed(fs.last()));
        assert forall|i: int|
            0 <= i < fs.len() implies unnamed_actions(fs, use_self, mutable)[i]
            == unnamed_field_action(#[trigger] fs[i], i as usize, use_self, mutable) by {
            if i < fs.len() - 1 {
                assert(fs.drop_last()[i] == fs[i]);
            }
        }
    }
}

/// Selector reset semantics: the selector lists every variant, in
/// declaration order, and choosing entry `i` replaces the instance with a
/// freshly default-constructed instance of variant `i` — every payload
/// field reset to its type's default, no previously edited value carried
/// over.
pub proof fn lemma_selector_resets(vs: Seq<crate::schema::VariantDeclV>, i: int)
    requires
        0 <= i < vs.len(),
    ensures
        enum_selector(vs).len() == vs.len(),
        enum_selector(vs)[i] == combo_option_spec(vs[i]),
        enum_selector(vs)[i].label == vs[i].ident,
{
}

/// Whether an action writes through its field.
pub open spec fn action_mutates(a: ActionV) -> bool {
    match a {
        ActionV::Standard { mutable, .. } => mutable,
        ActionV::Custom { mutable, .. } => mutable,
    }
}

/// A field that forces read-only rendering is never written, in either
/// mode and through either dispatch path.
pub proof fn lemma_forced_field_never_written(
    cfg: crate::config::FieldConfigV,
    fallback: Seq<char>,
    place: FieldPlaceV,
    mutable: bool,
)
    requires
        cfg.editable_override,
    ensures
        !action_mutates(field_action(cfg, fallback, place, mutable)),
{
}

/// The read-only dispatch over named fields never writes: every action it
/// emits takes the field by shared borrow.
pub proof fn lemma_read_only_named_never_writes(fs: Seq<NamedFieldV>, use_self: bool, k: int)
    requires
        0 <= k < named_actions(fs, use_self, false).len(),
    ensures
        !action_mutates(named_actions(fs, use_self, false)[k]),
{
    lemma_action_source_named(fs, use_self, false, k);
}

/// The read-only dispatch over positional fields never writes.
pub proof fn lemma_read_only_unnamed_never_writes(fs: Seq<UnnamedFieldV>, use_self: bool, k: int)
    requires
        0 <= k < unnamed_actions(fs, use_self, false).len(),
    ensures
        !action_mutates(unnamed_actions(fs, use_self, false)[k]),
{
    lemma_action_source_unnamed(fs, use_self, false, k);
}

/// A hidden named field appears in neither of the two generated
/// procedures of a struct: removing it changes neither the read-only nor
/// the editable rendering program.
pub proof fn lemma_hidden_excluded_both_programs(fields: Seq<NamedFieldV>, i: int)
    requires
        0 <= i < fields.len(),
        resolve_spec(fields[i].attrs).hidden,
    ensures
        program_spec(DataDeclV::Struct { fields: FieldsDeclV::Named { fields } }, false)
            == program_spec(
            DataDeclV::Struct { fields: FieldsDeclV::Named { fields: fields.remove(i) } },
            false,
        ),
        program_spec(DataDeclV::Struct { fields: FieldsDeclV::Named { fields } }, true)
            == program_spec(
            DataDeclV::Struct { fields: FieldsDeclV::Named { fields: fields.remove(i) } },
            true,
        ),
{
    lemma_hidden_named_excluded(fields, i, true, false);
    lemma_hidden_named_excluded(fields, i, true, true);
}

} // verus!


