//! Contents of a request form: one row per field, and a detail area with the
//! selected field's type, description and error.

use vstd::prelude::*;

use crate::app::features::forms::is_gated_key;
use crate::app::methods::{event_type_enabled, type_enables_filters, ErrorMap};
use crate::app::model::forms::{FieldType, FormState, FormView};
use crate::text::{char_count, concat, owned, text_eq};
use crate::ui::style::{
    look_of, pieces_view, styled, tinted, BorderKind, Look, Piece, PieceView, Tint,
};

verus! {

/// Height reserved for the detail area at the bottom (separator + content).
pub const DETAIL_HEIGHT: u16 = 3;

/// Whether the form's `type` field names an event type that unlocks the filters.
pub open spec fn has_event_type(f: FormView) -> bool {
    type_enables_filters(f.value_of("type"@))
}

/// Whether field `i` is a filter still waiting for an event type.
pub open spec fn is_locked(f: FormView, i: int) -> bool {
    is_gated_key(f.fields[i].spec.key@) && !has_event_type(f)
}

/// The row of field `i`: its label and colon, then its value; locked fields and
/// untouched defaults are dimmed, the selected label of a focused form is accented.
pub open spec fn field_row(f: FormView, i: int, focused: bool) -> Seq<PieceView> {
    let field = f.fields[i];
    let locked = is_locked(f, i);
    let label_look = if locked {
        look_of(Tint::Muted, false, true, false, false)
    } else if i == f.selected && focused {
        tinted(Tint::Accent)
    } else {
        tinted(Tint::Muted)
    };
    let value_look = if locked || field.value == field.spec.default_value@ {
        look_of(Tint::Muted, false, true, false, false)
    } else {
        tinted(Tint::Plain)
    };
    let value_piece = if field.value.len() == 0 {
        styled(Seq::empty(), tinted(Tint::Plain))
    } else {
        styled(field.value, value_look)
    };
    seq![styled(field.spec.label@, label_look), styled(": "@, label_look), value_piece]
}

/// The rows of a form, or a placeholder when it has no fields.
pub open spec fn form_rows_view(f: FormView, focused: bool) -> Seq<Seq<PieceView>> {
    if f.fields.len() == 0 {
        seq![seq![styled("No parameters"@, tinted(Tint::Muted))]]
    } else {
        Seq::new(f.fields.len(), |i: int| field_row(f, i, focused))
    }
}

/// The rows of a form's field list.
pub fn form_rows(form: &FormState, focused: bool) -> (r: Vec<Vec<Piece>>)
    ensures
        r@.map_values(|l: Vec<Piece>| pieces_view(l@)) == form_rows_view(form@, focused),
{
    let ghost fv = form@;
    if form.fields.len() == 0 {
        let r = vec![vec![Piece::of("No parameters", Look::tint(Tint::Muted))]];
        proof {
            assert(r@.map_values(|l: Vec<Piece>| pieces_view(l@))[0] =~= form_rows_view(fv, focused)[0]);
            assert(r@.map_values(|l: Vec<Piece>| pieces_view(l@)) =~= form_rows_view(fv, focused));
        }
        return r;
    }
    let type_value = match form.field_value("type") {
        Some(v) => Some(owned(v)),
        None => None,
    };
    let has_type = event_type_enabled(&type_value);
    let mut r: Vec<Vec<Piece>> = Vec::new();
    let mut i: usize = 0;
    while i < form.fields.len()
        invariant
            fv == form@,
            fv.fields.len() > 0,
            has_type == has_event_type(fv),
            0 <= i <= form.fields.len(),
            r@.map_values(|l: Vec<Piece>| pieces_view(l@)) =~= Seq::new(i as nat, |k: int| field_row(fv, k, focused)),
        decreases form.fields.len() - i,
    {
        let field = &form.fields[i];
        assert(field@ == fv.fields[i as int]);
        let gated = text_eq(field.spec.key, "contractIds") || text_eq(field.spec.key, "topics");
        let locked = gated && !has_type;
        let label_look = if locked {
            Look::with(Tint::Muted, false, true, false, false)
        } else if i == form.selected && focused {
            Look::tint(Tint::Accent)
        } else {
            Look::tint(Tint::Muted)
        };
        let value_look = if locked || text_eq(field.value.as_str(), field.spec.default_value) {
            Look::with(Tint::Muted, false, true, false, false)
        } else {
            Look::tint(Tint::Plain)
        };
        let value_piece = if char_count(field.value.as_str()) == 0 {
            Piece::new(String::new(), Look::tint(Tint::Plain))
        } else {
            Piece::of(field.value.as_str(), value_look)
        };
        let row = vec![Piece::of(field.spec.label, label_look), Piece::of(": ", label_look), value_piece];
        assert(pieces_view(row@) =~= field_row(fv, i as int, focused));
        let ghost before = r@;
        r.push(row);
        proof {
            assert(r@.map_values(|l: Vec<Piece>| pieces_view(l@)) =~= before.map_values(
                |l: Vec<Piece>| pieces_view(l@),
            ).push(field_row(fv, i as int, focused)));
        }
        i += 1;
    }
    r
}

/// The short name of a field type.
pub open spec fn type_label(t: FieldType) -> Seq<char> {
    match t {
        FieldType::Text => "text"@,
        FieldType::Number => "num"@,
        FieldType::List => "list"@,
        FieldType::Json => "json"@,
    }
}

/// The detail lines of the selected field: its type badge and description, then
/// its error, red when the field is required and missing, yellow otherwise.
pub open spec fn detail_lines(f: FormView, errors: Map<Seq<char>, Seq<char>>) -> Seq<Seq<PieceView>> {
    if f.selected >= f.fields.len() {
        Seq::empty()
    } else {
        let field = f.fields[f.selected as int];
        let badge = styled(
            "["@ + type_label(field.spec.field_type) + "]"@,
            look_of(Tint::Yellow, false, true, false, false),
        );
        let desc = if field.spec.hint@.len() > 0 {
            seq![badge, styled(" "@ + field.spec.hint@, tinted(Tint::Plain))]
        } else {
            seq![badge]
        };
        let key = field.spec.key@;
        if errors.contains_key(key) {
            let e = errors[key];
            seq![
                desc,
                seq![
                    styled(
                        e,
                        tinted(
                            if e == "Required"@ {
                                Tint::Red
                            } else {
                                Tint::Yellow
                            },
                        ),
                    ),
                ],
            ]
        } else {
            seq![desc]
        }
    }
}

/// The short name of a field type.
fn field_type_name(t: FieldType) -> (s: &'static str)
    ensures
        s@ == type_label(t),
{
    match t {
        FieldType::Text => "text",
        FieldType::Number => "num",
        FieldType::List => "list",
        FieldType::Json => "json",
    }
}

/// The detail area of the selected field.
pub fn form_detail(form: &FormState, errors: &ErrorMap) -> (r: Vec<Vec<Piece>>)
    ensures
        r@.map_values(|l: Vec<Piece>| pieces_view(l@)) == detail_lines(form@, errors@),
{
    let ghost fv = form@;
    if form.selected >= form.fields.len() {
        let r: Vec<Vec<Piece>> = Vec::new();
        assert(r@.map_values(|l: Vec<Piece>| pieces_view(l@)) =~= detail_lines(fv, errors@));
        return r;
    }
    let field = &form.fields[form.selected];
    assert(field@ == fv.fields[form.selected as int]);
    let badge = Piece::new(
        concat(concat("[", field_type_name(field.spec.field_type)).as_str(), "]"),
        Look::with(Tint::Yellow, false, true, false, false),
    );
    let desc = if char_count(field.spec.hint) > 0 {
        vec![badge, Piece::new(concat(" ", field.spec.hint), Look::tint(Tint::Plain))]
    } else {
        vec![badge]
    };
    let ghost dv = pieces_view(desc@);
    proof {
        let fld = fv.fields[fv.selected as int];
        let sb = styled(
            "["@ + type_label(fld.spec.field_type) + "]"@,
            look_of(Tint::Yellow, false, true, false, false),
        );
        let sd = if fld.spec.hint@.len() > 0 {
            seq![sb, styled(" "@ + fld.spec.hint@, tinted(Tint::Plain))]
        } else {
            seq![sb]
        };
        assert(dv =~= sd);
    }
    let mut r = vec![desc];
    match errors.get(field.spec.key) {
        Some(error) => {
            let color = if text_eq(error.as_str(), "Required") {
                Tint::Red
            } else {
                Tint::Yellow
            };
            let line = vec![Piece::of(error.as_str(), Look::tint(color))];
            let ghost lv = pieces_view(line@);
            r.push(line);
            proof {
                let e = errors@[field.spec.key@];
                assert(lv =~= seq![styled(e, tinted(if e == "Required"@ { Tint::Red } else { Tint::Yellow }))]);
                assert(r@.map_values(|l: Vec<Piece>| pieces_view(l@)) =~= seq![dv, lv]);
                assert(r@.map_values(|l: Vec<Piece>| pieces_view(l@)) =~= detail_lines(fv, errors@));
            }
        },
        None => {
            proof {
                assert(r@.map_values(|l: Vec<Piece>| pieces_view(l@)) =~= detail_lines(fv, errors@));
            }
        },
    }
    r
}

/// Whether the detail area shows: the form has focus and fields, and the pane is
/// tall enough.
pub fn shows_detail(focused: bool, form: &FormState, inner_height: u16) -> (b: bool)
    ensures
        b == (focused && form.fields.len() > 0 && inner_height > DETAIL_HEIGHT + 2),
{
    focused && form.fields.len() > 0 && inner_height > DETAIL_HEIGHT + 2
}

/// The border of a form: accented when focused (dimmed under a modal), thick when
/// focused without a modal.
pub fn form_border(focused: bool, modal_active: bool) -> (r: (Look, BorderKind))
    ensures
        r.0 == if modal_active && focused {
            look_of(Tint::Accent, false, true, false, false)
        } else if focused {
            tinted(Tint::Accent)
        } else {
            look_of(Tint::Muted, false, true, false, false)
        },
        r.1 == if !modal_active && focused {
            BorderKind::Thick
        } else {
            BorderKind::Rounded
        },
{
    let look = if modal_active && focused {
        Look::with(Tint::Accent, false, true, false, false)
    } else if focused {
        Look::tint(Tint::Accent)
    } else {
        Look::with(Tint::Muted, false, true, false, false)
    };
    let kind = if modal_active {
        BorderKind::Rounded
    } else if focused {
        BorderKind::Thick
    } else {
        BorderKind::Rounded
    };
    (look, kind)
}

} // verus!
