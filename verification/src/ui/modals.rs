//! Contents of the settings, method info and about modals, and fitting a modal's
//! scroll to its content.

use vstd::prelude::*;

use crate::app::methods::MethodSpec;
use crate::app::model::state::{sat_sub, App, AppView};
use crate::app::model::forms::FormView;
use crate::app::model::types::ModalState;
use crate::settings::NetworkView;
use crate::text::{chars_of, concat, has_prefix, owned, push_char, starts_with, string_from};
use crate::ui::panes::hint_row;
use crate::ui::style::{
    esc_hint, esc_pieces, extend_line, gap, hint_pieces, look_of, pieces_view, shortcut_hint,
    spaces, styled, tinted, Look, Piece, PieceView, Tint,
};

verus! {

/// Styled lines as abstract values.
pub open spec fn rows_view(ls: Seq<Vec<Piece>>) -> Seq<Seq<PieceView>> {
    ls.map_values(|l: Vec<Piece>| pieces_view(l@))
}

/// An endpoint without its `https://` or `http://` scheme.
pub open spec fn shown_endpoint(endpoint: Seq<char>) -> Seq<char> {
    if has_prefix(endpoint, "https://"@) {
        endpoint.subrange(8, endpoint.len() as int)
    } else if has_prefix(endpoint, "http://"@) {
        endpoint.subrange(7, endpoint.len() as int)
    } else {
        endpoint
    }
}

/// Strips the scheme from an endpoint for display.
pub fn display_endpoint(endpoint: &str) -> (s: String)
    ensures
        s@ == shown_endpoint(endpoint@),
{
    let cs = chars_of(endpoint);
    proof {
        reveal_strlit("https://");
        reveal_strlit("http://");
    }
    if starts_with(endpoint, "https://") {
        string_from(&cs, 8, cs.len())
    } else if starts_with(endpoint, "http://") {
        string_from(&cs, 7, cs.len())
    } else {
        owned(endpoint)
    }
}

/// The selection marker of a list row.
pub open spec fn marker(selected: bool) -> Seq<char> {
    if selected {
        "\u{276f} "@
    } else {
        "  "@
    }
}

/// The row of editor field `i`: marker, label, value and its error.
pub open spec fn editor_row(f: FormView, errors: Map<Seq<char>, Seq<char>>, i: int) -> Seq<PieceView> {
    let field = f.fields[i];
    let value_look = if field.value.len() > 0 && field.value == field.spec.default_value@ {
        look_of(Tint::Muted, false, true, false, false)
    } else {
        tinted(Tint::Plain)
    };
    let base = seq![
        styled(marker(i == f.selected), tinted(Tint::Accent)),
        styled(field.spec.label@ + ": "@, tinted(Tint::Muted)),
        styled(field.value, value_look),
    ];
    if errors.contains_key(field.spec.key@) {
        base.push(styled("  !! "@ + errors[field.spec.key@], tinted(Tint::Red)))
    } else {
        base
    }
}

/// The two rows of network `i`: marker, activity dot and name, then the endpoint.
pub open spec fn network_rows(s: AppView, n: nat) -> Seq<Seq<PieceView>>
    decreases n,
{
    if n == 0 {
        Seq::empty()
    } else {
        let i = (n - 1) as int;
        let net: NetworkView = s.settings.networks[i];
        let active = i == s.settings.active_network;
        let selected = i == s.selected_network;
        network_rows(s, (n - 1) as nat) + seq![
            seq![
                styled(marker(selected), tinted(Tint::Accent)),
                styled(
                    if active {
                        "\u{25cf} "@
                    } else {
                        "\u{25cb} "@
                    },
                    tinted(
                        if active {
                            Tint::Green
                        } else {
                            Tint::Muted
                        },
                    ),
                ),
                styled(
                    net.name,
                    if selected {
                        look_of(Tint::Accent, true, false, false, false)
                    } else {
                        tinted(Tint::Plain)
                    },
                ),
            ],
            seq![styled("    "@ + shown_endpoint(net.endpoint), tinted(Tint::Muted))],
        ]
    }
}

/// The settings modal's content: a heading, then the network editor's rows while it
/// is open, else two rows per network.
pub open spec fn network_lines_view(s: AppView) -> Seq<Seq<PieceView>> {
    let head = seq![
        Seq::empty(),
        seq![styled(" Configure RPC endpoint connections"@, tinted(Tint::Subtext))],
        Seq::empty(),
    ];
    match s.network_editor {
        Some(e) => head + seq![
            seq![
                styled(
                    if e.editing_index is Some {
                        "  Edit Network"@
                    } else {
                        "  Add Network"@
                    },
                    look_of(Tint::Accent, true, false, false, false),
                ),
            ],
            Seq::empty(),
        ] + Seq::new(e.form.fields.len(), |i: int| editor_row(e.form, s.network_errors, i)),
        None => head + network_rows(s, s.settings.networks.len()),
    }
}

/// The lines of the settings modal's network section.
pub fn network_lines(app: &App) -> (r: Vec<Vec<Piece>>)
    ensures
        rows_view(r@) == network_lines_view(app@),
{
    let ghost sv = app@;
    let mut lines: Vec<Vec<Piece>> = vec![
        Vec::new(),
        vec![Piece::of(" Configure RPC endpoint connections", Look::tint(Tint::Subtext))],
        Vec::new(),
    ];
    let ghost head = rows_view(lines@);
    proof {
        assert(head =~~= seq![
            Seq::empty(),
            seq![styled(" Configure RPC endpoint connections"@, tinted(Tint::Subtext))],
            Seq::empty(),
        ]);
    }
    match &app.network_editor {
        Some(editor) => {
            let title = if editor.editing_index.is_some() {
                "  Edit Network"
            } else {
                "  Add Network"
            };
            lines.push(vec![Piece::of(title, Look::with(Tint::Accent, true, false, false, false))]);
            lines.push(Vec::new());
            let ghost top = rows_view(lines@);
            proof {
                assert(top =~~= head + seq![
                    seq![
                        styled(
                            if editor.editing_index is Some {
                                "  Edit Network"@
                            } else {
                                "  Add Network"@
                            },
                            look_of(Tint::Accent, true, false, false, false),
                        ),
                    ],
                    Seq::empty(),
                ]);
            }
            let ghost fv = editor.form@;
            let mut i: usize = 0;
            while i < editor.form.fields.len()
                invariant
                    fv == editor.form@,
                    sv == app@,
                    sv.network_editor == Some(crate::app::model::state::EditorView { form: fv, editing_index: editor.editing_index }),
                    0 <= i <= editor.form.fields.len(),
                    rows_view(lines@) =~= top + Seq::new(i as nat, |k: int| editor_row(fv, sv.network_errors, k)),
                decreases editor.form.fields.len() - i,
            {
                let field = &editor.form.fields[i];
                assert(field@ == fv.fields[i as int]);
                let cursor = if i == editor.form.selected {
                    "\u{276f} "
                } else {
                    "  "
                };
                let value_look = if crate::text::char_count(field.value.as_str()) > 0
                    && crate::text::text_eq(field.value.as_str(), field.spec.default_value) {
                    Look::with(Tint::Muted, false, true, false, false)
                } else {
                    Look::tint(Tint::Plain)
                };
                let mut row = vec![
                    Piece::of(cursor, Look::tint(Tint::Accent)),
                    Piece::new(concat(field.spec.label, ": "), Look::tint(Tint::Muted)),
                    Piece::of(field.value.as_str(), value_look),
                ];
                match app.network_errors.get(field.spec.key) {
                    Some(err) => {
                        row.push(Piece::new(concat("  !! ", err.as_str()), Look::tint(Tint::Red)));
                    },
                    None => {},
                }
                assert(pieces_view(row@) =~= editor_row(fv, sv.network_errors, i as int));
                let ghost before = lines@;
                let ghost rv = pieces_view(row@);
                lines.push(row);
                proof {
                    assert(rows_view(lines@) =~= rows_view(before).push(rv));
                }
                i += 1;
            }
            proof {
                assert(rows_view(lines@) =~~= network_lines_view(sv));
            }
        },
        None => {
            let nets = &app.settings.networks;
            let mut i: usize = 0;
            while i < nets.len()
                invariant
                    sv == app@,
                    nets == &app.settings.networks,
                    0 <= i <= nets.len(),
                    rows_view(lines@) =~= head + network_rows(sv, i as nat),
                decreases nets.len() - i,
            {
                let network = &nets[i];
                assert(network@ == sv.settings.networks[i as int]);
                let is_active = i == app.settings.active_network;
                let is_selected = i == app.selected_network;
                let dot = if is_active {
                    "\u{25cf} "
                } else {
                    "\u{25cb} "
                };
                let dot_look = if is_active {
                    Look::tint(Tint::Green)
                } else {
                    Look::tint(Tint::Muted)
                };
                let name_look = if is_selected {
                    Look::with(Tint::Accent, true, false, false, false)
                } else {
                    Look::tint(Tint::Plain)
                };
                let cursor = if is_selected {
                    "\u{276f} "
                } else {
                    "  "
                };
                let first = vec![
                    Piece::of(cursor, Look::tint(Tint::Accent)),
                    Piece::of(dot, dot_look),
                    Piece::of(network.name.as_str(), name_look),
                ];
                let second = vec![
                    Piece::new(
                        concat("    ", display_endpoint(network.endpoint.as_str()).as_str()),
                        Look::tint(Tint::Muted),
                    ),
                ];
                let ghost before = lines@;
                let ghost fv1 = pieces_view(first@);
                let ghost fv2 = pieces_view(second@);
                lines.push(first);
                lines.push(second);
                proof {
                    assert(rows_view(lines@) =~= rows_view(before) + seq![fv1, fv2]);
                    assert(network_rows(sv, (i + 1) as nat) =~~= network_rows(sv, i as nat) + seq![fv1, fv2]);
                }
                i += 1;
            }
            proof {
                assert(rows_view(lines@) =~~= network_lines_view(sv));
            }
        },
    }
    lines
}

/// The settings modal's hints: save and escape while editing, else add, edit and
/// delete.
pub open spec fn settings_hint_row(editing: bool) -> Seq<PieceView> {
    if editing {
        seq![gap(1)] + hint_pieces("Save"@) + seq![gap(2)] + esc_pieces()
    } else {
        seq![gap(1)] + hint_pieces("Add"@) + seq![gap(2)] + hint_pieces("Edit"@) + seq![gap(2)]
            + hint_pieces("Delete"@)
    }
}

/// The hints under the settings modal's content.
pub fn settings_hints(editing: bool) -> (r: Vec<Piece>)
    ensures
        pieces_view(r@) == settings_hint_row(editing),
{
    let mut r = vec![spaces(1)];
    if editing {
        extend_line(&mut r, shortcut_hint("Save"));
        extend_line(&mut r, vec![spaces(2)]);
        extend_line(&mut r, esc_hint());
    } else {
        extend_line(&mut r, shortcut_hint("Add"));
        extend_line(&mut r, vec![spaces(2)]);
        extend_line(&mut r, shortcut_hint("Edit"));
        extend_line(&mut r, vec![spaces(2)]);
        extend_line(&mut r, shortcut_hint("Delete"));
    }
    r
}

/// A help text on one line: line breaks become spaces.
pub open spec fn one_line(s: Seq<char>) -> Seq<char> {
    s.map_values(|c: char| if c == '\n' { ' ' } else { c })
}

/// The method info modal: the method's badge and name, its help on one line, and
/// a link to its documentation.
pub open spec fn info_lines_view(m: MethodSpec) -> Seq<Seq<PieceView>> {
    seq![
        Seq::empty(),
        seq![
            styled("  "@ + m.http_method@ + " "@, look_of(Tint::Peach, true, false, false, false)),
            styled(m.name@, look_of(Tint::Accent, true, false, false, false)),
        ],
        Seq::empty(),
        seq![styled("  "@ + one_line(m.help@), tinted(Tint::Plain))],
        Seq::empty(),
        seq![styled("  \u{2500}\u{2500}\u{2500}\u{2500}\u{2500}\u{2500}\u{2500}\u{2500}\u{2500}\u{2500}\u{2500}\u{2500}\u{2500}\u{2500}\u{2500}\u{2500}\u{2500}\u{2500}\u{2500}\u{2500}\u{2500}\u{2500}\u{2500}\u{2500}\u{2500}\u{2500}\u{2500}\u{2500}\u{2500}\u{2500}\u{2500}\u{2500}\u{2500}"@, tinted(Tint::Muted))],
        Seq::empty(),
        seq![
            styled("  Learn more: "@, tinted(Tint::Muted)),
            styled(
                "https://developers.stellar.org/docs/data/apis/rpc/api-reference/methods/"@ + m.name@,
                look_of(Tint::Blue, false, false, false, true),
            ),
        ],
        Seq::empty(),
    ]
}

/// A text with line breaks replaced by spaces.
fn flatten_lines(s: &str) -> (out: String)
    ensures
        out@ == one_line(s@),
{
    let cs = chars_of(s);
    let mut out = String::new();
    let mut i: usize = 0;
    while i < cs.len()
        invariant
            cs@ == s@,
            0 <= i <= cs.len(),
            out@ =~= one_line(cs@.subrange(0, i as int)),
        decreases cs.len() - i,
    {
        let c = if cs[i] == '\n' {
            ' '
        } else {
            cs[i]
        };
        push_char(&mut out, c);
        proof {
            assert(one_line(cs@.subrange(0, i + 1)) =~= one_line(cs@.subrange(0, i as int)).push(c));
        }
        i += 1;
    }
    assert(cs@.subrange(0, cs.len() as int) =~= cs@);
    out
}

/// The lines of the method info modal.
pub fn info_lines(method: &MethodSpec) -> (r: Vec<Vec<Piece>>)
    ensures
        rows_view(r@) == info_lines_view(*method),
{
    let badge = concat(concat("  ", method.http_method).as_str(), " ");
    let description = concat("  ", flatten_lines(method.help).as_str());
    let docs_url = concat(
        "https://developers.stellar.org/docs/data/apis/rpc/api-reference/methods/",
        method.name,
    );
    let r = vec![
        Vec::new(),
        vec![
            Piece::new(badge, Look::with(Tint::Peach, true, false, false, false)),
            Piece::of(method.name, Look::with(Tint::Accent, true, false, false, false)),
        ],
        Vec::new(),
        vec![Piece::new(description, Look::tint(Tint::Plain))],
        Vec::new(),
        vec![Piece::of("  \u{2500}\u{2500}\u{2500}\u{2500}\u{2500}\u{2500}\u{2500}\u{2500}\u{2500}\u{2500}\u{2500}\u{2500}\u{2500}\u{2500}\u{2500}\u{2500}\u{2500}\u{2500}\u{2500}\u{2500}\u{2500}\u{2500}\u{2500}\u{2500}\u{2500}\u{2500}\u{2500}\u{2500}\u{2500}\u{2500}\u{2500}\u{2500}\u{2500}", Look::tint(Tint::Muted))],
        Vec::new(),
        vec![
            Piece::of("  Learn more: ", Look::tint(Tint::Muted)),
            Piece::new(docs_url, Look::with(Tint::Blue, false, false, false, true)),
        ],
        Vec::new(),
    ];
    proof {
        assert(rows_view(r@) =~~= info_lines_view(*method));
    }
    r
}

/// The about modal: what the program is, then its source, version, license and
/// author.
pub open spec fn about_lines_view(repository: Seq<char>, version: Seq<char>, authors: Seq<char>) -> Seq<Seq<PieceView>> {
    seq![
        Seq::empty(),
        seq![styled(" Interactive terminal client for Stellar's JSON-RPC interface. Explore methods, build requests, and inspect responses."@, tinted(Tint::Plain))],
        Seq::empty(),
        seq![styled(" \u{2500}\u{2500}\u{2500}\u{2500}\u{2500}\u{2500}\u{2500}\u{2500}\u{2500}\u{2500}\u{2500}\u{2500}\u{2500}\u{2500}\u{2500}\u{2500}\u{2500}\u{2500}\u{2500}\u{2500}\u{2500}\u{2500}\u{2500}\u{2500}\u{2500}\u{2500}\u{2500}\u{2500}\u{2500}\u{2500}\u{2500}\u{2500}\u{2500}"@, tinted(Tint::Muted))],
        Seq::empty(),
        seq![
            styled(" Source:  "@, tinted(Tint::Muted)),
            styled(repository, look_of(Tint::Blue, false, false, false, true)),
        ],
        seq![styled(" Version: "@, tinted(Tint::Muted)), styled(version, tinted(Tint::Plain))],
        seq![styled(" License: "@, tinted(Tint::Muted)), styled("MIT"@, tinted(Tint::Plain))],
        seq![styled(" Author:  "@, tinted(Tint::Muted)), styled(authors, tinted(Tint::Plain))],
        Seq::empty(),
    ]
}

/// The lines of the about modal, given the package's repository, version and
/// authors.
pub fn about_lines(repository: &str, version: &str, authors: &str) -> (r: Vec<Vec<Piece>>)
    ensures
        rows_view(r@) == about_lines_view(repository@, version@, authors@),
{
    let r = vec![
        Vec::new(),
        vec![Piece::of(" Interactive terminal client for Stellar's JSON-RPC interface. Explore methods, build requests, and inspect responses.", Look::tint(Tint::Plain))],
        Vec::new(),
        vec![Piece::of(" \u{2500}\u{2500}\u{2500}\u{2500}\u{2500}\u{2500}\u{2500}\u{2500}\u{2500}\u{2500}\u{2500}\u{2500}\u{2500}\u{2500}\u{2500}\u{2500}\u{2500}\u{2500}\u{2500}\u{2500}\u{2500}\u{2500}\u{2500}\u{2500}\u{2500}\u{2500}\u{2500}\u{2500}\u{2500}\u{2500}\u{2500}\u{2500}\u{2500}", Look::tint(Tint::Muted))],
        Vec::new(),
        vec![
            Piece::of(" Source:  ", Look::tint(Tint::Muted)),
            Piece::of(repository, Look::with(Tint::Blue, false, false, false, true)),
        ],
        vec![Piece::of(" Version: ", Look::tint(Tint::Muted)), Piece::of(version, Look::tint(Tint::Plain))],
        vec![Piece::of(" License: ", Look::tint(Tint::Muted)), Piece::of("MIT", Look::tint(Tint::Plain))],
        vec![Piece::of(" Author:  ", Look::tint(Tint::Muted)), Piece::of(authors, Look::tint(Tint::Plain))],
        Vec::new(),
    ];
    proof {
        assert(rows_view(r@) =~~= about_lines_view(repository@, version@, authors@));
    }
    r
}

/// Rows a line of `w` columns takes when wrapped at `inner` columns, as the
/// modal counts them in 16 bits.
pub open spec fn wrapped_height(w: nat, inner: nat) -> u16 {
    if w <= inner {
        1
    } else {
        ((w / inner) + (if w % inner > 0 { 1nat } else { 0nat })) as u16
    }
}

/// Rows all lines take, summed.
pub open spec fn content_rows(widths: Seq<usize>, inner: nat) -> nat
    decreases widths.len(),
{
    if widths.len() == 0 {
        0
    } else {
        content_rows(widths.drop_last(), inner) + wrapped_height(widths.last() as nat, inner) as nat
    }
}

/// Inner width of a modal of a given width: at least one column.
pub open spec fn modal_inner_width(width: u16) -> nat {
    let w = sat_sub(width as int, 2);
    if w >= 1 {
        w as nat
    } else {
        1
    }
}

/// Display width of a text on the terminal, as ratatui's `Span::width` computes it.
pub uninterp spec fn span_width(text: Seq<char>) -> usize;

/// Display width of a text, by ratatui's `Span::width`.
///
/// Trusted: the width is the one named `span_width` of the text. ratatui takes
/// it as the Unicode display width of the text's characters; that mapping is
/// left unsaid.
#[verifier::external_body]
fn text_width(text: &str) -> (w: usize)
    ensures
        w == span_width(text@),
{
    ratatui::text::Span::raw(text).width()
}

/// Display width of a styled line: its pieces' widths added up, as ratatui's
/// `Line::width` adds its spans' widths, held at `usize::MAX`.
pub open spec fn line_width_of(ps: Seq<PieceView>) -> nat
    decreases ps.len(),
{
    if ps.len() == 0 {
        0
    } else {
        let w = line_width_of(ps.drop_last()) + span_width(ps.last().text);
        if w <= usize::MAX {
            w as nat
        } else {
            usize::MAX as nat
        }
    }
}

/// Display width of a styled line.
pub fn line_width(line: &Vec<Piece>) -> (w: usize)
    ensures
        w == line_width_of(pieces_view(line@)),
{
    let mut w: usize = 0;
    let mut i: usize = 0;
    while i < line.len()
        invariant
            0 <= i <= line.len(),
            w == line_width_of(pieces_view(line@.subrange(0, i as int))),
        decreases line.len() - i,
    {
        proof {
            assert(pieces_view(line@.subrange(0, i + 1)).drop_last() =~= pieces_view(
                line@.subrange(0, i as int),
            ));
        }
        w = w.saturating_add(text_width(line[i].text.as_str()));
        i += 1;
    }
    assert(line@.subrange(0, line.len() as int) =~= line@);
    w
}

/// Display widths of styled lines.
pub fn line_widths(lines: &Vec<Vec<Piece>>) -> (r: Vec<usize>)
    ensures
        r.len() == lines.len(),
        forall|i: int| 0 <= i < lines.len() ==> r@[i] == line_width_of(pieces_view(#[trigger] lines@[i]@)),
{
    let mut r: Vec<usize> = Vec::new();
    let mut i: usize = 0;
    while i < lines.len()
        invariant
            0 <= i <= lines.len(),
            r.len() == i,
            forall|k: int| 0 <= k < i ==> r@[k] == line_width_of(pieces_view(#[trigger] lines@[k]@)),
        decreases lines.len() - i,
    {
        r.push(line_width(&lines[i]));
        i += 1;
    }
    r
}

/// Rows taken by a modal's lines of the given display widths.
pub fn modal_content_height(widths: &Vec<usize>, area_width: u16) -> (h: u16)
    requires
        content_rows(widths@, modal_inner_width(area_width)) <= u16::MAX,
    ensures
        h == content_rows(widths@, modal_inner_width(area_width)),
{
    let w = area_width.saturating_sub(2);
    let inner: usize = if w >= 1 {
        w as usize
    } else {
        1
    };
    let ghost iw = modal_inner_width(area_width);
    let mut total: u16 = 0;
    let mut i: usize = 0;
    while i < widths.len()
        invariant
            inner as nat == iw,
            inner >= 1,
            content_rows(widths@, iw) <= u16::MAX,
            0 <= i <= widths.len(),
            total == content_rows(widths@.subrange(0, i as int), iw),
        decreases widths.len() - i,
    {
        proof {
            assert(widths@.subrange(0, i + 1).drop_last() =~= widths@.subrange(0, i as int));
            lemma_content_rows_prefix(widths@, iw, i + 1);
        }
        let lw = widths[i];
        let rows: u16 = if lw <= inner {
            1
        } else {
            let q = lw / inner;
            let rem = lw % inner;
            assert(rem > 0 ==> q < usize::MAX) by (nonlinear_arith)
                requires
                    inner >= 1,
                    q == lw / inner,
                    rem == lw % inner,
            {
                if rem > 0 {
                    assert(inner != 1);
                    assert(q * inner <= lw);
                }
            }
            let up = if rem > 0 {
                q + 1
            } else {
                q
            };
            #[verifier::truncate]
            (up as u16)
        };
        total = total + rows;
        i += 1;
    }
    assert(widths@.subrange(0, widths.len() as int) =~= widths@);
    total
}

/// A prefix of lines takes no more rows than all of them.
proof fn lemma_content_rows_prefix(widths: Seq<usize>, inner: nat, i: int)
    requires
        0 <= i <= widths.len(),
    ensures
        content_rows(widths.subrange(0, i), inner) <= content_rows(widths, inner),
    decreases widths.len() - i,
{
    if i < widths.len() {
        lemma_content_rows_prefix(widths, inner, i + 1);
        assert(widths.subrange(0, i + 1).drop_last() =~= widths.subrange(0, i));
    } else {
        assert(widths.subrange(0, i) =~= widths);
    }
}

impl AppView {
    /// The state with the modal's scroll limit set from its content and kept within
    /// it.
    pub open spec fn after_fit_modal(self, content_height: u16, area_height: u16) -> AppView {
        let max = sat_sub(content_height as int, sat_sub(area_height as int, 2)) as u16;
        AppView {
            modal_max_scroll: max,
            modal_scroll: if self.modal_scroll > max {
                max
            } else {
                self.modal_scroll
            },
            ..self
        }
    }
}

impl App {
    /// Sets the modal's scroll limit from its content height and clamps the scroll.
    pub fn fit_modal_scroll(&mut self, content_height: u16, area_height: u16)
        ensures
            final(self)@ == old(self)@.after_fit_modal(content_height, area_height),
    {
        let visible_height = area_height.saturating_sub(2);
        self.modal_max_scroll = content_height.saturating_sub(visible_height);
        if self.modal_scroll > self.modal_max_scroll {
            self.modal_scroll = self.modal_max_scroll;
        }
    }
}

/// Whether a modal's lines of the given display widths take at most `u16::MAX`
/// rows, as counting them needs.
pub fn modal_rows_fit(widths: &Vec<usize>, area_width: u16) -> (b: bool)
    ensures
        b == (content_rows(widths@, modal_inner_width(area_width)) <= u16::MAX),
{
    let w = area_width.saturating_sub(2);
    let inner: usize = if w >= 1 {
        w as usize
    } else {
        1
    };
    let ghost iw = modal_inner_width(area_width);
    let mut total: u32 = 0;
    let mut i: usize = 0;
    while i < widths.len()
        invariant
            iw == modal_inner_width(area_width),
            inner as nat == iw,
            inner >= 1,
            0 <= i <= widths.len(),
            total == content_rows(widths@.subrange(0, i as int), iw),
            total <= u16::MAX,
        decreases widths.len() - i,
    {
        proof {
            assert(widths@.subrange(0, i + 1).drop_last() =~= widths@.subrange(0, i as int));
        }
        let lw = widths[i];
        let rows: u16 = if lw <= inner {
            1
        } else {
            let q = lw / inner;
            let rem = lw % inner;
            assert(rem > 0 ==> q < usize::MAX) by (nonlinear_arith)
                requires
                    inner >= 1,
                    q == lw / inner,
                    rem == lw % inner,
            {
                if rem > 0 {
                    assert(inner != 1);
                    assert(q * inner <= lw);
                }
            }
            let up = if rem > 0 {
                q + 1
            } else {
                q
            };
            #[verifier::truncate]
            (up as u16)
        };
        total = total + rows as u32;
        assert(total == content_rows(widths@.subrange(0, i + 1), iw));
        if total > 0xffff {
            proof {
                lemma_content_rows_prefix(widths@, iw, i + 1);
                assert(content_rows(widths@.subrange(0, i + 1), iw) <= content_rows(widths@, iw));
                assert(content_rows(widths@, iw) > u16::MAX);
                assert(iw == modal_inner_width(area_width));
            }
            return false;
        }
        i += 1;
    }
    assert(widths@.subrange(0, widths.len() as int) =~= widths@);
    true
}

} // verus!
