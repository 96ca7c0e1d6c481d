//! Contents of the header, footer, method list, response pane and search box.

use vstd::prelude::*;

use crate::app::methods::MethodSpec;
use crate::app::model::state::{App, AppView};
use crate::settings::{Settings, SettingsView};
use crate::text::{concat, decimal_text, has_prefix, owned, starts_with, text_eq, u64_text};
use crate::ui::style::{
    esc_hint, esc_pieces, extend_line, gap, hint_pieces, look_of, pieces_view, shortcut_hint,
    spaces, styled, tinted, Look, Piece, PieceView, Tint,
};

verus! {

/// Frames of the braille spinner.
pub open spec fn spinner_glyph(i: nat) -> Seq<char> {
    let k = i % 10;
    if k == 0 {
        "\u{280b}"@
    } else if k == 1 {
        "\u{2819}"@
    } else if k == 2 {
        "\u{2839}"@
    } else if k == 3 {
        "\u{2838}"@
    } else if k == 4 {
        "\u{283c}"@
    } else if k == 5 {
        "\u{2834}"@
    } else if k == 6 {
        "\u{2826}"@
    } else if k == 7 {
        "\u{2827}"@
    } else if k == 8 {
        "\u{2807}"@
    } else {
        "\u{280f}"@
    }
}

/// Icon and color for a status text: a spinner while calling, a check, bin or copy
/// mark for success, a cross for failures, a dot otherwise.
pub open spec fn status_icon(status: Seq<char>, frame: nat) -> (Seq<char>, Tint) {
    if has_prefix(status, "Calling"@) {
        (spinner_glyph(frame), Tint::Yellow)
    } else if status == "Completed!"@ {
        ("\u{2713}"@, Tint::Green)
    } else if status == "Data cleared!"@ {
        ("\u{1f5d1}"@, Tint::Green)
    } else if status == "Copied to clipboard!"@ || status == "Selection copied!"@ || status
        == "Current page copied!"@ {
        ("\u{29c9}"@, Tint::Green)
    } else if has_prefix(status, "Error"@) || has_prefix(status, "Request failed!"@) || has_prefix(
        status,
        "Params error."@,
    ) || has_prefix(status, "Copy failed!"@) || has_prefix(status, "Failed to save settings."@) {
        ("\u{2715}"@, Tint::Red)
    } else if status == "Ready"@ {
        ("\u{25cf}"@, Tint::Muted)
    } else {
        ("\u{25cf}"@, Tint::Text)
    }
}

/// The spinner glyph of a frame.
fn spinner_frame_text(frame: usize) -> (s: String)
    ensures
        s@ == spinner_glyph(frame as nat),
{
    let k = frame % 10;
    owned(
        if k == 0 {
            "\u{280b}"
        } else if k == 1 {
            "\u{2819}"
        } else if k == 2 {
            "\u{2839}"
        } else if k == 3 {
            "\u{2838}"
        } else if k == 4 {
            "\u{283c}"
        } else if k == 5 {
            "\u{2834}"
        } else if k == 6 {
            "\u{2826}"
        } else if k == 7 {
            "\u{2827}"
        } else if k == 8 {
            "\u{2807}"
        } else {
            "\u{280f}"
        },
    )
}

/// Returns an icon and color pair based on the current status text.
pub fn status_indicator(status: &str, spinner_frame: usize) -> (r: (String, Tint))
    ensures
        (r.0@, r.1) == status_icon(status@, spinner_frame as nat),
{
    if starts_with(status, "Calling") {
        (spinner_frame_text(spinner_frame), Tint::Yellow)
    } else if text_eq(status, "Completed!") {
        (owned("\u{2713}"), Tint::Green)
    } else if text_eq(status, "Data cleared!") {
        (owned("\u{1f5d1}"), Tint::Green)
    } else if text_eq(status, "Copied to clipboard!") || text_eq(status, "Selection copied!")
        || text_eq(status, "Current page copied!") {
        (owned("\u{29c9}"), Tint::Green)
    } else if starts_with(status, "Error") || starts_with(status, "Request failed!") || starts_with(
        status,
        "Params error.",
    ) || starts_with(status, "Copy failed!") || starts_with(status, "Failed to save settings.") {
        (owned("\u{2715}"), Tint::Red)
    } else if text_eq(status, "Ready") {
        (owned("\u{25cf}"), Tint::Muted)
    } else {
        (owned("\u{25cf}"), Tint::Text)
    }
}

impl AppView {
    /// The state after a header frame: the spinner advances while calling.
    pub open spec fn after_spinner(self, status: Seq<char>) -> AppView {
        if has_prefix(status, "Calling"@) {
            AppView { spinner_frame: ((self.spinner_frame + 1) % 10) as usize, ..self }
        } else {
            self
        }
    }
}

impl App {
    /// Advances the spinner frame on every render tick while calling.
    pub fn advance_spinner(&mut self, status: &str)
        ensures
            final(self)@ == old(self)@.after_spinner(status@),
    {
        if starts_with(status, "Calling") {
            let f = self.spinner_frame;
            let next = (f % 10 + 1) % 10;
            proof {
                vstd::arithmetic::div_mod::lemma_add_mod_noop(f as int, 1, 10);
                vstd::arithmetic::div_mod::lemma_small_mod(1, 10);
            }
            self.spinner_frame = next;
        }
    }
}

/// The page indicator of the response pane, with arrows toward existing pages.
pub open spec fn page_label(page: nat, total: nat) -> Seq<char> {
    let current = page + 1;
    let body = "Page "@ + decimal_text(current) + "/"@ + decimal_text(total);
    if total == 1 {
        " Page 1/1 "@
    } else if current == 1 {
        " "@ + body + " \u{25ba} "@
    } else if current == total {
        " \u{25c4} "@ + body + " "@
    } else {
        " \u{25c4} "@ + body + " \u{25ba} "@
    }
}

/// The page indicator of the response pane.
pub fn page_indicator(page: usize, total: usize) -> (s: String)
    requires
        page < usize::MAX,
    ensures
        s@ == page_label(page as nat, total as nat),
{
    let current = page + 1;
    if total == 1 {
        return owned(" Page 1/1 ");
    }
    let body = concat(
        concat(concat("Page ", u64_text(current as u64).as_str()).as_str(), "/").as_str(),
        u64_text(total as u64).as_str(),
    );
    if current == 1 {
        concat(concat(" ", body.as_str()).as_str(), " \u{25ba} ")
    } else if current == total {
        concat(concat(" \u{25c4} ", body.as_str()).as_str(), " ")
    } else {
        concat(concat(" \u{25c4} ", body.as_str()).as_str(), " \u{25ba} ")
    }
}

/// The search box line: its label and the query, or a placeholder while the search
/// is off.
pub open spec fn search_line(s: AppView) -> Seq<PieceView> {
    if !s.search_enabled() {
        seq![
            styled("Search: "@, look_of(Tint::Muted, false, true, false, false)),
            styled("Nothing to search"@, look_of(Tint::Muted, false, true, true, false)),
        ]
    } else if s.response_search_query.len() == 0 {
        seq![styled("Search: "@, tinted(Tint::Muted)), styled(Seq::empty(), tinted(Tint::Muted))]
    } else {
        seq![styled("Search: "@, tinted(Tint::Muted)), styled(s.response_search_query, tinted(Tint::Plain))]
    }
}

/// The match counter of the search box while searching.
pub open spec fn search_counter(s: AppView) -> Option<PieceView> {
    if s.search_enabled() && s.response_search_query.len() > 0 {
        if s.response_search_matches.len() == 0 {
            Some(styled(" 0 matches "@, look_of(Tint::Muted, false, true, false, false)))
        } else {
            Some(
                styled(
                    " "@ + decimal_text((s.response_search_current + 1) as nat) + "/"@ + decimal_text(
                        s.response_search_matches.len(),
                    ) + " "@,
                    tinted(Tint::Accent),
                ),
            )
        }
    } else {
        None
    }
}

/// What the search box shows.
pub struct SearchBox {
    /// The label and the query
    pub line: Vec<Piece>,
    /// The match counter on the border while searching
    pub counter: Option<Piece>,
    /// Whether a search is under way: thick accent border, else a dim rounded one
    pub active: bool,
}

/// Builds the search box below the response pane in fullscreen mode.
pub fn search_box(app: &App) -> (b: SearchBox)
    requires
        app.response_search_current < usize::MAX,
    ensures
        pieces_view(b.line@) == search_line(app@),
        match b.counter {
            Some(p) => search_counter(app@) == Some(p@),
            None => search_counter(app@) is None,
        },
        b.active == (app@.search_enabled() && app@.response_search_query.len() > 0),
{
    let enabled = app.is_response_search_enabled();
    let empty_query = crate::text::char_count(app.response_search_query.as_str()) == 0;
    let active = enabled && !empty_query;
    let line = if !enabled {
        vec![
            Piece::of("Search: ", Look::with(Tint::Muted, false, true, false, false)),
            Piece::of("Nothing to search", Look::with(Tint::Muted, false, true, true, false)),
        ]
    } else if empty_query {
        vec![Piece::of("Search: ", Look::tint(Tint::Muted)), Piece::new(String::new(), Look::tint(Tint::Muted))]
    } else {
        vec![
            Piece::of("Search: ", Look::tint(Tint::Muted)),
            Piece::of(app.response_search_query.as_str(), Look::tint(Tint::Plain)),
        ]
    };
    proof {
        assert(pieces_view(line@) =~= search_line(app@));
    }
    let counter = if active {
        if app.response_search_matches.len() == 0 {
            Some(Piece::of(" 0 matches ", Look::with(Tint::Muted, false, true, false, false)))
        } else {
            let cur = u64_text((app.response_search_current + 1) as u64);
            let total = u64_text(app.response_search_matches.len() as u64);
            let text = concat(
                concat(concat(concat(" ", cur.as_str()).as_str(), "/").as_str(), total.as_str()).as_str(),
                " ",
            );
            Some(Piece::new(text, Look::tint(Tint::Accent)))
        }
    } else {
        None
    };
    SearchBox { line, counter, active }
}

/// An entry of the method list: the HTTP method as a dim badge, then the name.
pub open spec fn method_item(m: MethodSpec) -> Seq<PieceView> {
    seq![
        styled(m.http_method@ + " "@, look_of(Tint::Peach, false, true, false, false)),
        styled(m.name@, tinted(Tint::Plain)),
    ]
}

/// Entries of the method list.
pub fn method_items(methods: &Vec<MethodSpec>) -> (r: Vec<Vec<Piece>>)
    ensures
        r.len() == methods.len(),
        forall|i: int| 0 <= i < methods.len() ==> pieces_view(#[trigger] r@[i]@) == method_item(methods@[i]),
{
    let mut r: Vec<Vec<Piece>> = Vec::new();
    let mut i: usize = 0;
    while i < methods.len()
        invariant
            0 <= i <= methods.len(),
            r.len() == i,
            forall|k: int| 0 <= k < i ==> pieces_view(#[trigger] r@[k]@) == method_item(methods@[k]),
        decreases methods.len() - i,
    {
        let m = &methods[i];
        let item = vec![
            Piece::new(concat(m.http_method, " "), Look::with(Tint::Peach, false, true, false, false)),
            Piece::of(m.name, Look::tint(Tint::Plain)),
        ];
        assert(pieces_view(item@) =~= method_item(methods@[i as int]));
        r.push(item);
        i += 1;
    }
    r
}

/// The name of the active network, or `none`.
pub open spec fn active_name(s: SettingsView) -> Seq<char> {
    if s.active_network < s.networks.len() {
        s.networks[s.active_network as int].name
    } else {
        "none"@
    }
}

/// The footer's network part: the `Network` hint and the active network's name.
pub open spec fn footer_info_pieces(s: SettingsView) -> Seq<PieceView> {
    seq![gap(1)] + hint_pieces("Network"@) + seq![
        styled(": "@, tinted(Tint::Muted)),
        styled(active_name(s), tinted(Tint::Green)),
    ]
}

/// The footer's network part.
pub fn footer_info(settings: &Settings) -> (r: Vec<Piece>)
    ensures
        pieces_view(r@) == footer_info_pieces(settings@),
{
    let name = match settings.active_network() {
        Some(n) => owned(n.name.as_str()),
        None => owned("none"),
    };
    let mut r = vec![spaces(1)];
    extend_line(&mut r, shortcut_hint("Network"));
    extend_line(
        &mut r,
        vec![Piece::of(": ", Look::tint(Tint::Muted)), Piece::new(name, Look::tint(Tint::Green))],
    );
    r
}

/// The footer's actions: settings, about and quit.
pub open spec fn footer_action_pieces() -> Seq<PieceView> {
    let bar = styled("  \u{2502}  "@, tinted(Tint::Muted));
    hint_pieces("Settings"@) + seq![bar] + hint_pieces("About"@) + seq![bar] + hint_pieces("Quit"@) + seq![gap(1)]
}

/// The footer's actions.
pub fn footer_actions() -> (r: Vec<Piece>)
    ensures
        pieces_view(r@) == footer_action_pieces(),
{
    let mut r = shortcut_hint("Settings");
    extend_line(&mut r, vec![Piece::of("  \u{2502}  ", Look::tint(Tint::Muted))]);
    extend_line(&mut r, shortcut_hint("About"));
    extend_line(&mut r, vec![Piece::of("  \u{2502}  ", Look::tint(Tint::Muted))]);
    extend_line(&mut r, shortcut_hint("Quit"));
    extend_line(&mut r, vec![spaces(1)]);
    r
}

/// Hints separated by single spaces, with a space on each side.
pub open spec fn hint_row(parts: Seq<Seq<PieceView>>) -> Seq<PieceView>
    decreases parts.len(),
{
    if parts.len() == 0 {
        seq![gap(1)]
    } else {
        hint_row(parts.drop_last()) + parts.last() + seq![gap(1)]
    }
}

/// The hints on the response pane's border.
pub open spec fn response_hint_row(focused: bool, fullscreen: bool, modal_active: bool) -> Option<Seq<PieceView>> {
    if fullscreen {
        Some(hint_row(seq![hint_pieces("Copy"@), esc_pieces()]))
    } else if focused && !modal_active {
        Some(hint_row(seq![hint_pieces("Copy"@), hint_pieces("Purge"@), hint_pieces("Fullscreen"@)]))
    } else {
        None
    }
}

/// The hints on the request pane's border.
pub open spec fn request_hint_row(focused: bool, fullscreen: bool, modal_active: bool) -> Option<Seq<PieceView>> {
    if modal_active {
        None
    } else if fullscreen {
        Some(hint_row(seq![hint_pieces("Run"@), hint_pieces("Purge"@), esc_pieces()]))
    } else if focused {
        Some(hint_row(seq![hint_pieces("Run"@), hint_pieces("Purge"@), hint_pieces("Fullscreen"@)]))
    } else {
        None
    }
}

/// The hints on the method list's border.
pub open spec fn methods_hint_row(focused: bool, modal_active: bool) -> Option<Seq<PieceView>> {
    if focused && !modal_active {
        Some(hint_row(seq![hint_pieces("Run"@), hint_pieces("Info"@)]))
    } else {
        None
    }
}

/// Hints of labels (an empty label stands for the Escape hint), spaced.
fn build_hint_row(labels: &Vec<&str>) -> (r: Vec<Piece>)
    ensures
        pieces_view(r@) == hint_row(
            labels@.map_values(
                |l: &str| if l@.len() == 0 {
                    esc_pieces()
                } else {
                    hint_pieces(l@)
                },
            ),
        ),
{
    let ghost parts = labels@.map_values(
        |l: &str| if l@.len() == 0 {
            esc_pieces()
        } else {
            hint_pieces(l@)
        },
    );
    let mut r = vec![spaces(1)];
    let mut i: usize = 0;
    while i < labels.len()
        invariant
            0 <= i <= labels.len(),
            parts.len() == labels.len(),
            parts == labels@.map_values(
                |l: &str| if l@.len() == 0 {
                    esc_pieces()
                } else {
                    hint_pieces(l@)
                },
            ),
            pieces_view(r@) == hint_row(parts.subrange(0, i as int)),
        decreases labels.len() - i,
    {
        let label = labels[i];
        let hint = if crate::text::char_count(label) == 0 {
            esc_hint()
        } else {
            shortcut_hint(label)
        };
        extend_line(&mut r, hint);
        extend_line(&mut r, vec![spaces(1)]);
        proof {
            assert(parts.subrange(0, i + 1).drop_last() =~= parts.subrange(0, i as int));
        }
        i += 1;
    }
    assert(parts.subrange(0, labels.len() as int) =~= parts);
    r
}

/// Right aligned action hints on the response pane's top border.
pub fn response_hints(focused: bool, fullscreen: bool, modal_active: bool) -> (r: Option<Vec<Piece>>)
    ensures
        match r {
            Some(v) => response_hint_row(focused, fullscreen, modal_active) == Some(pieces_view(v@)),
            None => response_hint_row(focused, fullscreen, modal_active) is None,
        },
{
    if fullscreen {
        let labels = vec!["Copy", ""];
        proof {
            reveal_strlit("");
            reveal_strlit("Copy");
        }
        let r = build_hint_row(&labels);
        proof {
            assert(labels@.map_values(|l: &str| if l@.len() == 0 { esc_pieces() } else { hint_pieces(l@) })
                =~= seq![hint_pieces("Copy"@), esc_pieces()]);
        }
        Some(r)
    } else if focused && !modal_active {
        let labels = vec!["Copy", "Purge", "Fullscreen"];
        proof {
            reveal_strlit("Copy");
            reveal_strlit("Purge");
            reveal_strlit("Fullscreen");
        }
        let r = build_hint_row(&labels);
        proof {
            assert(labels@.map_values(|l: &str| if l@.len() == 0 { esc_pieces() } else { hint_pieces(l@) })
                =~= seq![hint_pieces("Copy"@), hint_pieces("Purge"@), hint_pieces("Fullscreen"@)]);
        }
        Some(r)
    } else {
        None
    }
}

/// Right aligned action hints on the request pane's top border.
pub fn request_hints(focused: bool, fullscreen: bool, modal_active: bool) -> (r: Option<Vec<Piece>>)
    ensures
        match r {
            Some(v) => request_hint_row(focused, fullscreen, modal_active) == Some(pieces_view(v@)),
            None => request_hint_row(focused, fullscreen, modal_active) is None,
        },
{
    if modal_active {
        None
    } else if fullscreen {
        let labels = vec!["Run", "Purge", ""];
        proof {
            reveal_strlit("");
            reveal_strlit("Run");
            reveal_strlit("Purge");
        }
        let r = build_hint_row(&labels);
        proof {
            assert(labels@.map_values(|l: &str| if l@.len() == 0 { esc_pieces() } else { hint_pieces(l@) })
                =~= seq![hint_pieces("Run"@), hint_pieces("Purge"@), esc_pieces()]);
        }
        Some(r)
    } else if focused {
        let labels = vec!["Run", "Purge", "Fullscreen"];
        proof {
            reveal_strlit("Run");
            reveal_strlit("Purge");
            reveal_strlit("Fullscreen");
        }
        let r = build_hint_row(&labels);
        proof {
            assert(labels@.map_values(|l: &str| if l@.len() == 0 { esc_pieces() } else { hint_pieces(l@) })
                =~= seq![hint_pieces("Run"@), hint_pieces("Purge"@), hint_pieces("Fullscreen"@)]);
        }
        Some(r)
    } else {
        None
    }
}

/// Right aligned action hints on the method list's top border.
pub fn methods_hints(focused: bool, modal_active: bool) -> (r: Option<Vec<Piece>>)
    ensures
        match r {
            Some(v) => methods_hint_row(focused, modal_active) == Some(pieces_view(v@)),
            None => methods_hint_row(focused, modal_active) is None,
        },
{
    if focused && !modal_active {
        let labels = vec!["Run", "Info"];
        proof {
            reveal_strlit("Run");
            reveal_strlit("Info");
        }
        let r = build_hint_row(&labels);
        proof {
            assert(labels@.map_values(|l: &str| if l@.len() == 0 { esc_pieces() } else { hint_pieces(l@) })
                =~= seq![hint_pieces("Run"@), hint_pieces("Info"@)]);
        }
        Some(r)
    } else {
        None
    }
}

/// The Escape hint on a modal's top border.
pub fn modal_esc_hint() -> (r: Vec<Piece>)
    ensures
        pieces_view(r@) == hint_row(seq![esc_pieces()]),
{
    let labels = vec![""];
    proof {
        reveal_strlit("");
    }
    let r = build_hint_row(&labels);
    proof {
        assert(labels@.map_values(|l: &str| if l@.len() == 0 { esc_pieces() } else { hint_pieces(l@) })
            =~= seq![esc_pieces()]);
    }
    r
}

} // verus!
