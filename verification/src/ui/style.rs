//! Styled text as the screen shows it: pieces of text, each with a look drawn from
//! the palette. The front end maps looks to terminal styles.

use vstd::prelude::*;

use crate::text::owned;

verus! {

/// Colors of the palette.
#[derive(Debug, Clone, Copy, PartialEq, Eq, Structural)]
pub enum Tint {
    /// The terminal's own color
    Plain,
    /// Primary accent for focused borders, highlights, and selections
    Accent,
    /// Unfocused borders and secondary text
    Muted,
    /// Labels and sub-headlines
    Subtext,
    /// Primary body text
    Text,
    /// Error indicators
    Red,
    /// Warnings and type badges
    Yellow,
    /// Success and active indicators
    Green,
    /// Method badges and secondary highlights
    Peach,
    /// Links and informational elements
    Blue,
}

/// How a piece of text looks.
#[derive(Debug, Clone, Copy, PartialEq, Eq, Structural)]
pub struct Look {
    pub tint: Tint,
    pub bold: bool,
    pub dim: bool,
    pub italic: bool,
    pub underlined: bool,
    /// Shown on the selection background
    pub selected: bool,
}

/// A piece of text with its look.
#[derive(Debug, Clone)]
pub struct Piece {
    pub text: String,
    pub look: Look,
}

/// Abstract value of a piece.
pub struct PieceView {
    pub text: Seq<char>,
    pub look: Look,
}

impl View for Piece {
    type V = PieceView;

    open spec fn view(&self) -> PieceView {
        PieceView { text: self.text@, look: self.look }
    }
}

/// A look of one color, without emphasis.
pub open spec fn tinted(t: Tint) -> Look {
    Look { tint: t, bold: false, dim: false, italic: false, underlined: false, selected: false }
}

/// The abstract values of pieces.
pub open spec fn pieces_view(ps: Seq<Piece>) -> Seq<PieceView> {
    ps.map_values(|p: Piece| p@)
}

/// Number of characters over all pieces.
pub open spec fn text_len(ps: Seq<PieceView>) -> nat
    decreases ps.len(),
{
    if ps.len() == 0 {
        0
    } else {
        text_len(ps.drop_last()) + ps.last().text.len()
    }
}

/// The text of all pieces, in order.
pub open spec fn text_of(ps: Seq<PieceView>) -> Seq<char>
    decreases ps.len(),
{
    if ps.len() == 0 {
        Seq::empty()
    } else {
        text_of(ps.drop_last()) + ps.last().text
    }
}

impl Look {
    /// A look of one color, without emphasis.
    pub fn tint(t: Tint) -> (l: Look)
        ensures
            l == tinted(t),
    {
        Look { tint: t, bold: false, dim: false, italic: false, underlined: false, selected: false }
    }
}

impl Piece {
    /// A piece of text with a look.
    pub fn new(text: String, look: Look) -> (p: Piece)
        ensures
            p@ == (PieceView { text: text@, look }),
    {
        Piece { text, look }
    }

    /// A piece of static text with a look.
    pub fn of(text: &str, look: Look) -> (p: Piece)
        ensures
            p@ == (PieceView { text: text@, look }),
    {
        Piece { text: owned(text), look }
    }
}

/// A piece as an abstract value.
pub open spec fn styled(text: Seq<char>, look: Look) -> PieceView {
    PieceView { text, look }
}

/// A look of one color with the given emphasis.
pub open spec fn look_of(tint: Tint, bold: bool, dim: bool, italic: bool, underlined: bool) -> Look {
    Look { tint, bold, dim, italic, underlined, selected: false }
}

impl Look {
    /// A look of one color with the given emphasis.
    pub fn with(tint: Tint, bold: bool, dim: bool, italic: bool, underlined: bool) -> (l: Look)
        ensures
            l == look_of(tint, bold, dim, italic, underlined),
    {
        Look { tint, bold, dim, italic, underlined, selected: false }
    }
}

/// Border line of a pane.
#[derive(Debug, Clone, Copy, PartialEq, Eq, Structural)]
pub enum BorderKind {
    Thick,
    Rounded,
}

/// The look of a focused border: the accent color.
pub open spec fn focus_look() -> Look {
    tinted(Tint::Accent)
}

/// The look of an unfocused border: muted and dim.
pub open spec fn unfocus_look() -> Look {
    look_of(Tint::Muted, false, true, false, false)
}

/// The look of a focused border.
pub fn focus_style() -> (l: Look)
    ensures
        l == focus_look(),
{
    Look::tint(Tint::Accent)
}

/// The look of an unfocused border.
pub fn unfocus_style() -> (l: Look)
    ensures
        l == unfocus_look(),
{
    Look::with(Tint::Muted, false, true, false, false)
}

/// Returns a border look reflecting whether the pane is focused.
pub fn highlight_if_focused(is_focused: bool) -> (l: Look)
    ensures
        l == if is_focused {
            focus_look()
        } else {
            unfocus_look()
        },
{
    if is_focused {
        focus_style()
    } else {
        unfocus_style()
    }
}

/// Returns a border kind reflecting whether the pane is focused.
pub fn highlight_border_type(is_focused: bool) -> (b: BorderKind)
    ensures
        b == if is_focused {
            BorderKind::Thick
        } else {
            BorderKind::Rounded
        },
{
    if is_focused {
        BorderKind::Thick
    } else {
        BorderKind::Rounded
    }
}

/// Returns a border look for panes; unfocused while a modal overlay is active.
pub fn pane_border_style(is_focused: bool, modal_active: bool) -> (l: Look)
    ensures
        l == if is_focused && !modal_active {
            focus_look()
        } else {
            unfocus_look()
        },
{
    if modal_active {
        unfocus_style()
    } else {
        highlight_if_focused(is_focused)
    }
}

/// Returns a border kind for panes; rounded while a modal overlay is active.
pub fn pane_border_type(is_focused: bool, modal_active: bool) -> (b: BorderKind)
    ensures
        b == if is_focused && !modal_active {
            BorderKind::Thick
        } else {
            BorderKind::Rounded
        },
{
    if modal_active {
        BorderKind::Rounded
    } else {
        highlight_border_type(is_focused)
    }
}

/// A shortcut hint: the first character underlined, the rest plain, both in the
/// accent color; an empty label shows the NUL character as its first.
pub open spec fn hint_pieces(label: Seq<char>) -> Seq<PieceView> {
    let first = if label.len() > 0 {
        seq![label[0]]
    } else {
        seq!['\0']
    };
    let rest = if label.len() > 0 {
        label.drop_first()
    } else {
        Seq::empty()
    };
    seq![
        styled(first, look_of(Tint::Accent, false, false, false, true)),
        styled(rest, tinted(Tint::Accent)),
    ]
}

/// The Escape hint: `Esc` underlined and `ape` plain, in the accent color.
pub open spec fn esc_pieces() -> Seq<PieceView> {
    seq![
        styled("Esc"@, look_of(Tint::Accent, false, false, false, true)),
        styled("ape"@, tinted(Tint::Accent)),
    ]
}

/// Builds a shortcut hint with the first character underlined and the rest normal.
pub fn shortcut_hint(label: &str) -> (r: Vec<Piece>)
    ensures
        pieces_view(r@) == hint_pieces(label@),
{
    let cs = crate::text::chars_of(label);
    let (first, rest) = if cs.len() > 0 {
        let mut f = String::new();
        crate::text::push_char(&mut f, cs[0]);
        (f, crate::text::string_from(&cs, 1, cs.len()))
    } else {
        let mut f = String::new();
        crate::text::push_char(&mut f, '\0');
        (f, String::new())
    };
    proof {
        if cs.len() > 0 {
            assert(cs@.subrange(1, cs@.len() as int) =~= label@.drop_first());
        }
    }
    let r = vec![
        Piece::new(first, Look::with(Tint::Accent, false, false, false, true)),
        Piece::new(rest, Look::tint(Tint::Accent)),
    ];
    proof {
        assert(pieces_view(r@) =~= hint_pieces(label@));
    }
    r
}

/// Builds an Escape shortcut hint with "Esc" underlined and "ape" normal.
pub fn esc_hint() -> (r: Vec<Piece>)
    ensures
        pieces_view(r@) == esc_pieces(),
{
    let r = vec![
        Piece::of("Esc", Look::with(Tint::Accent, false, false, false, true)),
        Piece::of("ape", Look::tint(Tint::Accent)),
    ];
    proof {
        assert(pieces_view(r@) =~= esc_pieces());
    }
    r
}

/// A plain space.
pub open spec fn gap(n: nat) -> PieceView {
    styled(Seq::new(n, |i: int| ' '), tinted(Tint::Plain))
}

/// Appends pieces to a line.
pub fn extend_line(line: &mut Vec<Piece>, more: Vec<Piece>)
    ensures
        pieces_view(final(line)@) == pieces_view(old(line)@) + pieces_view(more@),
{
    let mut more = more;
    let ghost a = old(line)@;
    let ghost b = more@;
    line.append(&mut more);
    assert(pieces_view(line@) =~= pieces_view(a) + pieces_view(b));
}

/// A run of plain spaces.
pub fn spaces(n: usize) -> (p: Piece)
    ensures
        p@ == gap(n as nat),
{
    let mut s = String::new();
    let mut i: usize = 0;
    while i < n
        invariant
            0 <= i <= n,
            s@ == Seq::new(i as nat, |k: int| ' '),
        decreases n - i,
    {
        crate::text::push_char(&mut s, ' ');
        assert(s@ =~= Seq::new((i + 1) as nat, |k: int| ' '));
        i += 1;
    }
    Piece::new(s, Look::tint(Tint::Plain))
}

} // verus!
