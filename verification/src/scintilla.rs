//! The Scintilla edit control as the editor drives it: how it is built, the
//! messages each of its methods sends, and the decisions the editor takes on
//! the control's replies and notifications.

use vstd::prelude::*;
use crate::color::{scintilla_rgb_color, lemma_trim_single_hash, rgb_hex_value};
use crate::sci::{
    EditorStep, EditorStepView, SciCall, SciCallView, SciParam, SciParamView, value_call,
    text_call, make_value_call, steps_view, calls_view, push_call, push_calls, push_step,
    SCI_SETEOLMODE, SCI_SETTABWIDTH, SCI_SETCODEPAGE, SCI_STYLESETFORE, SCI_STYLESETBACK,
    SCI_STYLESETSIZE, SCI_STYLESETFONT, SCI_GETSELECTIONSTART, SCI_GETSELECTIONEND,
    SCI_GETLINECOUNT, SCI_GETSELTEXT, SCI_SETCARETWIDTH, SCI_SETMARGINTYPEN,
    SCI_SETMARGINWIDTHN, SCI_SETMARGINBACKN, SCI_SETMARGINS, SCI_SETWRAPMODE, SCI_TEXTWIDTH,
    SCI_SETENDATLASTLINE, SCI_SETWRAPVISUALFLAGS, SCI_SETFONTQUALITY, SCI_SETTECHNOLOGY,
    SCI_SETIMEINTERACTION, SCI_SETELEMENTCOLOUR, SCI_COLOURISE, SCI_SETKEYWORDS, SCI_SETILEXER,
    SCN_MODIFIED, SCN_ZOOM, STYLE_DEFAULT, STYLE_LINENUMBER, SC_CP_UTF8,
    SC_TECHNOLOGY_DIRECTWRITERETAIN, SC_EFF_QUALITY_ANTIALIASED, SC_WRAP_WORD,
    SC_WRAPVISUALFLAG_START, SC_EOL_CRLF, SC_IME_INLINE, SC_MARGIN_NUMBER, SC_ELEMENT_CARET,
    SC_ELEMENT_CARET_LINE_BACK, SCE_SQL_DEFAULT, SCE_SQL_COMMENT, SCE_SQL_COMMENTLINE,
    SCE_SQL_COMMENTDOC, SCE_SQL_NUMBER, SCE_SQL_WORD, SCE_SQL_STRING, SCE_SQL_CHARACTER,
    SCE_SQL_SQLPLUS, SCE_SQL_SQLPLUS_PROMPT, SCE_SQL_OPERATOR, SCE_SQL_IDENTIFIER, SCE_SQL_WORD2,
    SCE_SQL_COMMENTDOCKEYWORD, SCE_SQL_COMMENTDOCKEYWORDERROR, SCE_SQL_USER1, SCE_SQL_USER2,
    SCE_SQL_USER3, SCE_SQL_USER4,
};
use crate::text::{
    has_no_nul, join_with_spaces, word_views, decimal, join_with_space, push_decimal,
    lemma_join_no_nul, lemma_decimal_round_trip, all_digits, decimal_value,
};

verus! {

/// `WS_CHILD`: the control is a child window.
pub const WS_CHILD: u32 = 0x4000_0000;
/// `WS_VISIBLE`: the control is shown.
pub const WS_VISIBLE: u32 = 0x1000_0000;
/// `WS_EX_CLIENTEDGE`: the control has a sunken edge.
pub const WS_EX_CLIENTEDGE: u32 = 0x0000_0200;
/// `WM_NOTIFY`: the message that carries a control's notifications to its parent.
pub const WM_NOTIFY: u32 = 0x004E;
/// The virtual key code of F5.
pub const KEY_F5: u32 = 0x74;

/// A Scintilla control: its window handle, once it has one, and the
/// control's direct pointer, which every direct call passes back.
#[derive(Debug, Clone, PartialEq, Eq)]
pub struct ScintillaEdit {
    pub handle: Option<usize>,
    pub sci_direct_ptr: isize,
}

impl Default for ScintillaEdit {
    fn default() -> (res: Self)
        ensures
            res.handle is None,
            res.sci_direct_ptr == 0,
    {
        ScintillaEdit { handle: None, sci_direct_ptr: 0 }
    }
}

/// The settings of a control still to be built.
#[derive(Debug, Clone, Copy, PartialEq, Eq)]
pub struct ScintillaEditBuilder<'a> {
    pub text: &'a str,
    pub size: (i32, i32),
    pub position: (i32, i32),
    pub ex_flags: u32,
    pub parent: Option<usize>,
}

/// Why a control could not be built.
#[derive(Debug, Clone, Copy, PartialEq, Eq)]
pub enum BuildError {
    /// No parent window was given; the control is a child window and needs one.
    NoParent,
}

/// What the window system is asked for to create the control.
#[derive(Debug, Clone, Copy, PartialEq, Eq)]
pub struct WindowRequest<'a> {
    pub class_name: &'static str,
    pub forced_flags: u32,
    pub flags: u32,
    pub ex_flags: u32,
    pub size: (i32, i32),
    pub position: (i32, i32),
    pub text: &'a str,
    pub parent: usize,
}

/// The window to create, and the work to do on the control once it exists.
#[derive(Debug, Clone, PartialEq, Eq)]
pub struct BuildPlan<'a> {
    pub window: WindowRequest<'a>,
    pub setup: Vec<EditorStep>,
}

impl<'a> ScintillaEditBuilder<'a> {
    /// Sets the size of the control.
    pub fn size(self, size: (i32, i32)) -> (res: ScintillaEditBuilder<'a>)
        ensures
            res == (ScintillaEditBuilder { size, ..self }),
    {
        let mut b = self;
        b.size = size;
        b
    }

    /// Sets the position of the control.
    pub fn position(self, pos: (i32, i32)) -> (res: ScintillaEditBuilder<'a>)
        ensures
            res == (ScintillaEditBuilder { position: pos, ..self }),
    {
        let mut b = self;
        b.position = pos;
        b
    }

    /// Sets the parent window of the control.
    pub fn parent(self, p: usize) -> (res: ScintillaEditBuilder<'a>)
        ensures
            res == (ScintillaEditBuilder { parent: Some(p), ..self }),
    {
        let mut b = self;
        b.parent = Some(p);
        b
    }
}

/// The steps that send these calls, in order.
pub open spec fn as_steps(calls: Seq<SciCallView>) -> Seq<EditorStepView> {
    calls.map_values(|c: SciCallView| EditorStepView::Call(c))
}

/// The two calls that give a style its foreground and background colours.
pub open spec fn elem_color_calls(elem: u32, fore: u32, back: u32) -> Seq<SciCallView> {
    seq![
        value_call(SCI_STYLESETFORE, elem as usize, fore as isize),
        value_call(SCI_STYLESETBACK, elem as usize, back as isize),
    ]
}

/// The steps that colour each style of a table of (style, foreground, background).
pub open spec fn style_table_steps(table: Seq<(u32, u32, u32)>) -> Seq<EditorStepView>
    decreases table.len(),
{
    if table.len() == 0 {
        Seq::empty()
    } else {
        let (e, f, b) = table.last();
        style_table_steps(table.drop_last()) + as_steps(elem_color_calls(e, f, b))
    }
}

/// The editor's colours: the dark theme's background `#282C34`, its text
/// `#ABB2BF`, comments `#7F848E`, numbers `#D19A66`, keywords `#C678DD` and
/// strings `#98C379`, in Scintilla's blue-green-red order.
pub open spec fn color_scheme_table() -> Seq<(u32, u32, u32)> {
    let default_bg: u32 = 0x342C28;
    let default_fg: u32 = 0xBFB2AB;
    let comment_fg: u32 = 0x8E847F;
    let number_fg: u32 = 0x669AD1;
    let keyword_fg: u32 = 0xDD78C6;
    let string_fg: u32 = 0x79C398;
    seq![
        (STYLE_DEFAULT, default_fg, default_bg),
        (STYLE_LINENUMBER, comment_fg, default_bg),
        (SCE_SQL_DEFAULT, default_fg, default_bg),
        (SCE_SQL_COMMENT, comment_fg, default_bg),
        (SCE_SQL_COMMENTLINE, comment_fg, default_bg),
        (SCE_SQL_COMMENTDOC, comment_fg, default_bg),
        (SCE_SQL_NUMBER, number_fg, default_bg),
        (SCE_SQL_WORD, keyword_fg, default_bg),
        (SCE_SQL_STRING, string_fg, default_bg),
        (SCE_SQL_CHARACTER, string_fg, default_bg),
        (SCE_SQL_SQLPLUS, 0xFF000u32, default_bg),
        (SCE_SQL_SQLPLUS_PROMPT, 0xFF000u32, default_bg),
        (SCE_SQL_OPERATOR, default_fg, default_bg),
        (SCE_SQL_IDENTIFIER, default_fg, default_bg),
        (SCE_SQL_WORD2, keyword_fg, default_bg),
        (SCE_SQL_COMMENTDOCKEYWORD, 0xFF0000u32, default_bg),
        (SCE_SQL_COMMENTDOCKEYWORDERROR, 0xFF0000u32, default_bg),
        (SCE_SQL_USER1, 0xFF0000u32, default_bg),
        (SCE_SQL_USER2, 0xFF0000u32, default_bg),
        (SCE_SQL_USER3, 0xFF0000u32, default_bg),
        (SCE_SQL_USER4, 0xFF0000u32, default_bg),
    ]
}

/// Every style of the colour scheme is drawn on the theme's background, and
/// the scheme colours each style once.
pub proof fn lemma_color_scheme_background()
    ensures
        color_scheme_table().len() == 21,
        forall|i: int| 0 <= i < color_scheme_table().len() ==> (#[trigger] color_scheme_table()[i]).2
            == 0x342C28u32,
        forall|i: int, j: int|
            0 <= i < j < color_scheme_table().len() ==> (#[trigger] color_scheme_table()[i]).0
                != (#[trigger] color_scheme_table()[j]).0,
{
}

/// The steps of `setup_color_scheme`: every style coloured, two margins, the
/// first of them showing line numbers, and the line-number margin sized.
pub open spec fn color_scheme_steps() -> Seq<EditorStepView> {
    style_table_steps(color_scheme_table()) + seq![
        EditorStepView::Call(value_call(SCI_SETMARGINS, 2, 0)),
        EditorStepView::Call(value_call(SCI_SETMARGINTYPEN, 0, SC_MARGIN_NUMBER as isize)),
        EditorStepView::UpdateLineNumber,
    ]
}

/// The calls of `setup_caret`: caret width, caret colour, and the colour of
/// the caret line's background.
pub open spec fn caret_calls(width: u32, color: isize) -> Seq<SciCallView> {
    seq![
        value_call(SCI_SETCARETWIDTH, width as usize, 0),
        value_call(SCI_SETELEMENTCOLOUR, SC_ELEMENT_CARET as usize, color),
        value_call(SCI_SETELEMENTCOLOUR, SC_ELEMENT_CARET_LINE_BACK as usize, (0xFF3E342Fu32 as isize)),
    ]
}

/// The SQL words that the editor highlights as keywords.
pub open spec fn sql_keywords() -> Seq<Seq<char>> {
    seq![
        "select"@, "from"@, "where"@, "create"@, "delete"@, "update"@, "drop"@, "table"@,
        "in"@, "and"@, "or"@, "left"@, "right"@, "join"@, "inner"@, "alter"@, "default"@,
        "order"@, "by"@, "desc"@, "asc"@, "group"@, "having"@, "not"@, "null"@, "limit"@,
        "add"@, "column"@,
    ]
}

/// What a newly created control is set up with, in order: UTF-8, DirectWrite
/// drawing, antialiased fonts, word wrap marked at the line start, CRLF line
/// ends, tabs of two, scrolling past the last line, inline input methods,
/// Cascadia Code at 12 points, the SQL lexer, the keyword list, the colour
/// scheme, and a caret two pixels wide.
pub open spec fn initial_setup_steps() -> Seq<EditorStepView> {
    as_steps(
        seq![
            value_call(SCI_SETCODEPAGE, SC_CP_UTF8 as usize, 0),
            value_call(SCI_SETTECHNOLOGY, SC_TECHNOLOGY_DIRECTWRITERETAIN as usize, 0),
            value_call(SCI_SETFONTQUALITY, SC_EFF_QUALITY_ANTIALIASED as usize, 0),
            value_call(SCI_SETWRAPMODE, SC_WRAP_WORD as usize, 0),
            value_call(SCI_SETWRAPVISUALFLAGS, SC_WRAPVISUALFLAG_START as usize, 0),
            value_call(SCI_SETEOLMODE, SC_EOL_CRLF as usize, 0),
            value_call(SCI_SETTABWIDTH, 2, 0),
            value_call(SCI_SETENDATLASTLINE, 0, 0),
            value_call(SCI_SETIMEINTERACTION, SC_IME_INLINE as usize, 0),
            text_call(SCI_STYLESETFONT, STYLE_DEFAULT as usize, "Cascadia Code"@),
            value_call(SCI_STYLESETSIZE, STYLE_DEFAULT as usize, 12),
        ],
    ) + seq![
        EditorStepView::InstallLexer("sql"@),
        EditorStepView::Call(text_call(SCI_SETKEYWORDS, 1, join_with_spaces(sql_keywords()))),
    ] + color_scheme_steps() + as_steps(caret_calls(2, (0xFFE75C27u32 as isize)))
}

/// The text whose width sizes the line-number margin: two zeros, then the
/// line count in decimal.
pub open spec fn line_number_probe(line_count: nat) -> Seq<char> {
    seq!['0', '0'] + decimal(line_count)
}

/// Where `update_line_number` stands: about to ask for the line count, waiting
/// for the line count, or waiting for the width of the probe text.
#[derive(Debug, Clone, Copy, PartialEq, Eq)]
pub enum LineNumberStage {
    Start,
    LineCount,
    TextWidth,
}

/// Where `get_sel_text` stands: about to ask, waiting for the selection's
/// end, or waiting for its start, the end being known.
#[derive(Debug, Clone, Copy, PartialEq, Eq)]
pub enum SelTextStage {
    Start,
    SelectionEnd,
    SelectionStart { end: usize },
}

/// What `get_sel_text` does next.
#[derive(Debug, Clone, PartialEq, Eq)]
pub enum SelTextStep {
    /// Send the call and come back with its reply at the given stage.
    Query(SciCall, SelTextStage),
    /// Send the call, whose `lParam` is a buffer, and read the buffer with
    /// `text_from_nul_terminated`.
    Fill(SciCall),
    /// The selection is empty: there is no text.
    Empty,
}

/// The steps that a notification from the control leads to.
pub open spec fn notify_steps(
    handle: Option<usize>,
    msg: u32,
    from: usize,
    code: u32,
    lines_added: isize,
) -> Seq<EditorStepView> {
    if msg == WM_NOTIFY && handle == Some(from) {
        if code == SCN_MODIFIED {
            seq![EditorStepView::Call(value_call(SCI_COLOURISE, 0, -1isize))] + if lines_added != 0 {
                seq![EditorStepView::UpdateLineNumber]
            } else {
                Seq::empty()
            }
        } else if code == SCN_ZOOM {
            seq![EditorStepView::UpdateLineNumber]
        } else {
            Seq::empty()
        }
    } else {
        Seq::empty()
    }
}

/// A change of the control's own text recolours it, and resizes the
/// line-number margin exactly when the line count changed, whether lines were
/// added (positive) or removed (negative). A zoom only resizes the margin.
/// Notifications from other windows, and other messages, do nothing.
pub proof fn lemma_notify_reactions(h: usize, other: usize, code: u32, msg: u32, k: isize)
    requires
        other != h,
        msg != WM_NOTIFY,
    ensures
        k != 0 ==> notify_steps(Some(h), WM_NOTIFY, h, SCN_MODIFIED, k) == seq![
            EditorStepView::Call(value_call(SCI_COLOURISE, 0, -1isize)),
            EditorStepView::UpdateLineNumber,
        ],
        notify_steps(Some(h), WM_NOTIFY, h, SCN_MODIFIED, 0) == seq![
            EditorStepView::Call(value_call(SCI_COLOURISE, 0, -1isize)),
        ],
        notify_steps(Some(h), WM_NOTIFY, h, SCN_ZOOM, k) == seq![EditorStepView::UpdateLineNumber],
        code != SCN_MODIFIED && code != SCN_ZOOM ==> notify_steps(Some(h), WM_NOTIFY, h, code, k).len()
            == 0,
        notify_steps(Some(h), WM_NOTIFY, other, code, k).len() == 0,
        notify_steps(None, WM_NOTIFY, h, code, k).len() == 0,
        notify_steps(Some(h), msg, h, code, k).len() == 0,
{
    assert(seq![EditorStepView::Call(value_call(SCI_COLOURISE, 0, -1isize))] + Seq::<
        EditorStepView,
    >::empty() =~= seq![EditorStepView::Call(value_call(SCI_COLOURISE, 0, -1isize))]);
    assert(seq![EditorStepView::Call(value_call(SCI_COLOURISE, 0, -1isize))] + seq![
        EditorStepView::UpdateLineNumber,
    ] =~= seq![
        EditorStepView::Call(value_call(SCI_COLOURISE, 0, -1isize)),
        EditorStepView::UpdateLineNumber,
    ]);
}

/// The colour-scheme table gives every style the dark theme's colours, read
/// from their `#RRGGBB` texts: keywords `#C678DD`, strings and characters
/// `#98C379`, numbers `#D19A66`, comments and line numbers `#7F848E`, plain
/// text, operators and identifiers `#ABB2BF`, all on `#282C34`; SQL*Plus in
/// 0x0FF000 and the doc-comment keywords and user styles in 0xFF0000.
pub proof fn lemma_color_scheme_theme()
    ensures
        forall|i: int|
            0 <= i < color_scheme_table().len() ==> {
                let (style, fore, back) = #[trigger] color_scheme_table()[i];
                &&& back as nat == rgb_hex_value("#282C34"@)
                &&& (style == SCE_SQL_WORD || style == SCE_SQL_WORD2) ==> fore as nat
                    == rgb_hex_value("#C678DD"@)
                &&& (style == SCE_SQL_STRING || style == SCE_SQL_CHARACTER) ==> fore as nat
                    == rgb_hex_value("#98C379"@)
                &&& style == SCE_SQL_NUMBER ==> fore as nat == rgb_hex_value("#D19A66"@)
                &&& (style == SCE_SQL_COMMENT || style == SCE_SQL_COMMENTLINE || style
                    == SCE_SQL_COMMENTDOC || style == STYLE_LINENUMBER) ==> fore as nat
                    == rgb_hex_value("#7F848E"@)
                &&& (style == STYLE_DEFAULT || style == SCE_SQL_DEFAULT || style == SCE_SQL_OPERATOR
                    || style == SCE_SQL_IDENTIFIER) ==> fore as nat == rgb_hex_value("#ABB2BF"@)
                &&& (style == SCE_SQL_SQLPLUS || style == SCE_SQL_SQLPLUS_PROMPT) ==> fore
                    == 0xFF000u32
                &&& (style == SCE_SQL_COMMENTDOCKEYWORD || style == SCE_SQL_COMMENTDOCKEYWORDERROR
                    || style == SCE_SQL_USER1 || style == SCE_SQL_USER2 || style == SCE_SQL_USER3
                    || style == SCE_SQL_USER4) ==> fore == 0xFF0000u32
            },
        forall|style: u32|
            #![trigger color_scheme_styles().contains(style)]
            color_scheme_styles().contains(style) <==> (style == STYLE_DEFAULT || style
                == STYLE_LINENUMBER || style == SCE_SQL_DEFAULT || style == SCE_SQL_COMMENT || style
                == SCE_SQL_COMMENTLINE || style == SCE_SQL_COMMENTDOC || style == SCE_SQL_NUMBER
                || style == SCE_SQL_WORD || style == SCE_SQL_STRING || style == SCE_SQL_CHARACTER
                || style == SCE_SQL_SQLPLUS || style == SCE_SQL_SQLPLUS_PROMPT || style
                == SCE_SQL_OPERATOR || style == SCE_SQL_IDENTIFIER || style == SCE_SQL_WORD2
                || style == SCE_SQL_COMMENTDOCKEYWORD || style == SCE_SQL_COMMENTDOCKEYWORDERROR
                || style == SCE_SQL_USER1 || style == SCE_SQL_USER2 || style == SCE_SQL_USER3
                || style == SCE_SQL_USER4),
{
    reveal_strlit("#282C34");
    reveal_strlit("#ABB2BF");
    reveal_strlit("#7F848E");
    reveal_strlit("#D19A66");
    reveal_strlit("#C678DD");
    reveal_strlit("#98C379");
    lemma_trim_single_hash("#282C34"@);
    lemma_trim_single_hash("#ABB2BF"@);
    lemma_trim_single_hash("#7F848E"@);
    lemma_trim_single_hash("#D19A66"@);
    lemma_trim_single_hash("#C678DD"@);
    lemma_trim_single_hash("#98C379"@);
    assert(rgb_hex_value("#282C34"@) == 0x342C28);
    assert(rgb_hex_value("#ABB2BF"@) == 0xBFB2AB);
    assert(rgb_hex_value("#7F848E"@) == 0x8E847F);
    assert(rgb_hex_value("#D19A66"@) == 0x669AD1);
    assert(rgb_hex_value("#C678DD"@) == 0xDD78C6);
    assert(rgb_hex_value("#98C379"@) == 0x79C398);
    let t = color_scheme_table();
    assert forall|style: u32| color_scheme_styles().contains(style) implies (style == STYLE_DEFAULT
        || style == STYLE_LINENUMBER || style == SCE_SQL_DEFAULT || style == SCE_SQL_COMMENT
        || style == SCE_SQL_COMMENTLINE || style == SCE_SQL_COMMENTDOC || style == SCE_SQL_NUMBER
        || style == SCE_SQL_WORD || style == SCE_SQL_STRING || style == SCE_SQL_CHARACTER || style
        == SCE_SQL_SQLPLUS || style == SCE_SQL_SQLPLUS_PROMPT || style == SCE_SQL_OPERATOR || style
        == SCE_SQL_IDENTIFIER || style == SCE_SQL_WORD2 || style == SCE_SQL_COMMENTDOCKEYWORD
        || style == SCE_SQL_COMMENTDOCKEYWORDERROR || style == SCE_SQL_USER1 || style
        == SCE_SQL_USER2 || style == SCE_SQL_USER3 || style == SCE_SQL_USER4) by {
        let i = choose|i: int| 0 <= i < t.len() && t[i].0 == style;
    }
    assert forall|style: u32| (style == STYLE_DEFAULT
        || style == STYLE_LINENUMBER || style == SCE_SQL_DEFAULT || style == SCE_SQL_COMMENT
        || style == SCE_SQL_COMMENTLINE || style == SCE_SQL_COMMENTDOC || style == SCE_SQL_NUMBER
        || style == SCE_SQL_WORD || style == SCE_SQL_STRING || style == SCE_SQL_CHARACTER || style
        == SCE_SQL_SQLPLUS || style == SCE_SQL_SQLPLUS_PROMPT || style == SCE_SQL_OPERATOR || style
        == SCE_SQL_IDENTIFIER || style == SCE_SQL_WORD2 || style == SCE_SQL_COMMENTDOCKEYWORD
        || style == SCE_SQL_COMMENTDOCKEYWORDERROR || style == SCE_SQL_USER1 || style
        == SCE_SQL_USER2 || style == SCE_SQL_USER3 || style == SCE_SQL_USER4) implies color_scheme_styles().contains(style) by {
        if style == STYLE_DEFAULT { assert(t[0].0 == style); }
        else if style == STYLE_LINENUMBER { assert(t[1].0 == style); }
        else if style == SCE_SQL_DEFAULT { assert(t[2].0 == style); }
        else if style == SCE_SQL_COMMENT { assert(t[3].0 == style); }
        else if style == SCE_SQL_COMMENTLINE { assert(t[4].0 == style); }
        else if style == SCE_SQL_COMMENTDOC { assert(t[5].0 == style); }
        else if style == SCE_SQL_NUMBER { assert(t[6].0 == style); }
        else if style == SCE_SQL_WORD { assert(t[7].0 == style); }
        else if style == SCE_SQL_STRING { assert(t[8].0 == style); }
        else if style == SCE_SQL_CHARACTER { assert(t[9].0 == style); }
        else if style == SCE_SQL_SQLPLUS { assert(t[10].0 == style); }
        else if style == SCE_SQL_SQLPLUS_PROMPT { assert(t[11].0 == style); }
        else if style == SCE_SQL_OPERATOR { assert(t[12].0 == style); }
        else if style == SCE_SQL_IDENTIFIER { assert(t[13].0 == style); }
        else if style == SCE_SQL_WORD2 { assert(t[14].0 == style); }
        else if style == SCE_SQL_COMMENTDOCKEYWORD { assert(t[15].0 == style); }
        else if style == SCE_SQL_COMMENTDOCKEYWORDERROR { assert(t[16].0 == style); }
        else if style == SCE_SQL_USER1 { assert(t[17].0 == style); }
        else if style == SCE_SQL_USER2 { assert(t[18].0 == style); }
        else if style == SCE_SQL_USER3 { assert(t[19].0 == style); }
        else { assert(t[20].0 == style); }
    }
}

/// The styles that the colour-scheme table colours.
pub open spec fn color_scheme_styles() -> Set<u32> {
    Set::new(|style: u32| exists|i: int| 0 <= i < color_scheme_table().len() && color_scheme_table()[i].0 == style)
}

/// Colouring a table of styles sends, for each row in order, the foreground
/// call and then the background call of that row.
pub proof fn lemma_style_table_steps(table: Seq<(u32, u32, u32)>)
    ensures
        style_table_steps(table).len() == 2 * table.len(),
        forall|i: int|
            0 <= i < table.len() ==> style_table_steps(table)[2 * i] == EditorStepView::Call(
                value_call(SCI_STYLESETFORE, (#[trigger] table[i]).0 as usize, table[i].1 as isize),
            ) && style_table_steps(table)[2 * i + 1] == EditorStepView::Call(
                value_call(SCI_STYLESETBACK, table[i].0 as usize, table[i].2 as isize),
            ),
    decreases table.len(),
{
    if table.len() > 0 {
        let init = table.drop_last();
        lemma_style_table_steps(init);
        let (e, f, b) = table.last();
        let calls = as_steps(elem_color_calls(e, f, b));
        assert(calls.len() == 2);
        assert forall|i: int| 0 <= i < table.len() implies style_table_steps(table)[2 * i]
            == EditorStepView::Call(
            value_call(SCI_STYLESETFORE, (#[trigger] table[i]).0 as usize, table[i].1 as isize),
        ) && style_table_steps(table)[2 * i + 1] == EditorStepView::Call(
            value_call(SCI_STYLESETBACK, table[i].0 as usize, table[i].2 as isize),
        ) by {
            if i < init.len() {
                assert(init[i] == table[i]);
            }
        }
    }
}

/// The colour scheme sends the foreground and background of every table row
/// in order, then two margins with the first showing line numbers, and ends
/// by sizing the line-number margin.
pub proof fn lemma_color_scheme_steps_layout()
    ensures
        color_scheme_steps().len() == 2 * color_scheme_table().len() + 3,
        forall|i: int|
            0 <= i < color_scheme_table().len() ==> color_scheme_steps()[2 * i]
                == EditorStepView::Call(
                value_call(
                    SCI_STYLESETFORE,
                    (#[trigger] color_scheme_table()[i]).0 as usize,
                    color_scheme_table()[i].1 as isize,
                ),
            ) && color_scheme_steps()[2 * i + 1] == EditorStepView::Call(
                value_call(
                    SCI_STYLESETBACK,
                    color_scheme_table()[i].0 as usize,
                    color_scheme_table()[i].2 as isize,
                ),
            ),
        color_scheme_steps()[42] == EditorStepView::Call(value_call(SCI_SETMARGINS, 2, 0)),
        color_scheme_steps()[43] == EditorStepView::Call(
            value_call(SCI_SETMARGINTYPEN, 0, SC_MARGIN_NUMBER as isize),
        ),
        color_scheme_steps()[44] == EditorStepView::UpdateLineNumber,
{
    let t = color_scheme_table();
    lemma_style_table_steps(t);
    assert forall|i: int| 0 <= i < t.len() implies color_scheme_steps()[2 * i]
        == EditorStepView::Call(
        value_call(SCI_STYLESETFORE, (#[trigger] t[i]).0 as usize, t[i].1 as isize),
    ) && color_scheme_steps()[2 * i + 1] == EditorStepView::Call(
        value_call(SCI_STYLESETBACK, t[i].0 as usize, t[i].2 as isize),
    ) by {
        assert(style_table_steps(t)[2 * i] == color_scheme_steps()[2 * i]);
        assert(style_table_steps(t)[2 * i + 1] == color_scheme_steps()[2 * i + 1]);
    }
}

/// A built control is set up, in this order, with: UTF-8, DirectWrite
/// (retained), antialiased fonts, wrapping at word boundaries, wrap marks at
/// the start of continued lines, CRLF line ends, tabs two wide, scrolling
/// past the last line allowed, inline input-method composition, Cascadia
/// Code at 12 points for the default style, the `sql` lexer, the SQL
/// keyword list, then the colour scheme, then a caret two pixels wide in
/// 0xFFE75C27 over a caret line of 0xFF3E342F.
pub proof fn lemma_initial_setup_settings()
    ensures
        initial_setup_steps().len() == 13 + color_scheme_steps().len() + 3,
        initial_setup_steps()[0] == EditorStepView::Call(value_call(SCI_SETCODEPAGE, 65001, 0)),
        initial_setup_steps()[1] == EditorStepView::Call(
            value_call(SCI_SETTECHNOLOGY, SC_TECHNOLOGY_DIRECTWRITERETAIN as usize, 0),
        ),
        initial_setup_steps()[2] == EditorStepView::Call(
            value_call(SCI_SETFONTQUALITY, SC_EFF_QUALITY_ANTIALIASED as usize, 0),
        ),
        initial_setup_steps()[3] == EditorStepView::Call(
            value_call(SCI_SETWRAPMODE, SC_WRAP_WORD as usize, 0),
        ),
        initial_setup_steps()[4] == EditorStepView::Call(
            value_call(SCI_SETWRAPVISUALFLAGS, SC_WRAPVISUALFLAG_START as usize, 0),
        ),
        initial_setup_steps()[5] == EditorStepView::Call(
            value_call(SCI_SETEOLMODE, SC_EOL_CRLF as usize, 0),
        ),
        initial_setup_steps()[6] == EditorStepView::Call(value_call(SCI_SETTABWIDTH, 2, 0)),
        initial_setup_steps()[7] == EditorStepView::Call(value_call(SCI_SETENDATLASTLINE, 0, 0)),
        initial_setup_steps()[8] == EditorStepView::Call(
            value_call(SCI_SETIMEINTERACTION, SC_IME_INLINE as usize, 0),
        ),
        initial_setup_steps()[9] == EditorStepView::Call(
            text_call(SCI_STYLESETFONT, STYLE_DEFAULT as usize, "Cascadia Code"@),
        ),
        initial_setup_steps()[10] == EditorStepView::Call(
            value_call(SCI_STYLESETSIZE, STYLE_DEFAULT as usize, 12),
        ),
        initial_setup_steps()[11] == EditorStepView::InstallLexer("sql"@),
        initial_setup_steps()[12] == EditorStepView::Call(
            text_call(SCI_SETKEYWORDS, 1, join_with_spaces(sql_keywords())),
        ),
        initial_setup_steps().subrange(13, 13 + color_scheme_steps().len() as int)
            == color_scheme_steps(),
        initial_setup_steps()[58] == EditorStepView::Call(value_call(SCI_SETCARETWIDTH, 2, 0)),
        initial_setup_steps()[59] == EditorStepView::Call(
            value_call(SCI_SETELEMENTCOLOUR, SC_ELEMENT_CARET as usize, 0xFFE75C27u32 as isize),
        ),
        initial_setup_steps()[60] == EditorStepView::Call(
            value_call(
                SCI_SETELEMENTCOLOUR,
                SC_ELEMENT_CARET_LINE_BACK as usize,
                0xFF3E342Fu32 as isize,
            ),
        ),
{
    lemma_color_scheme_steps_layout();
    let s = initial_setup_steps();
    assert(s.subrange(13, 13 + color_scheme_steps().len() as int) =~= color_scheme_steps());
}

/// The text that sizes the line-number margin is two zeros followed by the
/// line count in decimal: it is two characters longer than the numeral, all
/// digits, and what follows the two zeros reads back as the line count.
pub proof fn lemma_line_number_probe(n: nat)
    ensures
        line_number_probe(n).len() == decimal(n).len() + 2,
        line_number_probe(n).len() >= 3,
        line_number_probe(n)[0] == '0',
        line_number_probe(n)[1] == '0',
        all_digits(line_number_probe(n)),
        decimal_value(line_number_probe(n).subrange(2, line_number_probe(n).len() as int)) == n,
        has_no_nul(line_number_probe(n)),
{
    lemma_decimal_round_trip(n);
    let p = line_number_probe(n);
    assert(p.subrange(2, p.len() as int) =~= decimal(n));
    assert forall|i: int| 0 <= i < p.len() implies '0' <= #[trigger] p[i] && p[i] <= '9' by {
        if i >= 2 {
            assert(p[i] == decimal(n)[i - 2]);
        }
    }
}

impl ScintillaEdit {
    /// The settings of a new control: no text, 100 by 25 at the origin, no
    /// extended style and no parent yet.
    pub fn builder<'a>() -> (res: ScintillaEditBuilder<'a>)
        ensures
            res.text@ == Seq::<char>::empty(),
            res.size == (100i32, 25i32),
            res.position == (0i32, 0i32),
            res.ex_flags == 0,
            res.parent is None,
    {
        proof {
            reveal_strlit("");
        }
        ScintillaEditBuilder { text: "", size: (100, 25), position: (0, 0), ex_flags: 0, parent: None }
    }

    /// Winapi class name used during control creation
    pub fn class_name(&self) -> (res: &'static str)
        ensures
            res@ == "Scintilla"@,
    {
        "Scintilla"
    }

    /// Winapi base flags used during window creation
    pub fn ex_flags(&self) -> (res: u32)
        ensures
            res == WS_EX_CLIENTEDGE,
    {
        WS_EX_CLIENTEDGE
    }

    /// Winapi base flags used during window creation
    pub fn flags(&self) -> (res: u32)
        ensures
            res == WS_VISIBLE,
    {
        WS_VISIBLE
    }

    /// Winapi flags required by the control
    pub fn forced_flags(&self) -> (res: u32)
        ensures
            res == WS_CHILD,
    {
        WS_CHILD
    }

    /// Records the window that was created for the control and its direct pointer.
    pub fn attach(&mut self, handle: usize, sci_direct_ptr: isize)
        ensures
            final(self).handle == Some(handle),
            final(self).sci_direct_ptr == sci_direct_ptr,
    {
        self.handle = Some(handle);
        self.sci_direct_ptr = sci_direct_ptr;
    }

    /// Sets the size of the default style's font, in points.
    pub fn set_font_size(&self, font_size: isize) -> (c: SciCall)
        ensures
            c@ == value_call(SCI_STYLESETSIZE, STYLE_DEFAULT as usize, font_size),
    {
        make_value_call(SCI_STYLESETSIZE, STYLE_DEFAULT as usize, font_size)
    }

    /// Chooses the drawing technology.
    pub fn set_technology(&self, technology: usize) -> (c: SciCall)
        ensures
            c@ == value_call(SCI_SETTECHNOLOGY, technology, 0),
    {
        make_value_call(SCI_SETTECHNOLOGY, technology, 0)
    }

    /// Chooses how fonts are smoothed.
    pub fn set_font_quality(&self, font_quality: usize) -> (c: SciCall)
        ensures
            c@ == value_call(SCI_SETFONTQUALITY, font_quality, 0),
    {
        make_value_call(SCI_SETFONTQUALITY, font_quality, 0)
    }

    /// Chooses how long lines wrap.
    pub fn set_wrap_mode(&self, wrap_mode: usize) -> (c: SciCall)
        ensures
            c@ == value_call(SCI_SETWRAPMODE, wrap_mode, 0),
    {
        make_value_call(SCI_SETWRAPMODE, wrap_mode, 0)
    }

    /// Chooses where wrapped lines are marked.
    pub fn set_wrap_visual_flags(&self, wrap_visual_flags: usize) -> (c: SciCall)
        ensures
            c@ == value_call(SCI_SETWRAPVISUALFLAGS, wrap_visual_flags, 0),
    {
        make_value_call(SCI_SETWRAPVISUALFLAGS, wrap_visual_flags, 0)
    }

    /// Chooses the line ends that typing inserts.
    pub fn set_eol_mode(&self, eol_mode: usize) -> (c: SciCall)
        ensures
            c@ == value_call(SCI_SETEOLMODE, eol_mode, 0),
    {
        make_value_call(SCI_SETEOLMODE, eol_mode, 0)
    }

    /// Sets the width of a tab, in spaces.
    pub fn set_tab_width(&self, tab_width: usize) -> (c: SciCall)
        ensures
            c@ == value_call(SCI_SETTABWIDTH, tab_width, 0),
    {
        make_value_call(SCI_SETTABWIDTH, tab_width, 0)
    }

    /// Installs a lexer, given the address of the lexer object.
    pub fn set_ilexer(&self, ilexer: isize) -> (c: SciCall)
        ensures
            c@ == value_call(SCI_SETILEXER, 0, ilexer),
    {
        make_value_call(SCI_SETILEXER, 0, ilexer)
    }

    /// Sets the font of a style.
    pub fn style_set_font(&self, style: usize, font: &str) -> (c: SciCall)
        requires
            has_no_nul(font@),
        ensures
            c@ == text_call(SCI_STYLESETFONT, style, font@),
    {
        SciCall { message: SCI_STYLESETFONT, wparam: style, lparam: SciParam::Text(font.to_owned()) }
    }

    /// Chooses how input methods show their composition.
    pub fn set_ime_interaction(&self, ime_interaction: usize) -> (c: SciCall)
        ensures
            c@ == value_call(SCI_SETIMEINTERACTION, ime_interaction, 0),
    {
        make_value_call(SCI_SETIMEINTERACTION, ime_interaction, 0)
    }

    /// Sends `SCI_SETENDATLASTLINE` with 0 when `end_at_last_line` holds and 1
    /// otherwise: the flag is passed on inverted.
    pub fn set_end_at_last_line(&self, end_at_last_line: bool) -> (c: SciCall)
        ensures
            c@ == value_call(SCI_SETENDATLASTLINE, if end_at_last_line { 0 } else { 1 }, 0),
    {
        let mut end: usize = 1;
        if end_at_last_line == true {
            end = 0;
        }
        make_value_call(SCI_SETENDATLASTLINE, end, 0)
    }

    /// Sets the colour of a visual element.
    pub fn set_element_colour(&self, element: u32, color: isize) -> (c: SciCall)
        ensures
            c@ == value_call(SCI_SETELEMENTCOLOUR, element as usize, color),
    {
        make_value_call(SCI_SETELEMENTCOLOUR, element as usize, color)
    }

    /// Sets the foreground colour of a style.
    pub fn style_set_fore(&self, element: u32, color: u32) -> (c: SciCall)
        ensures
            c@ == value_call(SCI_STYLESETFORE, element as usize, color as isize),
    {
        make_value_call(SCI_STYLESETFORE, element as usize, color as isize)
    }

    /// Sets the background colour of a style.
    pub fn style_set_back(&self, element: u32, color: u32) -> (c: SciCall)
        ensures
            c@ == value_call(SCI_STYLESETBACK, element as usize, color as isize),
    {
        make_value_call(SCI_STYLESETBACK, element as usize, color as isize)
    }

    /// Sets both colours of a style: foreground first, then background.
    pub fn set_lexer_elem_color(&self, elem: u32, fore: u32, back: u32) -> (calls: Vec<SciCall>)
        ensures
            calls_view(calls@) == elem_color_calls(elem, fore, back),
    {
        let mut calls = Vec::new();
        calls.push(self.style_set_fore(elem, fore));
        calls.push(self.style_set_back(elem, back));
        assert(calls_view(calls@) =~= elem_color_calls(elem, fore, back));
        calls
    }

    /// Sets a keyword list: the words, joined with single spaces.
    pub fn set_key_words(&self, key_word_set: usize, key_words: Vec<&str>) -> (c: SciCall)
        requires
            has_no_nul(join_with_spaces(word_views(key_words@))),
        ensures
            c@ == text_call(SCI_SETKEYWORDS, key_word_set, join_with_spaces(word_views(key_words@))),
    {
        let combined_string = join_with_space(&key_words);
        SciCall { message: SCI_SETKEYWORDS, wparam: key_word_set, lparam: SciParam::Text(combined_string) }
    }

    /// Sets the width of the caret, in pixels.
    pub fn set_caret_width(&self, width: u32) -> (c: SciCall)
        ensures
            c@ == value_call(SCI_SETCARETWIDTH, width as usize, 0),
    {
        make_value_call(SCI_SETCARETWIDTH, width as usize, 0)
    }

    /// Sets the caret's width and colour, and the caret line's background.
    pub fn setup_caret(&self, width: u32, color: isize) -> (calls: Vec<SciCall>)
        ensures
            calls_view(calls@) == caret_calls(width, color),
    {
        let mut calls = Vec::new();
        calls.push(self.set_caret_width(width));
        calls.push(self.set_element_colour(SC_ELEMENT_CARET, color));
        calls.push(self.set_element_colour(SC_ELEMENT_CARET_LINE_BACK, 0xFF3E342Fu32 as isize));
        assert(calls_view(calls@) =~= caret_calls(width, color));
        calls
    }

    /// Sets the number of margins.
    pub fn set_margins(&self, margins: u32) -> (c: SciCall)
        ensures
            c@ == value_call(SCI_SETMARGINS, margins as usize, 0),
    {
        make_value_call(SCI_SETMARGINS, margins as usize, 0)
    }

    /// Sets what a margin shows.
    pub fn set_margin_type_n(&self, margin: u32, margin_type: u32) -> (c: SciCall)
        ensures
            c@ == value_call(SCI_SETMARGINTYPEN, margin as usize, margin_type as isize),
    {
        make_value_call(SCI_SETMARGINTYPEN, margin as usize, margin_type as isize)
    }

    /// Sets the width of a margin, in pixels.
    pub fn set_margin_width_n(&self, margin: u32, width: u32) -> (c: SciCall)
        ensures
            c@ == value_call(SCI_SETMARGINWIDTHN, margin as usize, width as isize),
    {
        make_value_call(SCI_SETMARGINWIDTHN, margin as usize, width as isize)
    }

    /// Sets the background colour of a margin.
    pub fn set_margin_back_n(&self, margin: u32, colour: u32) -> (c: SciCall)
        ensures
            c@ == value_call(SCI_SETMARGINBACKN, margin as usize, colour as isize),
    {
        make_value_call(SCI_SETMARGINBACKN, margin as usize, colour as isize)
    }

    /// Asks for the number of lines; the reply, read with `reply_as_usize`, is the count.
    pub fn get_line_count(&self) -> (c: SciCall)
        ensures
            c@ == value_call(SCI_GETLINECOUNT, 0, 0),
    {
        make_value_call(SCI_GETLINECOUNT, 0, 0)
    }

    /// Sets the code page of the text.
    pub fn set_code_page(&self, code_page: u32) -> (c: SciCall)
        ensures
            c@ == value_call(SCI_SETCODEPAGE, code_page as usize, 0),
    {
        make_value_call(SCI_SETCODEPAGE, code_page as usize, 0)
    }

    /// Asks where the selection starts; the reply, read with `reply_as_usize`, is the position.
    pub fn get_selection_start(&self) -> (c: SciCall)
        ensures
            c@ == value_call(SCI_GETSELECTIONSTART, 0, 0),
    {
        make_value_call(SCI_GETSELECTIONSTART, 0, 0)
    }

    /// Asks where the selection ends; the reply, read with `reply_as_usize`, is the position.
    pub fn get_selection_end(&self) -> (c: SciCall)
        ensures
            c@ == value_call(SCI_GETSELECTIONEND, 0, 0),
    {
        make_value_call(SCI_GETSELECTIONEND, 0, 0)
    }

    /// Asks how wide a text is drawn in a style; the reply, read with
    /// `reply_as_u32`, is the width in pixels.
    pub fn text_width(&self, style: u32, text: &str) -> (c: SciCall)
        requires
            has_no_nul(text@),
        ensures
            c@ == text_call(SCI_TEXTWIDTH, style as usize, text@),
    {
        SciCall { message: SCI_TEXTWIDTH, wparam: style as usize, lparam: SciParam::Text(text.to_owned()) }
    }
}

/// Reads a reply as a count or a position, as the `as usize` cast does.
pub fn reply_as_usize(reply: isize) -> (res: usize)
    ensures
        res == reply as usize,
{
    reply as usize
}

/// Reads a reply as a width, as the `as u32` cast does.
pub fn reply_as_u32(reply: isize) -> (res: u32)
    ensures
        res == reply as u32,
{
    reply as u32
}

impl ScintillaEdit {
    /// Colours every style of the dark theme, sets up two margins, the first
    /// showing line numbers, and ends by sizing the line-number margin.
    pub fn setup_color_scheme(&self) -> (steps: Vec<EditorStep>)
        ensures
            steps_view(steps@) == color_scheme_steps(),
    {
        proof {
            reveal_strlit("#282C34");
            reveal_strlit("#ABB2BF");
            reveal_strlit("#7F848E");
            reveal_strlit("#D19A66");
            reveal_strlit("#C678DD");
            reveal_strlit("#98C379");
            lemma_trim_single_hash("#282C34"@);
            lemma_trim_single_hash("#ABB2BF"@);
            lemma_trim_single_hash("#7F848E"@);
            lemma_trim_single_hash("#D19A66"@);
            lemma_trim_single_hash("#C678DD"@);
            lemma_trim_single_hash("#98C379"@);
        }
        let default_bg = scintilla_rgb_color("#282C34");
        let default_fg = scintilla_rgb_color("#ABB2BF");
        let comment_fg = scintilla_rgb_color("#7F848E");
        let number_fg = scintilla_rgb_color("#D19A66");
        let keyword_fg = scintilla_rgb_color("#C678DD");
        let string_fg = scintilla_rgb_color("#98C379");
        assert(default_bg == 0x342C28);
        assert(default_fg == 0xBFB2AB);
        assert(comment_fg == 0x8E847F);
        assert(number_fg == 0x669AD1);
        assert(keyword_fg == 0xDD78C6);
        assert(string_fg == 0x79C398);

        let table: Vec<(u32, u32, u32)> = vec![
            (STYLE_DEFAULT, default_fg, default_bg),
            (STYLE_LINENUMBER, comment_fg, default_bg),
            (SCE_SQL_DEFAULT, default_fg, default_bg),
            (SCE_SQL_COMMENT, comment_fg, default_bg),
            (SCE_SQL_COMMENTLINE, comment_fg, default_bg),
            (SCE_SQL_COMMENTDOC, comment_fg, default_bg),
            (SCE_SQL_NUMBER, number_fg, default_bg),
            (SCE_SQL_WORD, keyword_fg, default_bg),
            (SCE_SQL_STRING, string_fg, default_bg),
            (SCE_SQL_CHARACTER, string_fg, default_bg),
            (SCE_SQL_SQLPLUS, 0xFF000, default_bg),
            (SCE_SQL_SQLPLUS_PROMPT, 0xFF000, default_bg),
            (SCE_SQL_OPERATOR, default_fg, default_bg),
            (SCE_SQL_IDENTIFIER, default_fg, default_bg),
            (SCE_SQL_WORD2, keyword_fg, default_bg),
            (SCE_SQL_COMMENTDOCKEYWORD, 0xFF0000, default_bg),
            (SCE_SQL_COMMENTDOCKEYWORDERROR, 0xFF0000, default_bg),
            (SCE_SQL_USER1, 0xFF0000, default_bg),
            (SCE_SQL_USER2, 0xFF0000, default_bg),
            (SCE_SQL_USER3, 0xFF0000, default_bg),
            (SCE_SQL_USER4, 0xFF0000, default_bg),
        ];
        assert(table@ =~= color_scheme_table());

        let mut steps: Vec<EditorStep> = Vec::new();
        let mut i: usize = 0;
        while i < table.len()
            invariant
                i <= table@.len(),
                table@ == color_scheme_table(),
                steps_view(steps@) == style_table_steps(table@.take(i as int)),
            decreases table.len() - i,
        {
            let (elem, fore, back) = table[i];
            push_calls(&mut steps, self.set_lexer_elem_color(elem, fore, back));
            assert(table@.take(i + 1).drop_last() =~= table@.take(i as int));
            i = i + 1;
        }
        assert(table@.take(table.len() as int) =~= table@);

        push_call(&mut steps, self.set_margins(2));
        push_call(&mut steps, self.set_margin_type_n(0, SC_MARGIN_NUMBER));
        push_step(&mut steps, EditorStep::UpdateLineNumber);
        assert(steps_view(steps@) =~= color_scheme_steps());
        steps
    }

    /// One step of resizing the line-number margin. From `Start` it asks for
    /// the line count; given the count it asks how wide "00" followed by the
    /// count is drawn in the line-number style; given that width it sets the
    /// first margin to it, and is done. `reply` is the reply to the call of
    /// the step before (ignored at `Start`).
    pub fn update_line_number(&self, stage: LineNumberStage, reply: isize) -> (res: (SciCall, Option<LineNumberStage>))
        ensures
            match stage {
                LineNumberStage::Start => res.0@ == value_call(SCI_GETLINECOUNT, 0, 0)
                    && res.1 == Some(LineNumberStage::LineCount),
                LineNumberStage::LineCount => res.0@ == text_call(
                    SCI_TEXTWIDTH,
                    STYLE_LINENUMBER as usize,
                    line_number_probe(reply as usize as nat),
                ) && res.1 == Some(LineNumberStage::TextWidth),
                LineNumberStage::TextWidth => res.0@ == value_call(
                    SCI_SETMARGINWIDTHN,
                    0,
                    reply as u32 as isize,
                ) && res.1 is None,
            },
    {
        match stage {
            LineNumberStage::Start => (self.get_line_count(), Some(LineNumberStage::LineCount)),
            LineNumberStage::LineCount => {
                let n = reply_as_usize(reply);
                let mut result = String::new();
                result.append("00");
                proof {
                    reveal_strlit("00");
                }
                push_decimal(&mut result, n);
                assert(result@ =~= line_number_probe(n as nat));
                proof {
                    lemma_decimal_round_trip(n as nat);
                    assert forall|i: int| 0 <= i < result@.len() implies result@[i] != '\0' by {
                        if i >= 2 {
                            assert(result@[i] == decimal(n as nat)[i - 2]);
                        }
                    }
                }
                (self.text_width(STYLE_LINENUMBER, result.as_str()), Some(LineNumberStage::TextWidth))
            },
            LineNumberStage::TextWidth => {
                let width = reply_as_u32(reply);
                (self.set_margin_width_n(0, width), None)
            },
        }
    }

    /// One step of reading the selected text. From `Start` it asks where the
    /// selection ends, then where it starts; given both it is done when the
    /// selection is empty, and otherwise asks Scintilla to fill a buffer one
    /// byte longer than the selection (for the terminating NUL).
    pub fn get_sel_text(&self, stage: SelTextStage, reply: isize) -> (res: SelTextStep)
        requires
            stage matches SelTextStage::SelectionStart { end } ==> (reply as usize) <= end
                && end - (reply as usize) < usize::MAX,
        ensures
            match stage {
                SelTextStage::Start => res matches SelTextStep::Query(c, s) && c@ == value_call(
                    SCI_GETSELECTIONEND,
                    0,
                    0,
                ) && s == SelTextStage::SelectionEnd,
                SelTextStage::SelectionEnd => res matches SelTextStep::Query(c, s) && c@
                    == value_call(SCI_GETSELECTIONSTART, 0, 0) && s == (SelTextStage::SelectionStart {
                    end: reply as usize,
                }),
                SelTextStage::SelectionStart { end } => if end == reply as usize {
                    res is Empty
                } else {
                    res matches SelTextStep::Fill(c) && c@ == (SciCallView {
                        message: SCI_GETSELTEXT,
                        wparam: 0,
                        lparam: SciParamView::Buffer((end - reply as usize + 1) as usize),
                    })
                },
            },
    {
        match stage {
            SelTextStage::Start => SelTextStep::Query(self.get_selection_end(), SelTextStage::SelectionEnd),
            SelTextStage::SelectionEnd => SelTextStep::Query(
                self.get_selection_start(),
                SelTextStage::SelectionStart { end: reply_as_usize(reply) },
            ),
            SelTextStage::SelectionStart { end } => {
                let start = reply_as_usize(reply);
                let n = end - start;
                if n <= 0 {
                    return SelTextStep::Empty;
                }
                SelTextStep::Fill(
                    SciCall { message: SCI_GETSELTEXT, wparam: 0, lparam: SciParam::Buffer(n + 1) },
                )
            },
        }
    }

    /// Whether a key press asks for the selection to be formatted: only F5 does.
    /// `key` is the key code of a key event, `None` for other events.
    pub fn on_key_press(&self, key: Option<u32>) -> (res: bool)
        ensures
            res == (key == Some(KEY_F5)),
    {
        match key {
            Some(key_code) => key_code == KEY_F5,
            None => false,
        }
    }

    /// The steps that a message to the parent window leads to: a notification
    /// from this control that its text changed recolours the text, and
    /// resizes the line-number margin when lines were added or removed; a
    /// zoom resizes the margin; anything else is left alone.
    pub fn on_notify(&self, msg: u32, from: usize, code: u32, lines_added: isize) -> (steps: Vec<EditorStep>)
        ensures
            steps_view(steps@) == notify_steps(self.handle, msg, from, code, lines_added),
    {
        let mut steps: Vec<EditorStep> = Vec::new();
        let from_self = match self.handle {
            Some(h) => h == from,
            None => false,
        };
        if msg == WM_NOTIFY && from_self {
            if code == SCN_MODIFIED {
                push_call(&mut steps, make_value_call(SCI_COLOURISE, 0, -1));
                if lines_added != 0 {
                    push_step(&mut steps, EditorStep::UpdateLineNumber);
                }
            } else if code == SCN_ZOOM {
                push_step(&mut steps, EditorStep::UpdateLineNumber);
            }
        }
        assert(steps_view(steps@) =~= notify_steps(self.handle, msg, from, code, lines_added));
        steps
    }

    /// The setup of a new control, as `initial_setup_steps` lists it.
    fn initial_setup(&self) -> (steps: Vec<EditorStep>)
        ensures
            steps_view(steps@) == initial_setup_steps(),
    {
        let mut steps: Vec<EditorStep> = Vec::new();
        push_call(&mut steps, self.set_code_page(SC_CP_UTF8));
        push_call(&mut steps, self.set_technology(SC_TECHNOLOGY_DIRECTWRITERETAIN as usize));
        push_call(&mut steps, self.set_font_quality(SC_EFF_QUALITY_ANTIALIASED as usize));
        push_call(&mut steps, self.set_wrap_mode(SC_WRAP_WORD as usize));
        push_call(&mut steps, self.set_wrap_visual_flags(SC_WRAPVISUALFLAG_START as usize));
        push_call(&mut steps, self.set_eol_mode(SC_EOL_CRLF as usize));
        push_call(&mut steps, self.set_tab_width(2 as usize));
        push_call(&mut steps, self.set_end_at_last_line(true));
        push_call(&mut steps, self.set_ime_interaction(SC_IME_INLINE as usize));
        proof {
            reveal_strlit("Cascadia Code");
        }
        push_call(&mut steps, self.style_set_font(STYLE_DEFAULT as usize, "Cascadia Code"));
        push_call(&mut steps, self.set_font_size(12));
        let ghost first = steps_view(steps@);
        assert(first =~= as_steps(
            seq![
                value_call(SCI_SETCODEPAGE, SC_CP_UTF8 as usize, 0),
                value_call(SCI_SETTECHNOLOGY, SC_TECHNOLOGY_DIRECTWRITERETAIN as usize, 0),
                value_call(SCI_SETFONTQUALITY, SC_EFF_QUALITY_ANTIALIASED as usize, 0),
                value_call(SCI_SETWRAPMODE, SC_WRAP_WORD as usize, 0),
                value_call(SCI_SETWRAPVISUALFLAGS, SC_WRAPVISUALFLAG_START as usize, 0),
                value_call(SCI_SETEOLMODE, SC_EOL_CRLF as usize, 0),
                value_call(SCI_SETTABWIDTH, 2, 0),
                value_call(SCI_SETENDATLASTLINE, 0, 0),
                value_call(SCI_SETIMEINTERACTION, SC_IME_INLINE as usize, 0),
                text_call(SCI_STYLESETFONT, STYLE_DEFAULT as usize, "Cascadia Code"@),
                value_call(SCI_STYLESETSIZE, STYLE_DEFAULT as usize, 12),
            ],
        ));

        let lexer = "sql".to_owned();
        push_step(&mut steps, EditorStep::InstallLexer(lexer));

        let key_words: Vec<&str> = vec![
            "select", "from", "where", "create", "delete", "update", "drop", "table", "in",
            "and", "or", "left", "right", "join", "inner", "alter", "default", "order", "by",
            "desc", "asc", "group", "having", "not", "null", "limit", "add", "column",
        ];
        proof {
            assert(word_views(key_words@) =~= sql_keywords());
            lemma_sql_keywords_no_nul();
            lemma_join_no_nul(sql_keywords());
        }
        push_call(&mut steps, self.set_key_words(1, key_words));
        let ghost second = steps_view(steps@);
        assert(second =~= first + seq![
            EditorStepView::InstallLexer("sql"@),
            EditorStepView::Call(text_call(SCI_SETKEYWORDS, 1, join_with_spaces(sql_keywords()))),
        ]);

        let scheme = self.setup_color_scheme();
        let mut rest = scheme;
        steps.append(&mut rest);
        assert(steps_view(steps@) =~= second + color_scheme_steps());
        push_calls(&mut steps, self.setup_caret(2, 0xFFE75C27u32 as isize));
        assert(steps_view(steps@) =~= initial_setup_steps());
        steps
    }
}

/// The keywords hold no NUL.
proof fn lemma_sql_keywords_no_nul()
    ensures
        forall|i: int| 0 <= i < sql_keywords().len() ==> has_no_nul(#[trigger] sql_keywords()[i]),
{
    reveal_strlit("select");
    reveal_strlit("from");
    reveal_strlit("where");
    reveal_strlit("create");
    reveal_strlit("delete");
    reveal_strlit("update");
    reveal_strlit("drop");
    reveal_strlit("table");
    reveal_strlit("in");
    reveal_strlit("and");
    reveal_strlit("or");
    reveal_strlit("left");
    reveal_strlit("right");
    reveal_strlit("join");
    reveal_strlit("inner");
    reveal_strlit("alter");
    reveal_strlit("default");
    reveal_strlit("order");
    reveal_strlit("by");
    reveal_strlit("desc");
    reveal_strlit("asc");
    reveal_strlit("group");
    reveal_strlit("having");
    reveal_strlit("not");
    reveal_strlit("null");
    reveal_strlit("limit");
    reveal_strlit("add");
    reveal_strlit("column");
}

impl<'a> ScintillaEditBuilder<'a> {
    /// Starts building the control into `out`. Without a parent this fails and
    /// leaves `out` as it was; otherwise `out` is reset to a fresh control and
    /// the result says which window to create and what to set up on it. The
    /// window's extended style is the builder's together with the control's
    /// own base style, `ScintillaEdit::ex_flags`.
    pub fn build(self, out: &mut ScintillaEdit) -> (res: Result<BuildPlan<'a>, BuildError>)
        ensures
            self.parent is None <==> res is Err,
            res is Err ==> res == Err::<BuildPlan<'a>, BuildError>(BuildError::NoParent)
                && *final(out) == *old(out),
            res matches Ok(plan) ==> {
                &&& final(out).handle is None
                &&& final(out).sci_direct_ptr == 0
                &&& plan.window.class_name@ == "Scintilla"@
                &&& plan.window.forced_flags == WS_CHILD
                &&& plan.window.flags == WS_VISIBLE
                &&& plan.window.ex_flags == self.ex_flags | WS_EX_CLIENTEDGE
                &&& plan.window.size == self.size
                &&& plan.window.position == self.position
                &&& plan.window.text == self.text
                &&& Some(plan.window.parent) == self.parent
                &&& steps_view(plan.setup@) == initial_setup_steps()
            },
    {
        let flags = out.flags();
        let parent = match self.parent {
            Some(p) => p,
            None => return Err(BuildError::NoParent),
        };
        *out = ScintillaEdit::default();
        let window = WindowRequest {
            class_name: out.class_name(),
            forced_flags: out.forced_flags(),
            flags,
            ex_flags: self.ex_flags | out.ex_flags(),
            size: self.size,
            position: self.position,
            text: self.text,
            parent,
        };
        let setup = out.initial_setup();
        Ok(BuildPlan { window, setup })
    }
}

} // verus!
