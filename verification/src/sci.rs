//! The messages that the editor sends to a Scintilla control, with the
//! numbers that Scintilla's headers give them, and the steps of work that the
//! editor hands to the code that owns the control.

use vstd::prelude::*;

verus! {

pub const SCI_SETEOLMODE: u32 = 2031;
pub const SCI_SETTABWIDTH: u32 = 2036;
pub const SCI_SETCODEPAGE: u32 = 2037;
pub const SCI_STYLESETFORE: u32 = 2051;
pub const SCI_STYLESETBACK: u32 = 2052;
pub const SCI_STYLESETSIZE: u32 = 2055;
pub const SCI_STYLESETFONT: u32 = 2056;
pub const SCI_GETSELECTIONSTART: u32 = 2143;
pub const SCI_GETSELECTIONEND: u32 = 2145;
pub const SCI_GETLINECOUNT: u32 = 2154;
pub const SCI_GETSELTEXT: u32 = 2161;
pub const SCI_GETDIRECTFUNCTION: u32 = 2184;
pub const SCI_GETDIRECTPOINTER: u32 = 2185;
pub const SCI_SETCARETWIDTH: u32 = 2188;
pub const SCI_SETMARGINTYPEN: u32 = 2240;
pub const SCI_SETMARGINWIDTHN: u32 = 2242;
pub const SCI_SETMARGINBACKN: u32 = 2250;
pub const SCI_SETMARGINS: u32 = 2252;
pub const SCI_SETWRAPMODE: u32 = 2268;
pub const SCI_TEXTWIDTH: u32 = 2276;
pub const SCI_SETENDATLASTLINE: u32 = 2277;
pub const SCI_SETWRAPVISUALFLAGS: u32 = 2460;
pub const SCI_SETFONTQUALITY: u32 = 2611;
pub const SCI_SETTECHNOLOGY: u32 = 2630;
pub const SCI_SETIMEINTERACTION: u32 = 2678;
pub const SCI_SETELEMENTCOLOUR: u32 = 2753;
pub const SCI_COLOURISE: u32 = 4003;
pub const SCI_SETKEYWORDS: u32 = 4005;
pub const SCI_SETILEXER: u32 = 4033;

pub const SCN_MODIFIED: u32 = 2008;
pub const SCN_ZOOM: u32 = 2018;

pub const STYLE_DEFAULT: u32 = 32;
pub const STYLE_LINENUMBER: u32 = 33;

pub const SC_CP_UTF8: u32 = 65001;
pub const SC_TECHNOLOGY_DIRECTWRITERETAIN: u32 = 2;
pub const SC_EFF_QUALITY_ANTIALIASED: u32 = 2;
pub const SC_WRAP_WORD: u32 = 1;
pub const SC_WRAPVISUALFLAG_START: u32 = 2;
pub const SC_EOL_CRLF: u32 = 0;
pub const SC_IME_INLINE: u32 = 1;
pub const SC_MARGIN_NUMBER: u32 = 1;
pub const SC_ELEMENT_CARET: u32 = 40;
pub const SC_ELEMENT_CARET_LINE_BACK: u32 = 50;

pub const SCE_SQL_DEFAULT: u32 = 0;
pub const SCE_SQL_COMMENT: u32 = 1;
pub const SCE_SQL_COMMENTLINE: u32 = 2;
pub const SCE_SQL_COMMENTDOC: u32 = 3;
pub const SCE_SQL_NUMBER: u32 = 4;
pub const SCE_SQL_WORD: u32 = 5;
pub const SCE_SQL_STRING: u32 = 6;
pub const SCE_SQL_CHARACTER: u32 = 7;
pub const SCE_SQL_SQLPLUS: u32 = 8;
pub const SCE_SQL_SQLPLUS_PROMPT: u32 = 9;
pub const SCE_SQL_OPERATOR: u32 = 10;
pub const SCE_SQL_IDENTIFIER: u32 = 11;
pub const SCE_SQL_WORD2: u32 = 16;
pub const SCE_SQL_COMMENTDOCKEYWORD: u32 = 17;
pub const SCE_SQL_COMMENTDOCKEYWORDERROR: u32 = 18;
pub const SCE_SQL_USER1: u32 = 19;
pub const SCE_SQL_USER2: u32 = 20;
pub const SCE_SQL_USER3: u32 = 21;
pub const SCE_SQL_USER4: u32 = 22;

/// The `lParam` of a message.
#[derive(Debug, Clone, PartialEq, Eq)]
pub enum SciParam {
    /// A plain number.
    Value(isize),
    /// The address of a NUL-terminated copy of this text.
    Text(String),
    /// The address of a zero-filled buffer of this many bytes, which Scintilla fills.
    Buffer(usize),
}

/// The mathematical view of an `lParam`.
pub enum SciParamView {
    Value(isize),
    Text(Seq<char>),
    Buffer(usize),
}

impl View for SciParam {
    type V = SciParamView;

    open spec fn view(&self) -> SciParamView {
        match self {
            SciParam::Value(v) => SciParamView::Value(*v),
            SciParam::Text(s) => SciParamView::Text(s@),
            SciParam::Buffer(n) => SciParamView::Buffer(*n),
        }
    }
}

/// One call of Scintilla's direct function: message, `wParam`, `lParam`.
#[derive(Debug, Clone, PartialEq, Eq)]
pub struct SciCall {
    pub message: u32,
    pub wparam: usize,
    pub lparam: SciParam,
}

/// The mathematical view of a call.
pub struct SciCallView {
    pub message: u32,
    pub wparam: usize,
    pub lparam: SciParamView,
}

impl View for SciCall {
    type V = SciCallView;

    open spec fn view(&self) -> SciCallView {
        SciCallView { message: self.message, wparam: self.wparam, lparam: self.lparam@ }
    }
}

/// A call whose `lParam` is a number.
pub open spec fn value_call(message: u32, wparam: usize, lparam: isize) -> SciCallView {
    SciCallView { message, wparam, lparam: SciParamView::Value(lparam) }
}

/// A call whose `lParam` points at a text.
pub open spec fn text_call(message: u32, wparam: usize, text: Seq<char>) -> SciCallView {
    SciCallView { message, wparam, lparam: SciParamView::Text(text) }
}

/// Builds a call whose `lParam` is a number.
pub fn make_value_call(message: u32, wparam: usize, lparam: isize) -> (c: SciCall)
    ensures
        c@ == value_call(message, wparam, lparam),
{
    SciCall { message, wparam, lparam: SciParam::Value(lparam) }
}

/// A piece of work on the control, in the order the editor does it.
#[derive(Debug, Clone, PartialEq, Eq)]
pub enum EditorStep {
    /// Send this call.
    Call(SciCall),
    /// Create the lexer of this name and install it with `SCI_SETILEXER`.
    InstallLexer(String),
    /// Resize the line-number margin to the current line count
    /// (see `ScintillaEdit::update_line_number`).
    UpdateLineNumber,
}

/// The mathematical view of a step.
pub enum EditorStepView {
    Call(SciCallView),
    InstallLexer(Seq<char>),
    UpdateLineNumber,
}

impl View for EditorStep {
    type V = EditorStepView;

    open spec fn view(&self) -> EditorStepView {
        match self {
            EditorStep::Call(c) => EditorStepView::Call(c@),
            EditorStep::InstallLexer(s) => EditorStepView::InstallLexer(s@),
            EditorStep::UpdateLineNumber => EditorStepView::UpdateLineNumber,
        }
    }
}

/// The views of a list of steps.
pub open spec fn steps_view(steps: Seq<EditorStep>) -> Seq<EditorStepView> {
    steps.map_values(|s: EditorStep| s@)
}

/// The views of a list of calls.
pub open spec fn calls_view(calls: Seq<SciCall>) -> Seq<SciCallView> {
    calls.map_values(|c: SciCall| c@)
}

/// Appends a step.
pub fn push_step(steps: &mut Vec<EditorStep>, step: EditorStep)
    ensures
        steps_view(final(steps)@) == steps_view(old(steps)@).push(step@),
{
    steps.push(step);
    assert(steps_view(steps@) =~= steps_view(old(steps)@).push(step@));
}

/// Appends a call as a step.
pub fn push_call(steps: &mut Vec<EditorStep>, call: SciCall)
    ensures
        steps_view(final(steps)@) == steps_view(old(steps)@).push(EditorStepView::Call(call@)),
{
    steps.push(EditorStep::Call(call));
    assert(steps_view(steps@) =~= steps_view(old(steps)@).push(EditorStepView::Call(call@)));
}

/// Appends calls as steps, in order.
pub fn push_calls(steps: &mut Vec<EditorStep>, calls: Vec<SciCall>)
    ensures
        steps_view(final(steps)@) == steps_view(old(steps)@) + calls_view(calls@).map_values(
            |c: SciCallView| EditorStepView::Call(c),
        ),
{
    let ghost start = steps_view(steps@);
    let ghost all = calls@;
    let ghost wrapped = calls_view(calls@).map_values(|c: SciCallView| EditorStepView::Call(c));
    let mut rest = calls;
    let ghost mut k: int = 0;
    while rest.len() > 0
        invariant
            0 <= k <= all.len(),
            rest@ == all.skip(k),
            wrapped == calls_view(all).map_values(|c: SciCallView| EditorStepView::Call(c)),
            steps_view(steps@) == start + wrapped.take(k),
        decreases rest.len(),
    {
        let call = rest.remove(0);
        assert(call == all[k]);
        push_call(steps, call);
        proof {
            k = k + 1;
        }
        assert(rest@ =~= all.skip(k));
        assert(start + wrapped.take(k) =~= (start + wrapped.take(k - 1)).push(wrapped[k - 1]));
    }
    assert(wrapped.take(k) =~= wrapped);
}

} // verus!
