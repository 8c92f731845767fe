use datafox::color::scintilla_rgb_color;
use datafox::layout::center_window_position;
use datafox::sci::{EditorStep, SciCall, SciParam, SCI_SETENDATLASTLINE, SCI_SETKEYWORDS};
use datafox::scintilla::{
    reply_as_u32, reply_as_usize, BuildError, LineNumberStage, ScintillaEdit, SelTextStage,
    SelTextStep, KEY_F5, WM_NOTIFY,
};
use datafox::sql_formatter::format_sql;
use datafox::text::{join_with_space, push_decimal, text_from_nul_terminated, TextBufferError};

fn value(message: u32, wparam: usize, lparam: isize) -> SciCall {
    SciCall { message, wparam, lparam: SciParam::Value(lparam) }
}

fn text(message: u32, wparam: usize, t: &str) -> SciCall {
    SciCall { message, wparam, lparam: SciParam::Text(t.to_string()) }
}

#[test]
fn rgb_color_theme_values() {
    assert_eq!(scintilla_rgb_color("#282C34"), 0x342C28);
    assert_eq!(scintilla_rgb_color("#ABB2BF"), 0xBFB2AB);
    assert_eq!(scintilla_rgb_color("#7F848E"), 0x8E847F);
    assert_eq!(scintilla_rgb_color("#D19A66"), 0x669AD1);
    assert_eq!(scintilla_rgb_color("#C678DD"), 0xDD78C6);
    assert_eq!(scintilla_rgb_color("#98C379"), 0x79C398);
}

#[test]
fn rgb_color_lower_case_and_many_hashes() {
    assert_eq!(scintilla_rgb_color("##abcdef"), 0xEFCDAB);
    assert_eq!(scintilla_rgb_color("102030"), 0x302010);
    assert_eq!(scintilla_rgb_color("#+1+2+3"), 0x030201);
    assert_eq!(scintilla_rgb_color("#FFFFFF"), 0xFFFFFF);
    assert_eq!(scintilla_rgb_color("#000000"), 0);
}

#[test]
fn rgb_color_channels_round_trip() {
    let c = scintilla_rgb_color("#123456");
    assert_eq!(c & 0xFF, 0x12);
    assert_eq!((c >> 8) & 0xFF, 0x34);
    assert_eq!(c >> 16, 0x56);
}

#[test]
fn end_at_last_line_is_inverted() {
    let e = ScintillaEdit::default();
    assert_eq!(e.set_end_at_last_line(true), value(SCI_SETENDATLASTLINE, 0, 0));
    assert_eq!(e.set_end_at_last_line(false), value(SCI_SETENDATLASTLINE, 1, 0));
}

#[test]
fn simple_setters_send_their_messages() {
    let e = ScintillaEdit::default();
    assert_eq!(e.set_font_size(12), value(2055, 32, 12));
    assert_eq!(e.set_code_page(65001), value(2037, 65001, 0));
    assert_eq!(e.set_tab_width(2), value(2036, 2, 0));
    assert_eq!(e.style_set_fore(5, 0xDD78C6), value(2051, 5, 0xDD78C6));
    assert_eq!(e.style_set_back(5, 0x342C28), value(2052, 5, 0x342C28));
    assert_eq!(e.set_margin_type_n(0, 1), value(2240, 0, 1));
    assert_eq!(e.set_margin_width_n(0, 40), value(2242, 0, 40));
    assert_eq!(e.set_margin_back_n(1, 7), value(2250, 1, 7));
    assert_eq!(e.set_ilexer(4096), value(4033, 0, 4096));
    assert_eq!(e.style_set_font(32, "Cascadia Code"), text(2056, 32, "Cascadia Code"));
    assert_eq!(e.text_width(33, "0042"), text(2276, 33, "0042"));
    assert_eq!(e.get_line_count(), value(2154, 0, 0));
}

#[test]
fn lexer_elem_color_fore_then_back() {
    let e = ScintillaEdit::default();
    assert_eq!(e.set_lexer_elem_color(7, 1, 2), vec![value(2051, 7, 1), value(2052, 7, 2)]);
}

#[test]
fn caret_setup() {
    let e = ScintillaEdit::default();
    assert_eq!(
        e.setup_caret(2, 0xFFE75C27),
        vec![value(2188, 2, 0), value(2753, 40, 0xFFE75C27), value(2753, 50, 0xFF3E342F)]
    );
}

#[test]
fn keywords_are_joined_with_spaces() {
    let e = ScintillaEdit::default();
    assert_eq!(
        e.set_key_words(1, vec!["select", "from", "where"]),
        text(SCI_SETKEYWORDS, 1, "select from where")
    );
    assert_eq!(join_with_space(&vec![]), "");
    assert_eq!(join_with_space(&vec!["one"]), "one");
}

#[test]
fn decimal_numerals() {
    let mut s = String::from("00");
    push_decimal(&mut s, 0);
    assert_eq!(s, "000");
    let mut s = String::new();
    push_decimal(&mut s, 1234567890);
    assert_eq!(s, "1234567890");
    let mut s = String::new();
    push_decimal(&mut s, usize::MAX);
    assert_eq!(s, usize::MAX.to_string());
}

#[test]
fn nul_terminated_buffers() {
    assert_eq!(text_from_nul_terminated(b"select 1\0"), Ok("select 1".to_string()));
    assert_eq!(text_from_nul_terminated(b"\0"), Ok(String::new()));
    assert_eq!(text_from_nul_terminated("é\0".as_bytes()), Ok("é".to_string()));
    assert_eq!(text_from_nul_terminated(b"ab\0c\0"), Err(TextBufferError::InteriorNul(2)));
    assert_eq!(text_from_nul_terminated(b"abc"), Err(TextBufferError::NotNulTerminated));
    assert_eq!(text_from_nul_terminated(b""), Err(TextBufferError::NotNulTerminated));
    assert_eq!(text_from_nul_terminated(b"\xff\0"), Err(TextBufferError::InvalidUtf8));
}

#[test]
fn builder_defaults_and_setters() {
    let b = ScintillaEdit::builder();
    assert_eq!(b.text, "");
    assert_eq!(b.size, (100, 25));
    assert_eq!(b.position, (0, 0));
    assert_eq!(b.ex_flags, 0);
    assert_eq!(b.parent, None);
    let b = b.size((640, 480)).position((10, 20)).parent(77);
    assert_eq!(b.size, (640, 480));
    assert_eq!(b.position, (10, 20));
    assert_eq!(b.parent, Some(77));
}

#[test]
fn build_without_parent_fails_and_keeps_out() {
    let mut out = ScintillaEdit { handle: Some(5), sci_direct_ptr: 9 };
    let res = ScintillaEdit::builder().build(&mut out);
    assert_eq!(res, Err(BuildError::NoParent));
    assert_eq!(out, ScintillaEdit { handle: Some(5), sci_direct_ptr: 9 });
}

#[test]
fn build_with_parent_plans_window_and_setup() {
    let mut out = ScintillaEdit { handle: Some(5), sci_direct_ptr: 9 };
    let plan = ScintillaEdit::builder().size((300, 200)).parent(42).build(&mut out).unwrap();
    assert_eq!(out, ScintillaEdit::default());
    assert_eq!(plan.window.class_name, "Scintilla");
    assert_eq!(plan.window.forced_flags, 0x4000_0000);
    assert_eq!(plan.window.flags, 0x1000_0000);
    assert_eq!(plan.window.ex_flags, 0x200);
    assert_eq!(plan.window.size, (300, 200));
    assert_eq!(plan.window.parent, 42);
    let s = &plan.setup;
    assert_eq!(s[0], EditorStep::Call(value(2037, 65001, 0)));
    assert_eq!(s[7], EditorStep::Call(value(2277, 0, 0)));
    assert_eq!(s[9], EditorStep::Call(text(2056, 32, "Cascadia Code")));
    assert_eq!(s[10], EditorStep::Call(value(2055, 32, 12)));
    assert_eq!(s[11], EditorStep::InstallLexer("sql".to_string()));
    assert_eq!(
        s[12],
        EditorStep::Call(text(
            4005,
            1,
            "select from where create delete update drop table in and or left right join inner alter default order by desc asc group having not null limit add column"
        ))
    );
    assert_eq!(s[13], EditorStep::Call(value(2051, 32, 0xBFB2AB)));
    assert_eq!(s[14], EditorStep::Call(value(2052, 32, 0x342C28)));
    assert_eq!(s.len(), 13 + 42 + 3 + 3);
    assert_eq!(s[57], EditorStep::UpdateLineNumber);
    assert_eq!(s[60], EditorStep::Call(value(2753, 50, 0xFF3E342F)));
}

#[test]
fn color_scheme_steps_end_with_margins() {
    let e = ScintillaEdit::default();
    let steps = e.setup_color_scheme();
    assert_eq!(steps.len(), 45);
    assert_eq!(steps[2], EditorStep::Call(value(2051, 33, 0x8E847F)));
    assert_eq!(steps[20], EditorStep::Call(value(2051, 8, 0xFF000)));
    assert_eq!(steps[42], EditorStep::Call(value(2252, 2, 0)));
    assert_eq!(steps[43], EditorStep::Call(value(2240, 0, 1)));
    assert_eq!(steps[44], EditorStep::UpdateLineNumber);
    for i in 0..21 {
        assert_eq!(steps[2 * i + 1], match &steps[2 * i + 1] {
            EditorStep::Call(c) => EditorStep::Call(value(2052, c.wparam, 0x342C28)),
            _ => panic!("not a call"),
        });
    }
}

#[test]
fn line_number_update_runs_three_calls() {
    let e = ScintillaEdit::default();
    let (c, next) = e.update_line_number(LineNumberStage::Start, 0);
    assert_eq!(c, value(2154, 0, 0));
    assert_eq!(next, Some(LineNumberStage::LineCount));
    let (c, next) = e.update_line_number(LineNumberStage::LineCount, 137);
    assert_eq!(c, text(2276, 33, "00137"));
    assert_eq!(next, Some(LineNumberStage::TextWidth));
    let (c, next) = e.update_line_number(LineNumberStage::TextWidth, 41);
    assert_eq!(c, value(2242, 0, 41));
    assert_eq!(next, None);
}

#[test]
fn sel_text_steps() {
    let e = ScintillaEdit::default();
    assert_eq!(
        e.get_sel_text(SelTextStage::Start, 0),
        SelTextStep::Query(value(2145, 0, 0), SelTextStage::SelectionEnd)
    );
    assert_eq!(
        e.get_sel_text(SelTextStage::SelectionEnd, 12),
        SelTextStep::Query(value(2143, 0, 0), SelTextStage::SelectionStart { end: 12 })
    );
    assert_eq!(
        e.get_sel_text(SelTextStage::SelectionStart { end: 12 }, 4),
        SelTextStep::Fill(SciCall { message: 2161, wparam: 0, lparam: SciParam::Buffer(9) })
    );
    assert_eq!(e.get_sel_text(SelTextStage::SelectionStart { end: 12 }, 12), SelTextStep::Empty);
}

#[test]
fn key_press_only_f5() {
    let e = ScintillaEdit::default();
    assert!(e.on_key_press(Some(KEY_F5)));
    assert!(!e.on_key_press(Some(0x73)));
    assert!(!e.on_key_press(None));
}

#[test]
fn notifications() {
    let mut e = ScintillaEdit::default();
    e.attach(100, 555);
    assert_eq!(e.handle, Some(100));
    assert_eq!(e.sci_direct_ptr, 555);
    assert_eq!(
        e.on_notify(WM_NOTIFY, 100, 2008, 1),
        vec![EditorStep::Call(value(4003, 0, -1)), EditorStep::UpdateLineNumber]
    );
    assert_eq!(e.on_notify(WM_NOTIFY, 100, 2008, 0), vec![EditorStep::Call(value(4003, 0, -1))]);
    assert_eq!(e.on_notify(WM_NOTIFY, 100, 2018, 0), vec![EditorStep::UpdateLineNumber]);
    assert_eq!(e.on_notify(WM_NOTIFY, 100, 2001, 3), vec![]);
    assert_eq!(e.on_notify(WM_NOTIFY, 101, 2008, 1), vec![]);
    assert_eq!(e.on_notify(0x0111, 100, 2008, 1), vec![]);
    assert_eq!(ScintillaEdit::default().on_notify(WM_NOTIFY, 0, 2008, 1), vec![]);
}

#[test]
fn control_flags_and_class() {
    let e = ScintillaEdit::default();
    assert_eq!(e.class_name(), "Scintilla");
    assert_eq!(e.ex_flags(), 0x200);
    assert_eq!(e.flags(), 0x1000_0000);
    assert_eq!(e.forced_flags(), 0x4000_0000);
}

#[test]
fn replies() {
    assert_eq!(reply_as_usize(42), 42);
    assert_eq!(reply_as_usize(-1), usize::MAX);
    assert_eq!(reply_as_u32(0x1_0000_0005), 5);
}

#[test]
fn center_positions() {
    assert_eq!(center_window_position(1920, 1080, 800, 600), (560, 240));
    assert_eq!(center_window_position(801, 601, 800, 600), (0, 0));
    assert_eq!(center_window_position(100, 100, 103, 200), (-1, -50));
}

#[test]
fn sql_parses_into_statements() {
    let statements = format_sql("SELECT 1; SELECT a FROM t WHERE b = 2").unwrap();
    assert_eq!(statements.len(), 2);
    assert_eq!(statements[0].to_string(), "SELECT 1");
    assert_eq!(statements[1].to_string(), "SELECT a FROM t WHERE b = 2");
    assert_eq!(statements, format_sql("SELECT 1; SELECT a FROM t WHERE b = 2").unwrap());
    assert_eq!(format_sql("").unwrap().len(), 0);
    assert!(format_sql("SELEC 1").is_err());
    assert_eq!(format_sql("SELEC 1").unwrap_err(), format_sql("SELEC 1").unwrap_err());
    assert_ne!(format_sql("SELEC 1").unwrap_err(), format_sql("SELECT (").unwrap_err());
}
