use winui_reactor::backend::RichTextBook;
use winui_reactor::rich_text::{
    inline_display_text, inline_eq, inlines_share_style, paragraph_eq, plan_inline_sync,
    rich_run_style_eq, InlineOp, ParagraphOp, RichTextHyperlink, RichTextInline,
    RichTextParagraph, RichTextRun, RichTextState,
};
use winui_reactor::widget::Color;

fn run(text: &str) -> RichTextInline {
    RichTextInline::Run(RichTextRun::plain(text))
}

fn bold(text: &str) -> RichTextInline {
    let mut r = RichTextRun::plain(text);
    r.is_bold = true;
    RichTextInline::Run(r)
}

fn link(text: &str, uri: &str) -> RichTextInline {
    RichTextInline::Hyperlink(RichTextHyperlink { text: text.to_string(), uri: uri.to_string() })
}

fn para(inlines: Vec<RichTextInline>) -> RichTextParagraph {
    RichTextParagraph::new(inlines)
}

#[test]
fn style_equality_ignores_text_only() {
    let a = RichTextRun::plain("a");
    let b = RichTextRun::plain("completely different");
    assert!(rich_run_style_eq(&a, &b));
    let mut c = RichTextRun::plain("a");
    c.foreground = Some(Color::rgb(1, 2, 3));
    assert!(!rich_run_style_eq(&a, &c));
    let mut d = RichTextRun::plain("a");
    d.font_size = Some(20.0f64.to_bits());
    assert!(!rich_run_style_eq(&a, &d));
    let mut e = RichTextRun::plain("a");
    e.font_family = Some("Consolas".to_string());
    assert!(!rich_run_style_eq(&a, &e));
}

#[test]
fn shared_style_between_inline_kinds() {
    assert!(inlines_share_style(&run("x"), &run("y")));
    assert!(!inlines_share_style(&run("x"), &bold("x")));
    assert!(inlines_share_style(&RichTextInline::LineBreak, &RichTextInline::LineBreak));
    assert!(inlines_share_style(&link("a", "u"), &link("b", "u")));
    assert!(!inlines_share_style(&link("a", "u"), &link("a", "v")));
    assert!(!inlines_share_style(&run("x"), &RichTextInline::LineBreak));
}

#[test]
fn inline_and_paragraph_equality() {
    assert!(inline_eq(&run("x"), &run("x")));
    assert!(!inline_eq(&run("x"), &run("y")));
    assert!(!inline_eq(&run("x"), &bold("x")));
    assert!(paragraph_eq(&para(vec![run("a"), run("b")]), &para(vec![run("a"), run("b")])));
    assert!(!paragraph_eq(&para(vec![run("a")]), &para(vec![run("a"), run("b")])));
}

#[test]
fn display_text_of_inlines() {
    assert_eq!(inline_display_text(&run("abc")), "abc");
    assert_eq!(inline_display_text(&RichTextInline::LineBreak), "\n");
    assert_eq!(inline_display_text(&link("site", "https://example.org")), "site");
}

#[test]
fn streaming_growth_only_retexts_the_last_run() {
    let old = vec![run("Hello, "), bold("wor")];
    let new = vec![run("Hello, "), bold("world")];
    assert_eq!(plan_inline_sync(&old, &new, 2), vec![InlineOp::SetText(1)]);
}

#[test]
fn style_change_rebuilds_the_run() {
    let old = vec![run("a"), run("b")];
    let new = vec![run("a"), bold("b")];
    assert_eq!(plan_inline_sync(&old, &new, 2), vec![InlineOp::Replace(1)]);
}

#[test]
fn new_runs_are_appended_and_surplus_removed() {
    let old = vec![run("a")];
    let new = vec![run("a"), run("b"), RichTextInline::LineBreak];
    assert_eq!(
        plan_inline_sync(&old, &new, 1),
        vec![InlineOp::Append(1), InlineOp::Append(2)]
    );
    let shrink = vec![run("a")];
    assert_eq!(
        plan_inline_sync(&new, &shrink, 3),
        vec![InlineOp::RemoveLast, InlineOp::RemoveLast]
    );
}

#[test]
fn unchanged_runs_need_nothing() {
    let old = vec![run("a"), bold("b")];
    let new = vec![run("a"), bold("b")];
    assert!(plan_inline_sync(&old, &new, 2).is_empty());
}

#[test]
fn positions_without_objects_are_appended() {
    // Only the first run has an object: later positions are appended even
    // where the old content had a run.
    let old = vec![run("a"), run("b")];
    let new = vec![run("x"), run("y")];
    assert_eq!(
        plan_inline_sync(&old, &new, 1),
        vec![InlineOp::SetText(0), InlineOp::Append(1)]
    );
}

#[test]
fn paragraph_plan_keeps_resyncs_and_creates() {
    let mut state = RichTextState::new();
    let first = vec![para(vec![run("a")]), para(vec![run("b")])];
    let ops = state.sync(&first, 0, &vec![]);
    assert_eq!(
        ops,
        vec![
            ParagraphOp::Create(0, vec![InlineOp::Append(0)]),
            ParagraphOp::Create(1, vec![InlineOp::Append(0)]),
        ]
    );
    let second = vec![para(vec![run("a")]), para(vec![run("bc")]), para(vec![])];
    let ops = state.sync(&second, 2, &vec![1, 1]);
    assert_eq!(
        ops,
        vec![ParagraphOp::Resync(1, vec![InlineOp::SetText(0)]), ParagraphOp::Create(2, vec![])]
    );
    // Unchanged content plans nothing.
    assert!(state.sync(&second, 3, &vec![1, 1, 0]).is_empty());
    // A later equal paragraph after a changed one is kept.
    let third = vec![para(vec![run("z")]), para(vec![run("bc")])];
    let ops = state.sync(&third, 3, &vec![1, 1, 0]);
    assert_eq!(
        ops,
        vec![
            ParagraphOp::Resync(0, vec![InlineOp::SetText(0)]),
            ParagraphOp::Keep(1),
            ParagraphOp::RemoveLast,
        ]
    );
    assert_eq!(state.paragraphs, third);
}

#[test]
fn rich_text_book_tracks_each_block() {
    let mut book = RichTextBook::new();
    let content = vec![para(vec![run("a")])];
    assert_eq!(
        book.set_paragraphs(7, &content, 0, &vec![]),
        vec![ParagraphOp::Create(0, vec![InlineOp::Append(0)])]
    );
    assert!(book.set_paragraphs(7, &content, 1, &vec![1]).is_empty());
    // Another block starts from nothing.
    assert_eq!(book.set_paragraphs(8, &content, 0, &vec![]).len(), 1);
    book.destroy(7);
    assert_eq!(book.set_paragraphs(7, &content, 0, &vec![]).len(), 1);
}

fn sized(text: &str, size: f64) -> RichTextRun {
    let mut r = RichTextRun::plain(text);
    r.font_size = Some(size.to_bits());
    r
}

#[test]
fn font_sizes_compare_as_floats() {
    // The two zeros are one size.
    assert!(rich_run_style_eq(&sized("a", 0.0), &sized("b", -0.0)));
    assert!(inline_eq(&RichTextInline::Run(sized("a", 0.0)), &RichTextInline::Run(sized("a", -0.0))));
    assert!(rich_run_style_eq(&sized("a", 14.0), &sized("b", 14.0)));
    assert!(!rich_run_style_eq(&sized("a", 14.0), &sized("b", 15.0)));
    // A NaN size equals nothing, itself included.
    let nan = sized("a", f64::NAN);
    assert!(!rich_run_style_eq(&nan, &sized("a", f64::NAN)));
    assert!(!inline_eq(&RichTextInline::Run(sized("a", f64::NAN)), &RichTextInline::Run(sized("a", f64::NAN))));
    let p = para(vec![RichTextInline::Run(sized("a", f64::NAN))]);
    assert!(!paragraph_eq(&p, &para(vec![RichTextInline::Run(sized("a", f64::NAN))])));
}

#[test]
fn nan_sized_run_is_rebuilt_each_time() {
    let old = vec![RichTextInline::Run(sized("a", f64::NAN))];
    let new = vec![RichTextInline::Run(sized("a", f64::NAN))];
    assert_eq!(plan_inline_sync(&old, &new, 1), vec![InlineOp::Replace(0)]);
    let old = vec![RichTextInline::Run(sized("a", 0.0))];
    let new = vec![RichTextInline::Run(sized("a", -0.0))];
    assert_eq!(plan_inline_sync(&old, &new, 1), vec![]);
}

#[test]
fn missing_objects_are_built_not_reused() {
    let mut state = RichTextState::new();
    let first = vec![para(vec![run("a"), run("b")])];
    state.sync(&first, 0, &vec![]);
    // The paragraph object was built, but its second run failed to build.
    let second = vec![para(vec![run("a"), run("bc")])];
    assert_eq!(
        state.sync(&second, 1, &vec![1]),
        vec![ParagraphOp::Resync(0, vec![InlineOp::Append(1)])]
    );
    // The paragraph object itself failed to build: the paragraph is created.
    let mut state = RichTextState::new();
    state.sync(&first, 0, &vec![]);
    assert_eq!(
        state.sync(&second, 0, &vec![]),
        vec![ParagraphOp::Create(0, vec![InlineOp::Append(0), InlineOp::Append(1)])]
    );
    // Equal content plans nothing, surplus objects included.
    assert!(state.sync(&second, 3, &vec![2, 0, 0]).is_empty());
}
