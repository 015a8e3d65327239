//! Rich text content and its incremental update plan.
//!
//! A rich text block shows paragraphs of inlines (styled runs, line breaks,
//! hyperlinks). While text streams in, the content is rebuilt every frame,
//! so updating the platform objects must cost what changed, not the whole
//! text: unchanged paragraphs and runs keep their objects, a run whose text
//! changed but whose style did not keeps its object and only gets new text,
//! a run whose style changed is rebuilt in place, new runs are appended and
//! surplus runs are removed from the end. The same holds one level up for
//! paragraphs.
//!
//! This module computes that plan from the previous and the new content,
//! and proves that carrying it out turns what is shown into the new
//! content.
use crate::widget::{opt_str_view, Color};
use vstd::prelude::*;

verus! {

/// A styled run of text. `font_size` holds the IEEE-754 bit pattern of the
/// size in points; sizes compare as floating-point numbers do (both zeros
/// are equal, a NaN size equals nothing).
#[derive(PartialEq, Debug)]
pub struct RichTextRun {
    pub text: String,
    pub is_bold: bool,
    pub is_italic: bool,
    pub foreground: Option<Color>,
    pub font_size: Option<u64>,
    pub font_family: Option<String>,
}

#[derive(PartialEq, Debug)]
pub struct RichTextHyperlink {
    pub text: String,
    pub uri: String,
}

#[derive(PartialEq, Debug)]
pub enum RichTextInline {
    Run(RichTextRun),
    LineBreak,
    Hyperlink(RichTextHyperlink),
}

#[derive(PartialEq, Debug)]
pub struct RichTextParagraph {
    pub inlines: Vec<RichTextInline>,
}

// ---------------------------------------------------------------------------
// Font sizes as IEEE-754 bit patterns
// ---------------------------------------------------------------------------
/// The bit pattern is a zero (of either sign).
pub open spec fn bits_zero(x: u64) -> bool {
    x & 0x7fff_ffff_ffff_ffffu64 == 0
}

/// The bit pattern is a NaN: all exponent bits set, a non-zero fraction.
pub open spec fn bits_nan(x: u64) -> bool {
    x & 0x7ff0_0000_0000_0000u64 == 0x7ff0_0000_0000_0000u64 && x & 0x000f_ffff_ffff_ffffu64 != 0
}

/// Floating-point equality of two bit patterns: no NaN is equal to
/// anything, the two zeros are equal, other values are equal when their
/// bits are.
pub open spec fn bits_ieee_eq(x: u64, y: u64) -> bool {
    !bits_nan(x) && !bits_nan(y) && (x == y || (bits_zero(x) && bits_zero(y)))
}

/// The bit pattern with the sign of a zero dropped: the value a size
/// stands for.
pub open spec fn bits_norm(x: u64) -> u64 {
    if bits_zero(x) {
        0
    } else {
        x
    }
}

pub proof fn lemma_bits_ieee_eq(x: u64, y: u64)
    by (bit_vector)
    ensures
        bits_ieee_eq(x, y) == (bits_norm(x) == bits_norm(y) && !bits_nan(x)),
        bits_nan(bits_norm(x)) == bits_nan(x),
{
}

/// An optional size with the sign of a zero dropped.
pub open spec fn size_norm(s: Option<u64>) -> Option<u64> {
    match s {
        Some(x) => Some(bits_norm(x)),
        None => None,
    }
}

pub open spec fn size_is_nan(s: Option<u64>) -> bool {
    match s {
        Some(x) => bits_nan(x),
        None => false,
    }
}

/// Equality of optional sizes as `Option<f64>` compares them.
pub open spec fn size_ieee_eq(a: Option<u64>, b: Option<u64>) -> bool {
    match (a, b) {
        (Some(x), Some(y)) => bits_ieee_eq(x, y),
        (None, None) => true,
        _ => false,
    }
}

/// The content of a run. The font size is the value it stands for: the
/// two zeros are one.
pub struct RunView {
    pub text: Seq<char>,
    pub is_bold: bool,
    pub is_italic: bool,
    pub foreground: Option<Color>,
    pub font_size: Option<u64>,
    pub font_family: Option<Seq<char>>,
}

/// The content of an inline; a hyperlink is its text and its uri.
pub enum InlineView {
    Run(RunView),
    LineBreak,
    Hyperlink(Seq<char>, Seq<char>),
}

impl View for RichTextRun {
    type V = RunView;

    open spec fn view(&self) -> RunView {
        RunView {
            text: self.text@,
            is_bold: self.is_bold,
            is_italic: self.is_italic,
            foreground: self.foreground,
            font_size: size_norm(self.font_size),
            font_family: opt_str_view(self.font_family),
        }
    }
}

impl View for RichTextInline {
    type V = InlineView;

    open spec fn view(&self) -> InlineView {
        match self {
            RichTextInline::Run(r) => InlineView::Run(r@),
            RichTextInline::LineBreak => InlineView::LineBreak,
            RichTextInline::Hyperlink(h) => InlineView::Hyperlink(h.text@, h.uri@),
        }
    }
}

/// The content of a sequence of inlines.
pub open spec fn inlines_view(s: Seq<RichTextInline>) -> Seq<InlineView> {
    s.map_values(|i: RichTextInline| i@)
}

impl View for RichTextParagraph {
    type V = Seq<InlineView>;

    open spec fn view(&self) -> Seq<InlineView> {
        inlines_view(self.inlines@)
    }
}

/// The content of a sequence of paragraphs.
pub open spec fn paragraphs_view(s: Seq<RichTextParagraph>) -> Seq<Seq<InlineView>> {
    s.map_values(|p: RichTextParagraph| p@)
}

/// Two runs have the same style apart from their text; a NaN font size
/// compares unequal, as floating-point numbers do.
pub open spec fn run_style_eq(a: RunView, b: RunView) -> bool {
    &&& a.is_bold == b.is_bold
    &&& a.is_italic == b.is_italic
    &&& a.foreground == b.foreground
    &&& a.font_size == b.font_size
    &&& !size_is_nan(a.font_size)
    &&& a.font_family == b.font_family
}

/// An inline equals itself: it holds no NaN font size.
pub open spec fn inline_settled(i: InlineView) -> bool {
    match i {
        InlineView::Run(r) => !size_is_nan(r.font_size),
        _ => true,
    }
}

/// A paragraph equals itself: none of its inlines holds a NaN font size.
pub open spec fn paragraph_settled(p: Seq<InlineView>) -> bool {
    forall|k: int| 0 <= k < p.len() ==> #[trigger] inline_settled(p[k])
}

/// Content that equals itself.
pub open spec fn content_settled(c: Seq<Seq<InlineView>>) -> bool {
    forall|k: int| 0 <= k < c.len() ==> #[trigger] paragraph_settled(c[k])
}

/// Equality of inlines as the widget types compare them.
pub open spec fn inline_same(a: InlineView, b: InlineView) -> bool {
    a == b && inline_settled(a)
}

/// Equality of paragraphs as the widget types compare them.
pub open spec fn paragraph_same(a: Seq<InlineView>, b: Seq<InlineView>) -> bool {
    a == b && paragraph_settled(a)
}

pub open spec fn inline_ok() -> spec_fn(InlineView) -> bool {
    |i: InlineView| inline_settled(i)
}

pub open spec fn paragraph_ok() -> spec_fn(Seq<InlineView>) -> bool {
    |p: Seq<InlineView>| paragraph_settled(p)
}

/// The platform object shown for `old` can show `new` by a change of text
/// alone: both are runs of the same style, both line breaks, or both
/// hyperlinks to the same uri.
pub open spec fn inline_style_same(old: InlineView, new: InlineView) -> bool {
    match (old, new) {
        (InlineView::Run(a), InlineView::Run(b)) => run_style_eq(a, b),
        (InlineView::LineBreak, InlineView::LineBreak) => true,
        (InlineView::Hyperlink(_, u1), InlineView::Hyperlink(_, u2)) => u1 == u2,
        _ => false,
    }
}

/// The text an inline puts on screen.
pub open spec fn inline_text(i: InlineView) -> Seq<char> {
    match i {
        InlineView::Run(r) => r.text,
        InlineView::LineBreak => seq!['\n'],
        InlineView::Hyperlink(t, _) => t,
    }
}

/// What a shown inline becomes when only its text is replaced.
pub open spec fn with_text(i: InlineView, t: Seq<char>) -> InlineView {
    match i {
        InlineView::Run(r) => InlineView::Run(RunView { text: t, ..r }),
        InlineView::LineBreak => InlineView::LineBreak,
        InlineView::Hyperlink(_, u) => InlineView::Hyperlink(t, u),
    }
}

impl RichTextRun {
    /// A run in the default style.
    pub fn plain(text: &str) -> (r: Self)
        ensures
            r.text@ == text@,
            !r.is_bold,
            !r.is_italic,
            r.foreground is None,
            r.font_size is None,
            r.font_family is None,
    {
        RichTextRun {
            text: String::from_str(text),
            is_bold: false,
            is_italic: false,
            foreground: None,
            font_size: None,
            font_family: None,
        }
    }
}

/// `b` has the same fields as `a`, font size bits included.
pub open spec fn run_copy(a: RichTextRun, b: RichTextRun) -> bool {
    &&& b.text@ == a.text@
    &&& b.is_bold == a.is_bold
    &&& b.is_italic == a.is_italic
    &&& b.foreground == a.foreground
    &&& b.font_size == a.font_size
    &&& opt_str_view(b.font_family) == opt_str_view(a.font_family)
}

/// `b` has the same fields as `a`.
pub open spec fn inline_copy(a: RichTextInline, b: RichTextInline) -> bool {
    match (a, b) {
        (RichTextInline::Run(x), RichTextInline::Run(y)) => run_copy(x, y),
        (RichTextInline::LineBreak, RichTextInline::LineBreak) => true,
        (RichTextInline::Hyperlink(x), RichTextInline::Hyperlink(y)) => y.text@ == x.text@ && y.uri@
            == x.uri@,
        _ => false,
    }
}

impl Clone for RichTextRun {
    fn clone(&self) -> (r: Self)
        ensures
            run_copy(*self, r),
            r@ == self@,
    {
        let font_family = match &self.font_family {
            Some(f) => Some(f.clone()),
            None => None,
        };
        RichTextRun {
            text: self.text.clone(),
            is_bold: self.is_bold,
            is_italic: self.is_italic,
            foreground: self.foreground,
            font_size: self.font_size,
            font_family,
        }
    }
}

impl Clone for RichTextInline {
    fn clone(&self) -> (r: Self)
        ensures
            inline_copy(*self, r),
            r@ == self@,
    {
        match self {
            RichTextInline::Run(run) => RichTextInline::Run(run.clone()),
            RichTextInline::LineBreak => RichTextInline::LineBreak,
            RichTextInline::Hyperlink(h) => RichTextInline::Hyperlink(
                RichTextHyperlink { text: h.text.clone(), uri: h.uri.clone() },
            ),
        }
    }
}

impl Clone for RichTextParagraph {
    fn clone(&self) -> (r: Self)
        ensures
            r.inlines@.len() == self.inlines@.len(),
            forall|k: int| 0 <= k < self.inlines@.len() ==> #[trigger] inline_copy(self.inlines@[k], r.inlines@[k]),
            r@ == self@,
    {
        let mut inlines: Vec<RichTextInline> = Vec::new();
        let n = self.inlines.len();
        for i in 0..n
            invariant
                n == self.inlines@.len(),
                inlines@.len() == i,
                forall|k: int| 0 <= k < i ==> #[trigger] inlines@[k]@ == self.inlines@[k]@,
                forall|k: int| 0 <= k < i ==> #[trigger] inline_copy(self.inlines@[k], inlines@[k]),
        {
            inlines.push(self.inlines[i].clone());
        }
        let r = RichTextParagraph { inlines };
        assert(r@ =~= self@);
        r
    }
}

impl RichTextParagraph {
    pub fn new(inlines: Vec<RichTextInline>) -> (p: Self)
        ensures
            p.inlines == inlines,
    {
        RichTextParagraph { inlines }
    }
}

fn opt_string_eq(a: &Option<String>, b: &Option<String>) -> (r: bool)
    ensures
        r == (opt_str_view(*a) == opt_str_view(*b)),
{
    match (a, b) {
        (Some(x), Some(y)) => *x == *y,
        (None, None) => true,
        _ => false,
    }
}

fn opt_color_eq(a: &Option<Color>, b: &Option<Color>) -> (r: bool)
    ensures
        r == (*a == *b),
{
    match (a, b) {
        (Some(x), Some(y)) => x.a == y.a && x.r == y.r && x.g == y.g && x.b == y.b,
        (None, None) => true,
        _ => false,
    }
}

fn is_zero_bits(x: u64) -> (r: bool)
    ensures
        r == bits_zero(x),
{
    x & 0x7fff_ffff_ffff_ffffu64 == 0
}

fn is_nan_bits(x: u64) -> (r: bool)
    ensures
        r == bits_nan(x),
{
    x & 0x7ff0_0000_0000_0000u64 == 0x7ff0_0000_0000_0000u64 && x & 0x000f_ffff_ffff_ffffu64 != 0
}

fn opt_size_eq(a: &Option<u64>, b: &Option<u64>) -> (r: bool)
    ensures
        r == size_ieee_eq(*a, *b),
        r == (size_norm(*a) == size_norm(*b) && !size_is_nan(size_norm(*a))),
{
    match (a, b) {
        (Some(x), Some(y)) => {
            proof {
                lemma_bits_ieee_eq(*x, *y);
            }
            !is_nan_bits(*x) && !is_nan_bits(*y) && (*x == *y || (is_zero_bits(*x) && is_zero_bits(
                *y,
            )))
        },
        (None, None) => true,
        _ => false,
    }
}

/// Whether two runs have the same style, their text aside: the condition
/// for reusing a run's platform object with new text only.
pub fn rich_run_style_eq(a: &RichTextRun, b: &RichTextRun) -> (r: bool)
    ensures
        r == (a.is_bold == b.is_bold && a.is_italic == b.is_italic && a.foreground == b.foreground
            && size_ieee_eq(a.font_size, b.font_size) && opt_str_view(a.font_family) == opt_str_view(
            b.font_family,
        )),
        r == run_style_eq(a@, b@),
{
    a.is_bold == b.is_bold && a.is_italic == b.is_italic && opt_color_eq(&a.foreground, &b.foreground)
        && opt_size_eq(&a.font_size, &b.font_size) && opt_string_eq(&a.font_family, &b.font_family)
}

/// Whether two inlines have the same content (font sizes compared as
/// floating-point numbers).
pub fn inline_eq(a: &RichTextInline, b: &RichTextInline) -> (r: bool)
    ensures
        r == inline_same(a@, b@),
{
    match (a, b) {
        (RichTextInline::Run(x), RichTextInline::Run(y)) => {
            let same_text = x.text == y.text;
            let r = same_text && rich_run_style_eq(x, y);
            proof {
                if r {
                    assert(x@ == y@);
                }
            }
            r
        },
        (RichTextInline::LineBreak, RichTextInline::LineBreak) => true,
        (RichTextInline::Hyperlink(x), RichTextInline::Hyperlink(y)) => x.text == y.text && x.uri
            == y.uri,
        _ => false,
    }
}

/// Whether the object shown for `old` can show `new` by a text change.
pub fn inlines_share_style(old: &RichTextInline, new: &RichTextInline) -> (r: bool)
    ensures
        r == inline_style_same(old@, new@),
{
    match (old, new) {
        (RichTextInline::Run(a), RichTextInline::Run(b)) => rich_run_style_eq(a, b),
        (RichTextInline::LineBreak, RichTextInline::LineBreak) => true,
        (RichTextInline::Hyperlink(a), RichTextInline::Hyperlink(b)) => a.uri == b.uri,
        _ => false,
    }
}

/// Whether two paragraphs have the same content.
pub fn paragraph_eq(a: &RichTextParagraph, b: &RichTextParagraph) -> (r: bool)
    ensures
        r == paragraph_same(a@, b@),
{
    let n = a.inlines.len();
    if n != b.inlines.len() {
        assert(a@.len() != b@.len());
        return false;
    }
    for i in 0..n
        invariant
            n == a.inlines@.len(),
            n == b.inlines@.len(),
            forall|k: int| 0 <= k < i ==> #[trigger] a@[k] == b@[k] && inline_settled(a@[k]),
    {
        if !inline_eq(&a.inlines[i], &b.inlines[i]) {
            assert(!inline_same(a@[i as int], b@[i as int]));
            return false;
        }
    }
    assert(a@ =~= b@);
    true
}

/// The text the platform object of an inline shows: a run's or a
/// hyperlink's text, a newline for a line break.
pub fn inline_display_text(i: &RichTextInline) -> (t: String)
    ensures
        t@ == inline_text(i@),
{
    match i {
        RichTextInline::Run(r) => r.text.clone(),
        RichTextInline::LineBreak => {
            let t = String::from_str("\n");
            proof {
                reveal_strlit("\n");
            }
            assert(t@ =~= seq!['\n']);
            t
        },
        RichTextInline::Hyperlink(h) => h.text.clone(),
    }
}

/// One property set on a newly built run object.
#[derive(PartialEq, Eq, Structural, Clone, Copy, Debug)]
pub enum RunSetter {
    /// The inline's display text (`inline_display_text`).
    Text,
    /// The font weight (700 for bold).
    FontWeight(u16),
    /// The italic font style.
    Italic,
    /// A solid foreground brush of this colour.
    Foreground(Color),
    /// The font size, as the bit pattern of the size in points.
    FontSize(u64),
    /// The run's font family.
    FontFamily,
}

/// The properties a newly built run object gets, in order: its text, then
/// for a styled run the bold weight, the italic style, the foreground, the
/// font size and the font family it has. A line break and a hyperlink get
/// their text only. A reused object gets its text only.
pub open spec fn run_setters_of(i: RichTextInline) -> Seq<RunSetter> {
    match i {
        RichTextInline::Run(r) => seq![RunSetter::Text] + (if r.is_bold {
            seq![RunSetter::FontWeight(700)]
        } else {
            Seq::empty()
        }) + (if r.is_italic {
            seq![RunSetter::Italic]
        } else {
            Seq::empty()
        }) + (match r.foreground {
            Some(c) => seq![RunSetter::Foreground(c)],
            None => Seq::empty(),
        }) + (match r.font_size {
            Some(b) => seq![RunSetter::FontSize(b)],
            None => Seq::empty(),
        }) + (if r.font_family is Some {
            seq![RunSetter::FontFamily]
        } else {
            Seq::empty()
        }),
        _ => seq![RunSetter::Text],
    }
}

/// The order in which a new run object's properties are set.
pub open spec fn setter_rank(x: RunSetter) -> int {
    match x {
        RunSetter::Text => 0,
        RunSetter::FontWeight(_) => 1,
        RunSetter::Italic => 2,
        RunSetter::Foreground(_) => 3,
        RunSetter::FontSize(_) => 4,
        RunSetter::FontFamily => 5,
    }
}

/// The setters of a new run object come in a fixed order (text, weight,
/// style, foreground, size, family), each at most once.
pub proof fn law_run_setters_in_order(i: RichTextInline, j: int, k: int)
    requires
        0 <= j < k < run_setters_of(i).len(),
    ensures
        setter_rank(run_setters_of(i)[j]) < setter_rank(run_setters_of(i)[k]),
{
    match i {
        RichTextInline::Run(r) => {
            let a: Seq<RunSetter> = seq![RunSetter::Text];
            let b: Seq<RunSetter> = if r.is_bold { seq![RunSetter::FontWeight(700)] } else { Seq::empty() };
            let c: Seq<RunSetter> = if r.is_italic { seq![RunSetter::Italic] } else { Seq::empty() };
            let d: Seq<RunSetter> = match r.foreground {
                Some(col) => seq![RunSetter::Foreground(col)],
                None => Seq::empty(),
            };
            let e: Seq<RunSetter> = match r.font_size {
                Some(bits) => seq![RunSetter::FontSize(bits)],
                None => Seq::empty(),
            };
            let f: Seq<RunSetter> = if r.font_family is Some { seq![RunSetter::FontFamily] } else { Seq::empty() };
            let s = a + b + c + d + e + f;
            assert(run_setters_of(i) == s);
            let ab = a + b;
            let abc = ab + c;
            let abcd = abc + d;
            let abcde = abcd + e;
            assert forall|q: int| 0 <= q < ab.len() implies setter_rank(ab[q]) == q by {}
            assert forall|q: int, w: int| 0 <= q < w < abc.len() implies setter_rank(abc[q]) < setter_rank(abc[w]) && setter_rank(abc[w]) <= 2 by {}
            assert forall|q: int, w: int| 0 <= q < w < abcd.len() implies setter_rank(abcd[q]) < setter_rank(abcd[w]) && setter_rank(abcd[w]) <= 3 by {}
            assert forall|q: int, w: int| 0 <= q < w < abcde.len() implies setter_rank(abcde[q]) < setter_rank(abcde[w]) && setter_rank(abcde[w]) <= 4 by {}
            assert forall|q: int, w: int| 0 <= q < w < s.len() implies setter_rank(s[q]) < setter_rank(s[w]) by {}
        },
        _ => {},
    }
}

/// A new run object gets its text first, and then exactly one setter per
/// style field that is set: the bold weight 700 when the run is bold, the
/// italic style when it is italic, its foreground colour, its font size
/// and its font family when it has them, and nothing else. Any other
/// inline gets its text only.
pub proof fn law_run_setters_follow_the_style(i: RichTextInline, x: RunSetter)
    ensures
        run_setters_of(i).len() > 0,
        run_setters_of(i)[0] == RunSetter::Text,
        run_setters_of(i).contains(x) == match i {
            RichTextInline::Run(r) => match x {
                RunSetter::Text => true,
                RunSetter::FontWeight(w) => r.is_bold && w == 700,
                RunSetter::Italic => r.is_italic,
                RunSetter::Foreground(c) => r.foreground == Some(c),
                RunSetter::FontSize(b) => r.font_size == Some(b),
                RunSetter::FontFamily => r.font_family is Some,
            },
            _ => x == RunSetter::Text,
        },
        run_setters_of(i).len() == match i {
            RichTextInline::Run(r) => 1 + (if r.is_bold { 1int } else { 0 }) + (if r.is_italic {
                1int
            } else {
                0
            }) + (if r.foreground is Some { 1int } else { 0 }) + (if r.font_size is Some {
                1int
            } else {
                0
            }) + (if r.font_family is Some { 1int } else { 0 }),
            _ => 1,
        },
{
    let s = run_setters_of(i);
    match i {
        RichTextInline::Run(r) => {
            let a: Seq<RunSetter> = seq![RunSetter::Text];
            let b: Seq<RunSetter> = if r.is_bold { seq![RunSetter::FontWeight(700)] } else { Seq::empty() };
            let c: Seq<RunSetter> = if r.is_italic { seq![RunSetter::Italic] } else { Seq::empty() };
            let d: Seq<RunSetter> = match r.foreground {
                Some(col) => seq![RunSetter::Foreground(col)],
                None => Seq::empty(),
            };
            let e: Seq<RunSetter> = match r.font_size {
                Some(bits) => seq![RunSetter::FontSize(bits)],
                None => Seq::empty(),
            };
            let f: Seq<RunSetter> = if r.font_family is Some { seq![RunSetter::FontFamily] } else { Seq::empty() };
            assert(s == a + b + c + d + e + f);
            let parts = seq![a, b, c, d, e, f];
            assert forall|y: RunSetter| (a + b + c + d + e + f).contains(y) == (a.contains(y)
                || b.contains(y) || c.contains(y) || d.contains(y) || e.contains(y) || f.contains(y)) by {
                broadcast use vstd::seq_lib::group_seq_properties;
            }
            lemma_one_or_none(a, x);
            lemma_one_or_none(b, x);
            lemma_one_or_none(c, x);
            lemma_one_or_none(d, x);
            lemma_one_or_none(e, x);
            lemma_one_or_none(f, x);
            assert(a.contains(RunSetter::Text));
            assert(a[0] == RunSetter::Text);
            if r.is_bold {
                assert(b[0] == RunSetter::FontWeight(700));
            }
            if r.is_italic {
                assert(c[0] == RunSetter::Italic);
            }
            match r.foreground {
                Some(col) => {
                    assert(d[0] == RunSetter::Foreground(col));
                },
                None => {},
            }
            match r.font_size {
                Some(bits) => {
                    assert(e[0] == RunSetter::FontSize(bits));
                },
                None => {},
            }
            if r.font_family is Some {
                assert(f[0] == RunSetter::FontFamily);
            }
        },
        _ => {
            assert(s[0] == RunSetter::Text);
            lemma_one_or_none(s, x);
        },
    }
}

proof fn lemma_one_or_none<A>(s: Seq<A>, x: A)
    requires
        s.len() <= 1,
    ensures
        s.contains(x) == (s.len() == 1 && s[0] == x),
{
    if s.len() == 1 && s[0] == x {
        assert(s.contains(x));
    }
}

pub fn run_setters(i: &RichTextInline) -> (r: Vec<RunSetter>)
    ensures
        r@ == run_setters_of(*i),
{
    let mut v: Vec<RunSetter> = Vec::new();
    v.push(RunSetter::Text);
    match i {
        RichTextInline::Run(run) => {
            if run.is_bold {
                v.push(RunSetter::FontWeight(700));
            }
            if run.is_italic {
                v.push(RunSetter::Italic);
            }
            match run.foreground {
                Some(c) => v.push(RunSetter::Foreground(c)),
                None => {},
            }
            match run.font_size {
                Some(b) => v.push(RunSetter::FontSize(b)),
                None => {},
            }
            if run.font_family.is_some() {
                v.push(RunSetter::FontFamily);
            }
        },
        _ => {},
    }
    assert(v@ =~= run_setters_of(*i));
    v
}

// ---------------------------------------------------------------------------
// Common prefix
// ---------------------------------------------------------------------------
/// The first position at or after `i` where `a` and `b` differ, where the
/// element of `a` is not `ok` (does not equal itself), or where one ends.
pub open spec fn prefix_from<A>(a: Seq<A>, b: Seq<A>, ok: spec_fn(A) -> bool, i: int) -> int
    decreases a.len() - i,
{
    if i < 0 || i >= a.len() || i >= b.len() || a[i] != b[i] || !ok(a[i]) {
        i
    } else {
        prefix_from(a, b, ok, i + 1)
    }
}

/// The length of the longest common prefix of `a` and `b` whose elements
/// are `ok`.
pub open spec fn common_prefix_len<A>(a: Seq<A>, b: Seq<A>, ok: spec_fn(A) -> bool) -> int {
    prefix_from(a, b, ok, 0)
}

/// The common prefix of two inline sequences under inline equality.
pub open spec fn inline_prefix_len(a: Seq<InlineView>, b: Seq<InlineView>) -> int {
    common_prefix_len(a, b, inline_ok())
}

/// The common prefix of two paragraph sequences under paragraph equality.
pub open spec fn paragraph_prefix_len(a: Seq<Seq<InlineView>>, b: Seq<Seq<InlineView>>) -> int {
    common_prefix_len(a, b, paragraph_ok())
}

proof fn lemma_prefix_from<A>(a: Seq<A>, b: Seq<A>, ok: spec_fn(A) -> bool, i: int)
    requires
        0 <= i <= a.len(),
        i <= b.len(),
        forall|j: int| 0 <= j < i ==> a[j] == b[j] && ok(a[j]),
    ensures
        i <= prefix_from(a, b, ok, i) <= a.len(),
        prefix_from(a, b, ok, i) <= b.len(),
        forall|j: int| 0 <= j < prefix_from(a, b, ok, i) ==> a[j] == b[j] && ok(a[j]),
        prefix_from(a, b, ok, i) == a.len() || prefix_from(a, b, ok, i) == b.len() || a[prefix_from(
            a,
            b,
            ok,
            i,
        )] != b[prefix_from(a, b, ok, i)] || !ok(a[prefix_from(a, b, ok, i)]),
    decreases a.len() - i,
{
    if i >= a.len() || i >= b.len() || a[i] != b[i] || !ok(a[i]) {
    } else {
        lemma_prefix_from(a, b, ok, i + 1);
    }
}

/// The common prefix of `a` and `b`: the two agree on it and its elements
/// are `ok`, and it ends where one of them ends, where they first differ,
/// or at the first element that is not `ok`.
pub proof fn lemma_common_prefix<A>(a: Seq<A>, b: Seq<A>, ok: spec_fn(A) -> bool)
    ensures
        0 <= common_prefix_len(a, b, ok) <= a.len(),
        common_prefix_len(a, b, ok) <= b.len(),
        forall|j: int| 0 <= j < common_prefix_len(a, b, ok) ==> a[j] == b[j] && ok(a[j]),
        common_prefix_len(a, b, ok) == a.len() || common_prefix_len(a, b, ok) == b.len()
            || a[common_prefix_len(a, b, ok)] != b[common_prefix_len(a, b, ok)] || !ok(
            a[common_prefix_len(a, b, ok)],
        ),
{
    lemma_prefix_from(a, b, ok, 0);
}

proof fn lemma_inline_prefix(a: Seq<InlineView>, b: Seq<InlineView>)
    ensures
        0 <= inline_prefix_len(a, b) <= a.len(),
        inline_prefix_len(a, b) <= b.len(),
        forall|j: int| 0 <= j < inline_prefix_len(a, b) ==> a[j] == b[j],
        inline_prefix_len(a, b) == a.len() || inline_prefix_len(a, b) == b.len() || !inline_same(
            a[inline_prefix_len(a, b)],
            b[inline_prefix_len(a, b)],
        ),
{
    lemma_common_prefix(a, b, inline_ok());
}

proof fn lemma_paragraph_prefix(a: Seq<Seq<InlineView>>, b: Seq<Seq<InlineView>>)
    ensures
        0 <= paragraph_prefix_len(a, b) <= a.len(),
        paragraph_prefix_len(a, b) <= b.len(),
        forall|j: int| 0 <= j < paragraph_prefix_len(a, b) ==> a[j] == b[j],
        paragraph_prefix_len(a, b) == a.len() || paragraph_prefix_len(a, b) == b.len()
            || !paragraph_same(a[paragraph_prefix_len(a, b)], b[paragraph_prefix_len(a, b)]),
{
    lemma_common_prefix(a, b, paragraph_ok());
}

fn common_inline_prefix(old: &Vec<RichTextInline>, new: &Vec<RichTextInline>) -> (c: usize)
    ensures
        c as int == inline_prefix_len(inlines_view(old@), inlines_view(new@)),
{
    let ghost a = inlines_view(old@);
    let ghost b = inlines_view(new@);
    let mut c: usize = 0;
    while c < old.len() && c < new.len() && inline_eq(&old[c], &new[c])
        invariant
            a == inlines_view(old@),
            b == inlines_view(new@),
            c <= old@.len(),
            c <= new@.len(),
            prefix_from(a, b, inline_ok(), c as int) == prefix_from(a, b, inline_ok(), 0),
        decreases old@.len() - c,
    {
        assert(a[c as int] == b[c as int] && inline_ok()(a[c as int]));
        c = c + 1;
    }
    c
}

fn common_paragraph_prefix(old: &Vec<RichTextParagraph>, new: &Vec<RichTextParagraph>) -> (c:
    usize)
    ensures
        c as int == paragraph_prefix_len(paragraphs_view(old@), paragraphs_view(new@)),
{
    let ghost a = paragraphs_view(old@);
    let ghost b = paragraphs_view(new@);
    let mut c: usize = 0;
    while c < old.len() && c < new.len() && paragraph_eq(&old[c], &new[c])
        invariant
            a == paragraphs_view(old@),
            b == paragraphs_view(new@),
            c <= old@.len(),
            c <= new@.len(),
            prefix_from(a, b, paragraph_ok(), c as int) == prefix_from(a, b, paragraph_ok(), 0),
        decreases old@.len() - c,
    {
        assert(a[c as int] == b[c as int] && paragraph_ok()(a[c as int]));
        c = c + 1;
    }
    c
}


// ---------------------------------------------------------------------------
// Run-level plan
// ---------------------------------------------------------------------------
/// One step of updating the inlines shown in a paragraph.
#[derive(PartialEq, Eq, Structural, Clone, Copy, Debug)]
pub enum InlineOp {
    /// Keep the object at this position and give it the new text only.
    SetText(usize),
    /// Build a new object for this position and put it in place.
    Replace(usize),
    /// Build an object for this position of the new content and append it.
    Append(usize),
    /// Remove the last shown object.
    RemoveLast,
}

/// The step for position `j`: positions that already have an object
/// (`j < realized`) keep it when the style allows, other positions are
/// appended.
pub open spec fn inline_op_at(old: Seq<InlineView>, new: Seq<InlineView>, realized: int, j: int) -> InlineOp {
    if j < realized {
        if inline_style_same(old[j], new[j]) {
            InlineOp::SetText(j as usize)
        } else {
            InlineOp::Replace(j as usize)
        }
    } else {
        InlineOp::Append(j as usize)
    }
}

/// How many objects remain beyond the new content.
pub open spec fn surplus(realized: int, wanted: int) -> nat {
    if realized > wanted {
        (realized - wanted) as nat
    } else {
        0
    }
}

/// The plan for a paragraph whose first `realized` positions have objects
/// showing `old`: nothing for the common prefix, one step for every later
/// position of `new`, then the removal of the surplus objects.
pub open spec fn inline_plan(old: Seq<InlineView>, new: Seq<InlineView>, realized: int) -> Seq<InlineOp> {
    let c = inline_prefix_len(old, new);
    Seq::new((new.len() - c) as nat, |k: int| inline_op_at(old, new, realized, c + k)) + Seq::new(
        surplus(realized, new.len() as int),
        |k: int| InlineOp::RemoveLast,
    )
}

/// Plans the update of a paragraph's inlines from `old` to `new`, where
/// the first `realized` positions have platform objects.
pub fn plan_inline_sync(old: &Vec<RichTextInline>, new: &Vec<RichTextInline>, realized: usize) -> (ops:
    Vec<InlineOp>)
    requires
        realized <= old@.len() || new@.len() <= old@.len(),
    ensures
        ops@ == inline_plan(inlines_view(old@), inlines_view(new@), realized as int),
{
    let ghost a = inlines_view(old@);
    let ghost b = inlines_view(new@);
    let c = common_inline_prefix(old, new);
    proof {
        lemma_inline_prefix(a, b);
    }
    let n = new.len();
    let mut ops: Vec<InlineOp> = Vec::new();
    let mut j = c;
    while j < n
        invariant
            a == inlines_view(old@),
            b == inlines_view(new@),
            realized <= old@.len() || new@.len() <= old@.len(),
            c as int == inline_prefix_len(a, b),
            c <= j <= n,
            n == new@.len(),
            ops@ =~= Seq::new((j - c) as nat, |k: int| inline_op_at(a, b, realized as int, c + k)),
        decreases n - j,
    {
        let op = if j < realized {
            if inlines_share_style(&old[j], &new[j]) {
                InlineOp::SetText(j)
            } else {
                InlineOp::Replace(j)
            }
        } else {
            InlineOp::Append(j)
        };
        assert(op == inline_op_at(a, b, realized as int, j as int));
        ops.push(op);
        j = j + 1;
    }
    let ghost head = ops@;
    let extra: usize = if realized > n {
        realized - n
    } else {
        0
    };
    let mut k: usize = 0;
    while k < extra
        invariant
            k <= extra,
            extra == surplus(realized as int, n as int),
            ops@ =~= head + Seq::new(k as nat, |q: int| InlineOp::RemoveLast),
        decreases extra - k,
    {
        ops.push(InlineOp::RemoveLast);
        k = k + 1;
    }
    ops
}

/// What is shown after one step.
pub open spec fn apply_inline_op(shown: Seq<InlineView>, op: InlineOp, new: Seq<InlineView>) -> Seq<InlineView> {
    match op {
        InlineOp::SetText(j) => shown.update(
            j as int,
            with_text(shown[j as int], inline_text(new[j as int])),
        ),
        InlineOp::Replace(j) => shown.update(j as int, new[j as int]),
        InlineOp::Append(j) => shown.push(new[j as int]),
        InlineOp::RemoveLast => shown.drop_last(),
    }
}

/// What is shown after a sequence of steps, taken in order.
pub open spec fn apply_inline_ops(shown: Seq<InlineView>, ops: Seq<InlineOp>, new: Seq<InlineView>) -> Seq<InlineView>
    decreases ops.len(),
{
    if ops.len() == 0 {
        shown
    } else {
        apply_inline_op(apply_inline_ops(shown, ops.drop_last(), new), ops.last(), new)
    }
}

/// A text change is enough exactly when the styles agree.
pub proof fn lemma_with_text(old: InlineView, new: InlineView)
    requires
        inline_style_same(old, new),
    ensures
        with_text(old, inline_text(new)) == new,
{
}

/// Shown content while the plan walks position `j`: the new content up to
/// `j`, the old one after it.
pub open spec fn shown_midway(old: Seq<InlineView>, new: Seq<InlineView>, j: int) -> Seq<InlineView> {
    new.take(j) + (if j <= old.len() {
        old.skip(j)
    } else {
        Seq::empty()
    })
}

proof fn lemma_inline_walk(old: Seq<InlineView>, new: Seq<InlineView>, k: int)
    requires
        0 <= k <= new.len() - inline_prefix_len(old, new),
        new.len() <= usize::MAX,
    ensures
        apply_inline_ops(old, inline_plan(old, new, old.len() as int).take(k), new) == shown_midway(
            old,
            new,
            inline_prefix_len(old, new) + k,
        ),
    decreases k,
{
    let c = inline_prefix_len(old, new);
    let plan = inline_plan(old, new, old.len() as int);
    lemma_inline_prefix(old, new);
    if k == 0 {
        assert(plan.take(0) =~= Seq::<InlineOp>::empty());
        assert(shown_midway(old, new, c) =~= old);
    } else {
        lemma_inline_walk(old, new, k - 1);
        let j = c + k - 1;
        assert(plan.take(k).drop_last() =~= plan.take(k - 1));
        assert(plan.take(k).last() == inline_op_at(old, new, old.len() as int, j));
        let mid = shown_midway(old, new, j);
        let op = inline_op_at(old, new, old.len() as int, j);
        assert(apply_inline_ops(old, plan.take(k), new) == apply_inline_op(mid, op, new));
        if j < old.len() {
            assert(mid[j] == old[j]);
            if inline_style_same(old[j], new[j]) {
                lemma_with_text(old[j], new[j]);
            }
            assert(mid.update(j, new[j]) =~= shown_midway(old, new, j + 1));
            assert(apply_inline_op(mid, op, new) == mid.update(j, new[j]));
        } else {
            assert(mid.push(new[j]) =~= shown_midway(old, new, j + 1));
            assert(apply_inline_op(mid, op, new) == mid.push(new[j]));
        }
    }
}

proof fn lemma_inline_trim(old: Seq<InlineView>, new: Seq<InlineView>, r: int)
    requires
        new.len() < old.len(),
        0 <= r <= old.len() - new.len(),
        inline_prefix_len(old, new) <= new.len(),
        new.len() <= usize::MAX,
    ensures
        apply_inline_ops(
            old,
            inline_plan(old, new, old.len() as int).take(
                new.len() - inline_prefix_len(old, new) + r,
            ),
            new,
        ) == new + old.subrange(new.len() as int, old.len() - r),
    decreases r,
{
    let c = inline_prefix_len(old, new);
    let plan = inline_plan(old, new, old.len() as int);
    let h = new.len() - c;
    if r == 0 {
        lemma_inline_walk(old, new, h);
        assert(shown_midway(old, new, new.len() as int) =~= new + old.subrange(
            new.len() as int,
            old.len() as int,
        ));
    } else {
        lemma_inline_trim(old, new, r - 1);
        assert(plan.take(h + r).drop_last() =~= plan.take(h + r - 1));
        assert(plan.take(h + r).last() == InlineOp::RemoveLast);
        assert((new + old.subrange(new.len() as int, old.len() - (r - 1))).drop_last() =~= new
            + old.subrange(new.len() as int, old.len() - r));
    }
}

/// Carrying out the run-level plan turns what is shown for `old` (every
/// position realized) into `new`.
pub proof fn lemma_inline_plan_reaches_new(old: Seq<InlineView>, new: Seq<InlineView>)
    requires
        new.len() <= usize::MAX,
    ensures
        apply_inline_ops(old, inline_plan(old, new, old.len() as int), new) == new,
{
    let c = inline_prefix_len(old, new);
    let plan = inline_plan(old, new, old.len() as int);
    lemma_inline_prefix(old, new);
    if new.len() < old.len() {
        lemma_inline_trim(old, new, old.len() - new.len());
        assert(plan.take(plan.len() as int) =~= plan);
        assert(old.subrange(new.len() as int, new.len() as int) =~= Seq::<InlineView>::empty());
        assert(new + Seq::<InlineView>::empty() =~= new);
    } else {
        lemma_inline_walk(old, new, new.len() - c);
        assert(plan.take(plan.len() as int) =~= plan);
        assert(shown_midway(old, new, new.len() as int) =~= new);
    }
}


// ---------------------------------------------------------------------------
// Paragraph-level plan
// ---------------------------------------------------------------------------
/// One step of updating the paragraphs of a rich text block.
#[derive(PartialEq, Debug)]
pub enum ParagraphOp {
    /// The paragraph at this position is unchanged: leave it alone.
    Keep(usize),
    /// Keep the paragraph object at this position and update its inlines.
    Resync(usize, Vec<InlineOp>),
    /// Build a paragraph for this position of the new content, fill it and
    /// append it.
    Create(usize, Vec<InlineOp>),
    /// Remove the last paragraph.
    RemoveLast,
}

pub enum ParagraphOpView {
    Keep(usize),
    Resync(usize, Seq<InlineOp>),
    Create(usize, Seq<InlineOp>),
    RemoveLast,
}

impl View for ParagraphOp {
    type V = ParagraphOpView;

    open spec fn view(&self) -> ParagraphOpView {
        match self {
            ParagraphOp::Keep(i) => ParagraphOpView::Keep(*i),
            ParagraphOp::Resync(i, ops) => ParagraphOpView::Resync(*i, ops@),
            ParagraphOp::Create(i, ops) => ParagraphOpView::Create(*i, ops@),
            ParagraphOp::RemoveLast => ParagraphOpView::RemoveLast,
        }
    }
}

pub open spec fn paragraph_ops_view(s: Seq<ParagraphOp>) -> Seq<ParagraphOpView> {
    s.map_values(|o: ParagraphOp| o@)
}

/// The inlines recorded for paragraph `i`, none past the end.
pub open spec fn recorded_inlines(old: Seq<Seq<InlineView>>, i: int) -> Seq<InlineView> {
    if 0 <= i < old.len() {
        old[i]
    } else {
        Seq::empty()
    }
}

/// The step for paragraph `i`, given the content recorded last time
/// (`old`), the number of paragraph objects that exist (`blocks`) and the
/// number of run objects in each (`runs`): a paragraph equal to the one
/// recorded is left alone; one with an object is updated run by run from
/// its recorded inlines and its existing runs; others are built from
/// nothing and appended.
pub open spec fn paragraph_op_at(
    old: Seq<Seq<InlineView>>,
    new: Seq<Seq<InlineView>>,
    blocks: int,
    runs: Seq<usize>,
    i: int,
) -> ParagraphOpView {
    if i < old.len() && paragraph_same(old[i], new[i]) {
        ParagraphOpView::Keep(i as usize)
    } else if i < blocks {
        ParagraphOpView::Resync(i as usize, inline_plan(recorded_inlines(old, i), new[i], runs[i] as int))
    } else {
        ParagraphOpView::Create(i as usize, inline_plan(Seq::empty(), new[i], 0))
    }
}

/// The recorded content and the new one are equal, paragraph by
/// paragraph.
pub open spec fn content_same(old: Seq<Seq<InlineView>>, new: Seq<Seq<InlineView>>) -> bool {
    old.len() == new.len() && paragraph_prefix_len(old, new) == old.len()
}

/// The steps after the common prefix: one for every later paragraph of
/// `new`, then the removal of the paragraph objects beyond the new content.
pub open spec fn plan_steps(
    old: Seq<Seq<InlineView>>,
    new: Seq<Seq<InlineView>>,
    blocks: int,
    runs: Seq<usize>,
) -> Seq<ParagraphOpView> {
    let c = paragraph_prefix_len(old, new);
    Seq::new((new.len() - c) as nat, |k: int| paragraph_op_at(old, new, blocks, runs, c + k))
        + Seq::new(surplus(blocks, new.len() as int), |k: int| ParagraphOpView::RemoveLast)
}

/// The plan from the recorded paragraphs `old` to `new`: nothing at all
/// when the content is unchanged, otherwise `plan_steps`.
pub open spec fn paragraph_plan(
    old: Seq<Seq<InlineView>>,
    new: Seq<Seq<InlineView>>,
    blocks: int,
    runs: Seq<usize>,
) -> Seq<ParagraphOpView> {
    if content_same(old, new) {
        Seq::empty()
    } else {
        plan_steps(old, new, blocks, runs)
    }
}

/// The plan can be carried out: every paragraph updated in place has a
/// count of runs, and its runs past the recorded inlines are never read
/// (see `plan_inline_sync`).
pub open spec fn sync_safe(old: Seq<Seq<InlineView>>, new: Seq<Seq<InlineView>>, blocks: int, runs: Seq<usize>) -> bool {
    content_same(old, new) || forall|i: int|
        #![trigger new[i]]
        paragraph_prefix_len(old, new) <= i < new.len() && i < blocks && !(i < old.len()
            && paragraph_same(old[i], new[i])) ==> i < runs.len() && (runs[i] <= recorded_inlines(
            old,
            i,
        ).len() || new[i].len() <= recorded_inlines(old, i).len())
}

/// Every recorded paragraph and run has its platform object.
pub open spec fn fully_realized(old: Seq<Seq<InlineView>>, blocks: int, runs: Seq<usize>) -> bool {
    &&& blocks == old.len()
    &&& runs.len() == old.len()
    &&& forall|i: int| 0 <= i < old.len() ==> #[trigger] runs[i] == old[i].len()
}

/// What is shown after one paragraph step.
pub open spec fn apply_paragraph_op(
    shown: Seq<Seq<InlineView>>,
    op: ParagraphOpView,
    new: Seq<Seq<InlineView>>,
) -> Seq<Seq<InlineView>> {
    match op {
        ParagraphOpView::Keep(_) => shown,
        ParagraphOpView::Resync(i, ops) => shown.update(
            i as int,
            apply_inline_ops(shown[i as int], ops, new[i as int]),
        ),
        ParagraphOpView::Create(i, ops) => shown.push(
            apply_inline_ops(Seq::empty(), ops, new[i as int]),
        ),
        ParagraphOpView::RemoveLast => shown.drop_last(),
    }
}

/// What is shown after a sequence of paragraph steps, taken in order.
pub open spec fn apply_paragraph_ops(
    shown: Seq<Seq<InlineView>>,
    ops: Seq<ParagraphOpView>,
    new: Seq<Seq<InlineView>>,
) -> Seq<Seq<InlineView>>
    decreases ops.len(),
{
    if ops.len() == 0 {
        shown
    } else {
        apply_paragraph_op(apply_paragraph_ops(shown, ops.drop_last(), new), ops.last(), new)
    }
}

/// The content a rich text block currently shows, as last committed.
pub struct RichTextState {
    pub paragraphs: Vec<RichTextParagraph>,
}

impl View for RichTextState {
    type V = Seq<Seq<InlineView>>;

    open spec fn view(&self) -> Seq<Seq<InlineView>> {
        paragraphs_view(self.paragraphs@)
    }
}

impl RichTextState {
    /// A block that shows nothing yet.
    pub fn new() -> (s: Self)
        ensures
            s@ == Seq::<Seq<InlineView>>::empty(),
    {
        let s = RichTextState { paragraphs: Vec::new() };
        assert(s@ =~= Seq::<Seq<InlineView>>::empty());
        s
    }

    /// Plans the update from the shown content to `paragraphs` and records
    /// `paragraphs` as shown.
    /// `blocks` is the number of paragraph objects the block holds and
    /// `runs` the number of run objects in each, which can fall short of
    /// the recorded content where building an object failed.
    pub fn sync(&mut self, paragraphs: &Vec<RichTextParagraph>, blocks: usize, runs: &Vec<usize>) -> (ops: Vec<ParagraphOp>)
        requires
            sync_safe(old(self)@, paragraphs_view(paragraphs@), blocks as int, runs@),
        ensures
            paragraph_ops_view(ops@) == paragraph_plan(
                old(self)@,
                paragraphs_view(paragraphs@),
                blocks as int,
                runs@,
            ),
            final(self)@ == paragraphs_view(paragraphs@),
    {
        let ghost a = self@;
        let ghost b = paragraphs_view(paragraphs@);
        let c = common_paragraph_prefix(&self.paragraphs, paragraphs);
        proof {
            lemma_paragraph_prefix(a, b);
        }
        let n = paragraphs.len();
        let m = self.paragraphs.len();
        if c == m && c == n {
            assert(content_same(a, b));
            assert(a =~= b);
            return Vec::new();
        }
        let empty: Vec<RichTextInline> = Vec::new();
        assert(inlines_view(empty@) =~= Seq::<InlineView>::empty());
        let mut ops: Vec<ParagraphOp> = Vec::new();
        let mut i = c;
        while i < n
            invariant
                a == self@,
                b == paragraphs_view(paragraphs@),
                m == self.paragraphs@.len(),
                n == paragraphs@.len(),
                c as int == paragraph_prefix_len(a, b),
                !content_same(a, b),
                sync_safe(a, b, blocks as int, runs@),
                c <= i <= n,
                inlines_view(empty@) == Seq::<InlineView>::empty(),
                paragraph_ops_view(ops@) =~= Seq::new(
                    (i - c) as nat,
                    |k: int| paragraph_op_at(a, b, blocks as int, runs@, c + k),
                ),
            decreases n - i,
        {
            let op = if i < m && paragraph_eq(&self.paragraphs[i], &paragraphs[i]) {
                ParagraphOp::Keep(i)
            } else if i < blocks {
                assert(b[i as int] == paragraphs@[i as int]@);
                let realized = runs[i];
                let plan = if i < m {
                    assert(recorded_inlines(a, i as int) == inlines_view(self.paragraphs@[i as int].inlines@));
                    plan_inline_sync(&self.paragraphs[i].inlines, &paragraphs[i].inlines, realized)
                } else {
                    assert(recorded_inlines(a, i as int) == inlines_view(empty@));
                    plan_inline_sync(&empty, &paragraphs[i].inlines, realized)
                };
                ParagraphOp::Resync(i, plan)
            } else {
                let runs = plan_inline_sync(&empty, &paragraphs[i].inlines, 0);
                ParagraphOp::Create(i, runs)
            };
            assert(op@ == paragraph_op_at(a, b, blocks as int, runs@, i as int));
            let ghost prev = ops@;
            ops.push(op);
            proof {
                assert(ops@.drop_last() =~= prev);
                assert(paragraph_ops_view(ops@) =~= paragraph_ops_view(prev).push(
                    paragraph_op_at(a, b, blocks as int, runs@, i as int),
                ));
            }
            i = i + 1;
        }
        let ghost head = paragraph_ops_view(ops@);
        let extra: usize = if blocks > n {
            blocks - n
        } else {
            0
        };
        let mut k: usize = 0;
        while k < extra
            invariant
                k <= extra,
                extra == surplus(blocks as int, n as int),
                paragraph_ops_view(ops@) =~= head + Seq::new(
                    k as nat,
                    |q: int| ParagraphOpView::RemoveLast,
                ),
            decreases extra - k,
        {
            let ghost prev = ops@;
            ops.push(ParagraphOp::RemoveLast);
            proof {
                assert(ops@.drop_last() =~= prev);
                assert(paragraph_ops_view(ops@) =~= paragraph_ops_view(prev).push(
                    ParagraphOpView::RemoveLast,
                ));
            }
            k = k + 1;
        }
        let mut snapshot: Vec<RichTextParagraph> = Vec::new();
        for q in 0..n
            invariant
                n == paragraphs@.len(),
                snapshot@.len() == q,
                forall|t: int| 0 <= t < q ==> #[trigger] snapshot@[t]@ == paragraphs@[t]@,
        {
            snapshot.push(paragraphs[q].clone());
        }
        self.paragraphs = snapshot;
        assert(self@ =~= paragraphs_view(paragraphs@));
        ops
    }
}


/// Paragraphs shown while the plan walks position `j`.
pub open spec fn paragraphs_midway(old: Seq<Seq<InlineView>>, new: Seq<Seq<InlineView>>, j: int) -> Seq<Seq<InlineView>> {
    new.take(j) + (if j <= old.len() {
        old.skip(j)
    } else {
        Seq::empty()
    })
}

/// The lengths of a content's paragraphs fit in `usize`.
pub open spec fn paragraphs_fit(new: Seq<Seq<InlineView>>) -> bool {
    &&& new.len() <= usize::MAX
    &&& forall|i: int| 0 <= i < new.len() ==> #[trigger] new[i].len() <= usize::MAX
}

proof fn lemma_paragraph_walk(
    old: Seq<Seq<InlineView>>,
    new: Seq<Seq<InlineView>>,
    blocks: int,
    runs: Seq<usize>,
    k: int,
)
    requires
        0 <= k <= new.len() - paragraph_prefix_len(old, new),
        paragraphs_fit(new),
        fully_realized(old, blocks, runs),
    ensures
        apply_paragraph_ops(old, plan_steps(old, new, blocks, runs).take(k), new) == paragraphs_midway(
            old,
            new,
            paragraph_prefix_len(old, new) + k,
        ),
    decreases k,
{
    let c = paragraph_prefix_len(old, new);
    let plan = plan_steps(old, new, blocks, runs);
    lemma_paragraph_prefix(old, new);
    if k == 0 {
        assert(plan.take(0) =~= Seq::<ParagraphOpView>::empty());
        assert(paragraphs_midway(old, new, c) =~= old);
    } else {
        lemma_paragraph_walk(old, new, blocks, runs, k - 1);
        let j = c + k - 1;
        assert(plan.take(k).drop_last() =~= plan.take(k - 1));
        assert(plan.take(k).last() == paragraph_op_at(old, new, blocks, runs, j));
        let mid = paragraphs_midway(old, new, j);
        let op = paragraph_op_at(old, new, blocks, runs, j);
        assert(apply_paragraph_ops(old, plan.take(k), new) == apply_paragraph_op(mid, op, new));
        assert(new[j].len() <= usize::MAX);
        if j < old.len() {
            assert(mid[j] == old[j]);
            if paragraph_same(old[j], new[j]) {
                assert(mid =~= paragraphs_midway(old, new, j + 1));
            } else {
                assert(runs[j] == old[j].len());
                assert(recorded_inlines(old, j) == old[j]);
                lemma_inline_plan_reaches_new(old[j], new[j]);
                assert(mid.update(j, new[j]) =~= paragraphs_midway(old, new, j + 1));
            }
        } else {
            lemma_inline_plan_reaches_new(Seq::<InlineView>::empty(), new[j]);
            assert(mid.push(new[j]) =~= paragraphs_midway(old, new, j + 1));
        }
    }
}

proof fn lemma_paragraph_trim(
    old: Seq<Seq<InlineView>>,
    new: Seq<Seq<InlineView>>,
    blocks: int,
    runs: Seq<usize>,
    r: int,
)
    requires
        new.len() < old.len(),
        0 <= r <= old.len() - new.len(),
        paragraph_prefix_len(old, new) <= new.len(),
        paragraphs_fit(new),
        fully_realized(old, blocks, runs),
    ensures
        apply_paragraph_ops(
            old,
            plan_steps(old, new, blocks, runs).take(new.len() - paragraph_prefix_len(old, new) + r),
            new,
        ) == new + old.subrange(new.len() as int, old.len() - r),
    decreases r,
{
    let c = paragraph_prefix_len(old, new);
    let plan = plan_steps(old, new, blocks, runs);
    let h = new.len() - c;
    if r == 0 {
        lemma_paragraph_walk(old, new, blocks, runs, h);
        assert(paragraphs_midway(old, new, new.len() as int) =~= new + old.subrange(
            new.len() as int,
            old.len() as int,
        ));
    } else {
        lemma_paragraph_trim(old, new, blocks, runs, r - 1);
        assert(plan.take(h + r).drop_last() =~= plan.take(h + r - 1));
        assert(plan.take(h + r).last() == ParagraphOpView::RemoveLast);
        assert((new + old.subrange(new.len() as int, old.len() - (r - 1))).drop_last() =~= new
            + old.subrange(new.len() as int, old.len() - r));
    }
}

/// Carrying out the paragraph plan, with the run-level plan inside every
/// updated or new paragraph, turns the shown content `old` into `new`,
/// when every recorded paragraph and run has its platform object.
pub proof fn lemma_paragraph_plan_reaches_new(
    old: Seq<Seq<InlineView>>,
    new: Seq<Seq<InlineView>>,
    blocks: int,
    runs: Seq<usize>,
)
    requires
        paragraphs_fit(new),
        fully_realized(old, blocks, runs),
    ensures
        apply_paragraph_ops(old, paragraph_plan(old, new, blocks, runs), new) == new,
{
    let c = paragraph_prefix_len(old, new);
    let plan = plan_steps(old, new, blocks, runs);
    lemma_paragraph_prefix(old, new);
    if content_same(old, new) {
        assert(old =~= new);
        return;
    }
    if new.len() < old.len() {
        lemma_paragraph_trim(old, new, blocks, runs, old.len() - new.len());
        assert(plan.take(plan.len() as int) =~= plan);
        assert(old.subrange(new.len() as int, new.len() as int) =~= Seq::<Seq<InlineView>>::empty());
        assert(new + Seq::<Seq<InlineView>>::empty() =~= new);
    } else {
        lemma_paragraph_walk(old, new, blocks, runs, new.len() - c);
        assert(plan.take(plan.len() as int) =~= plan);
        assert(paragraphs_midway(old, new, new.len() as int) =~= new);
    }
}

/// Unchanged content needs no step at all, as long as it equals itself
/// (it holds no NaN font size), whatever objects exist.
pub proof fn lemma_unchanged_content_plans_nothing(old: Seq<Seq<InlineView>>, blocks: int, runs: Seq<usize>)
    requires
        content_settled(old),
    ensures
        paragraph_plan(old, old, blocks, runs).len() == 0,
{
    lemma_paragraph_prefix(old, old);
    if paragraph_prefix_len(old, old) < old.len() {
        assert(paragraph_settled(old[paragraph_prefix_len(old, old)]));
    }
}

/// The plan never touches a paragraph of the unchanged prefix: every step
/// names a position at or after the common prefix.
pub proof fn lemma_plan_spares_common_prefix(
    old: Seq<Seq<InlineView>>,
    new: Seq<Seq<InlineView>>,
    blocks: int,
    runs: Seq<usize>,
    t: int,
)
    requires
        0 <= t < paragraph_plan(old, new, blocks, runs).len(),
        paragraphs_fit(new),
    ensures
        match paragraph_plan(old, new, blocks, runs)[t] {
            ParagraphOpView::Keep(i) => paragraph_prefix_len(old, new) <= i,
            ParagraphOpView::Resync(i, _) => paragraph_prefix_len(old, new) <= i,
            ParagraphOpView::Create(i, _) => paragraph_prefix_len(old, new) <= i,
            ParagraphOpView::RemoveLast => true,
        },
{
    lemma_paragraph_prefix(old, new);
    let c = paragraph_prefix_len(old, new);
    if t < new.len() - c {
        assert(c + t < new.len());
    }
}

} // verus!
