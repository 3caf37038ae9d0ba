//! Colours and styles of console output that carries ANSI escape sequences.
use vstd::prelude::*;
use crate::text::string_of;
use ansi_parser::AnsiParser;

verus! {

/// A terminal colour.
#[derive(Debug, Clone, Copy, PartialEq, Eq, Structural)]
pub enum TermColor {
    Black,
    Red,
    Green,
    Yellow,
    Blue,
    Magenta,
    Cyan,
    White,
    DarkGray,
    LightRed,
    LightGreen,
    LightYellow,
    LightBlue,
    LightMagenta,
    LightCyan,
    Indexed(u8),
    Rgb(u8, u8, u8),
}

} // verus!

verus! {

/// The colour that a Select Graphic Rendition parameter list sets, read from
/// position `i` on: the first basic or bright colour code, or a 256-colour
/// (`38;5;n`) or true-colour (`38;2;r;g;b`) code with all its values present;
/// other codes are skipped.
pub open spec fn sgr_color_from(args: Seq<u8>, i: int) -> Option<TermColor>
    decreases args.len() - i,
{
    if i < 0 || i >= args.len() {
        None
    } else {
        let a = args[i];
        if a == 30 {
            Some(TermColor::Black)
        } else if a == 31 {
            Some(TermColor::Red)
        } else if a == 32 {
            Some(TermColor::Green)
        } else if a == 33 {
            Some(TermColor::Yellow)
        } else if a == 34 {
            Some(TermColor::Blue)
        } else if a == 35 {
            Some(TermColor::Magenta)
        } else if a == 36 {
            Some(TermColor::Cyan)
        } else if a == 37 {
            Some(TermColor::White)
        } else if a == 90 {
            Some(TermColor::DarkGray)
        } else if a == 91 {
            Some(TermColor::LightRed)
        } else if a == 92 {
            Some(TermColor::LightGreen)
        } else if a == 93 {
            Some(TermColor::LightYellow)
        } else if a == 94 {
            Some(TermColor::LightBlue)
        } else if a == 95 {
            Some(TermColor::LightMagenta)
        } else if a == 96 {
            Some(TermColor::LightCyan)
        } else if a == 97 {
            Some(TermColor::White)
        } else if a == 38 && i + 2 < args.len() && args[i + 1] == 5 {
            Some(TermColor::Indexed(args[i + 2]))
        } else if a == 38 && i + 4 < args.len() && args[i + 1] == 2 {
            Some(TermColor::Rgb(args[i + 2], args[i + 3], args[i + 4]))
        } else {
            sgr_color_from(args, i + 1)
        }
    }
}

/// The colour that a Select Graphic Rendition parameter list sets, if any.
pub open spec fn sgr_color(args: Seq<u8>) -> Option<TermColor> {
    sgr_color_from(args, 0)
}

/// The colour that a Select Graphic Rendition parameter list sets, if any.
pub fn ansi_color(args: &Vec<u8>) -> (r: Option<TermColor>)
    ensures
        r == sgr_color(args@),
{
    let n = args.len();
    let mut i: usize = 0;
    while i < n
        invariant
            i <= n == args@.len(),
            sgr_color(args@) == sgr_color_from(args@, i as int),
        decreases n - i,
    {
        let a = args[i];
        if a == 30 {
            return Some(TermColor::Black);
        } else if a == 31 {
            return Some(TermColor::Red);
        } else if a == 32 {
            return Some(TermColor::Green);
        } else if a == 33 {
            return Some(TermColor::Yellow);
        } else if a == 34 {
            return Some(TermColor::Blue);
        } else if a == 35 {
            return Some(TermColor::Magenta);
        } else if a == 36 {
            return Some(TermColor::Cyan);
        } else if a == 37 {
            return Some(TermColor::White);
        } else if a == 90 {
            return Some(TermColor::DarkGray);
        } else if a == 91 {
            return Some(TermColor::LightRed);
        } else if a == 92 {
            return Some(TermColor::LightGreen);
        } else if a == 93 {
            return Some(TermColor::LightYellow);
        } else if a == 94 {
            return Some(TermColor::LightBlue);
        } else if a == 95 {
            return Some(TermColor::LightMagenta);
        } else if a == 96 {
            return Some(TermColor::LightCyan);
        } else if a == 97 {
            return Some(TermColor::White);
        } else if a == 38 && n - i > 2 && args[i + 1] == 5 {
            return Some(TermColor::Indexed(args[i + 2]));
        } else if a == 38 && n - i > 4 && args[i + 1] == 2 {
            return Some(TermColor::Rgb(args[i + 2], args[i + 3], args[i + 4]));
        }
        i = i + 1;
    }
    None
}

/// Law: the colour codes of Select Graphic Rendition. A list that starts with
/// 30 to 37 sets black, red, green, yellow, blue, magenta, cyan or white; 90 to
/// 97 the bright forms (dark grey, light red, light green, light yellow, light
/// blue, light magenta, light cyan, white); `38;5;n` colour n of the 256-colour
/// table; `38;2;r;g;b` that true colour. A list that starts with any other code
/// sets what the rest of the list sets.
pub proof fn law_sgr_colors(args: Seq<u8>)
    requires
        args.len() > 0,
    ensures
        args[0] == 30 ==> sgr_color(args) == Some(TermColor::Black),
        args[0] == 31 ==> sgr_color(args) == Some(TermColor::Red),
        args[0] == 32 ==> sgr_color(args) == Some(TermColor::Green),
        args[0] == 33 ==> sgr_color(args) == Some(TermColor::Yellow),
        args[0] == 34 ==> sgr_color(args) == Some(TermColor::Blue),
        args[0] == 35 ==> sgr_color(args) == Some(TermColor::Magenta),
        args[0] == 36 ==> sgr_color(args) == Some(TermColor::Cyan),
        args[0] == 37 ==> sgr_color(args) == Some(TermColor::White),
        args[0] == 90 ==> sgr_color(args) == Some(TermColor::DarkGray),
        args[0] == 91 ==> sgr_color(args) == Some(TermColor::LightRed),
        args[0] == 92 ==> sgr_color(args) == Some(TermColor::LightGreen),
        args[0] == 93 ==> sgr_color(args) == Some(TermColor::LightYellow),
        args[0] == 94 ==> sgr_color(args) == Some(TermColor::LightBlue),
        args[0] == 95 ==> sgr_color(args) == Some(TermColor::LightMagenta),
        args[0] == 96 ==> sgr_color(args) == Some(TermColor::LightCyan),
        args[0] == 97 ==> sgr_color(args) == Some(TermColor::White),
        args[0] == 38 && args.len() >= 3 && args[1] == 5 ==> sgr_color(args) == Some(
            TermColor::Indexed(args[2]),
        ),
        args[0] == 38 && args.len() >= 5 && args[1] == 2 ==> sgr_color(args) == Some(
            TermColor::Rgb(args[2], args[3], args[4]),
        ),
        !(30 <= args[0] <= 37) && !(90 <= args[0] <= 97) && args[0] != 38 ==> sgr_color(args)
            == sgr_color(args.drop_first()),
{
    if !(30 <= args[0] <= 37) && !(90 <= args[0] <= 97) && args[0] != 38 {
        lemma_sgr_color_shift(args, 1);
    }
}

/// Reading a list from position `i` on is reading the list without its first
/// `i` codes.
proof fn lemma_sgr_color_shift(args: Seq<u8>, i: int)
    requires
        0 <= i <= args.len(),
    ensures
        sgr_color_from(args, i) == sgr_color_from(args.skip(i), 0),
    decreases args.len() - i,
{
    if i < args.len() {
        lemma_sgr_color_shift(args, i + 1);
        lemma_sgr_color_shift(args.skip(i), 1);
        assert(args.skip(i).skip(1) =~= args.skip(i + 1));
    }
}

/// The style in force while reading console output: a foreground colour and
/// whether the text is bold.
#[derive(Debug, Clone, Copy, PartialEq, Eq, Structural)]
pub struct TextStyle {
    pub fg: Option<TermColor>,
    pub bold: bool,
}

/// The style after the parameters of a Select Graphic Rendition sequence from
/// position `i` on: 0 resets, 1 sets bold, 22 clears it, a basic or bright
/// colour code sets the colour of the whole list, 38 does too and ends the
/// list, 39 clears the colour; other codes change nothing.
pub open spec fn apply_sgr_from(args: Seq<u8>, i: int, st: TextStyle) -> TextStyle
    decreases args.len() - i,
{
    if i < 0 || i >= args.len() {
        st
    } else {
        let a = args[i];
        if a == 38 {
            TextStyle { fg: sgr_color(args), ..st }
        } else {
            let next = if a == 0 {
                TextStyle { fg: None, bold: false }
            } else if a == 1 {
                TextStyle { bold: true, ..st }
            } else if a == 22 {
                TextStyle { bold: false, ..st }
            } else if (30 <= a && a <= 37) || (90 <= a && a <= 97) {
                TextStyle { fg: sgr_color(args), ..st }
            } else if a == 39 {
                TextStyle { fg: None, ..st }
            } else {
                st
            };
            apply_sgr_from(args, i + 1, next)
        }
    }
}

/// The style after a whole Select Graphic Rendition sequence.
pub open spec fn apply_sgr(args: Seq<u8>, st: TextStyle) -> TextStyle {
    apply_sgr_from(args, 0, st)
}

fn apply_graphics(args: &Vec<u8>, st: TextStyle) -> (r: TextStyle)
    ensures
        r == apply_sgr(args@, st),
{
    let n = args.len();
    let mut cur = st;
    let mut i: usize = 0;
    while i < n
        invariant
            i <= n == args@.len(),
            apply_sgr(args@, st) == apply_sgr_from(args@, i as int, cur),
        decreases n - i,
    {
        let a = args[i];
        if a == 38 {
            return TextStyle { fg: ansi_color(args), bold: cur.bold };
        }
        if a == 0 {
            cur = TextStyle { fg: None, bold: false };
        } else if a == 1 {
            cur = TextStyle { fg: cur.fg, bold: true };
        } else if a == 22 {
            cur = TextStyle { fg: cur.fg, bold: false };
        } else if (30 <= a && a <= 37) || (90 <= a && a <= 97) {
            cur = TextStyle { fg: ansi_color(args), bold: cur.bold };
        } else if a == 39 {
            cur = TextStyle { fg: None, bold: cur.bold };
        }
        i = i + 1;
    }
    cur
}

/// Law: the style codes of Select Graphic Rendition, one at a time: 0 resets to
/// the plain style, 1 turns bold on and 22 off (keeping the colour), 39 clears
/// the colour (keeping bold), and a colour code sets the colour it names
/// (keeping bold).
pub proof fn law_sgr_styles(code: u8, st: TextStyle)
    ensures
        code == 0 ==> apply_sgr(seq![code], st) == plain(),
        code == 1 ==> (apply_sgr(seq![code], st).fg == st.fg && apply_sgr(seq![code], st).bold),
        code == 22 ==> (apply_sgr(seq![code], st).fg == st.fg && !apply_sgr(
            seq![code],
            st,
        ).bold),
        code == 39 ==> (apply_sgr(seq![code], st).fg is None && apply_sgr(seq![code], st).bold
            == st.bold),
        (30 <= code <= 37 || 90 <= code <= 97) ==> (apply_sgr(seq![code], st).fg == sgr_color(
            seq![code],
        ) && apply_sgr(seq![code], st).bold == st.bold),
        (30 <= code <= 37 || 90 <= code <= 97) ==> sgr_color(seq![code]) is Some,
{
    reveal_with_fuel(apply_sgr_from, 2);
}

/// A piece of a line of console output, as the ANSI parser splits it.
#[derive(Debug, Clone)]
pub enum AnsiSegment {
    /// Plain text.
    Text(String),
    /// A Select Graphic Rendition sequence, with its parameters.
    Graphics(Vec<u8>),
    /// Any other escape sequence.
    Other,
}

/// The content of a piece of console output.
pub enum SegmentView {
    Text(Seq<char>),
    Graphics(Seq<u8>),
    Other,
}

/// The contents of a sequence of pieces.
pub open spec fn segment_views(v: Seq<AnsiSegment>) -> Seq<SegmentView> {
    Seq::new(
        v.len(),
        |i: int|
            match v[i] {
                AnsiSegment::Text(t) => SegmentView::Text(t@),
                AnsiSegment::Graphics(a) => SegmentView::Graphics(a@),
                AnsiSegment::Other => SegmentView::Other,
            },
    )
}

/// How the ANSI parser splits a line into text and escape sequences.
pub uninterp spec fn ansi_split(line: Seq<char>) -> Seq<SegmentView>;

/// Whether `s` holds the escape character.
pub open spec fn has_escape(s: Seq<char>) -> bool {
    exists|i: int| 0 <= i < s.len() && s[i] == '\u{1b}'
}

/// `ansi_parser::AnsiParser::ansi_parse` on a line, each piece converted to a
/// segment. The result is named; what is stated of it is what the parser's
/// source shows: a line without escape character is one text piece (none when
/// empty), text pieces are never empty, and graphics sequences have at most
/// five parameters.
#[verifier::external_body]
pub fn ansi_segments(line: &str) -> (r: Vec<AnsiSegment>)
    ensures
        segment_views(r@) == ansi_split(line@),
        !has_escape(line@) ==> (if line@.len() == 0 {
            r@.len() == 0
        } else {
            segment_views(r@) == seq![SegmentView::Text(line@)]
        }),
        forall|i: int|
            0 <= i < r@.len() ==> match #[trigger] segment_views(r@)[i] {
                SegmentView::Text(t) => t.len() > 0,
                SegmentView::Graphics(a) => a.len() <= 5,
                SegmentView::Other => true,
            },
{
    line.ansi_parse().map(|o| match o {
        ansi_parser::Output::TextBlock(t) => AnsiSegment::Text(t.to_string()),
        ansi_parser::Output::Escape(ansi_parser::AnsiSequence::SetGraphicsMode(a)) => {
            AnsiSegment::Graphics(a.to_vec())
        },
        ansi_parser::Output::Escape(_) => AnsiSegment::Other,
    }).collect()
}

/// A run of console text with one style.
#[derive(Debug, Clone)]
pub struct StyledSpan {
    pub text: String,
    pub style: TextStyle,
}

/// The content of a styled run.
pub struct SpanView {
    pub text: Seq<char>,
    pub style: TextStyle,
}

/// The contents of a sequence of styled runs.
pub open spec fn span_views(v: Seq<StyledSpan>) -> Seq<SpanView> {
    Seq::new(v.len(), |i: int| SpanView { text: v[i].text@, style: v[i].style })
}

/// The plain style.
pub open spec fn plain() -> TextStyle {
    TextStyle { fg: None, bold: false }
}

/// The styled runs that pieces of console output give, with the style in
/// force after them: each text piece is a run in the style in force, graphics
/// sequences change the style, other sequences are dropped.
pub open spec fn style_segments(segs: Seq<SegmentView>) -> (Seq<SpanView>, TextStyle)
    decreases segs.len(),
{
    if segs.len() == 0 {
        (seq![], plain())
    } else {
        let (spans, st) = style_segments(segs.drop_last());
        match segs.last() {
            SegmentView::Text(t) => (spans.push(SpanView { text: t, style: st }), st),
            SegmentView::Graphics(a) => (spans, apply_sgr(a, st)),
            SegmentView::Other => (spans, st),
        }
    }
}

/// The styled runs of a line of console output: those of its pieces, or the
/// whole line unstyled when the pieces give no text.
pub open spec fn styled_line_of(line: Seq<char>, segs: Seq<SegmentView>) -> Seq<SpanView> {
    let spans = style_segments(segs).0;
    if spans.len() == 0 {
        seq![SpanView { text: line, style: plain() }]
    } else {
        spans
    }
}

/// The styled runs that the pieces of `line` give.
pub fn style_line(line: &str, segs: &Vec<AnsiSegment>) -> (r: Vec<StyledSpan>)
    ensures
        span_views(r@) == styled_line_of(line@, segment_views(segs@)),
{
    let mut spans: Vec<StyledSpan> = Vec::new();
    let mut st = TextStyle { fg: None, bold: false };
    for i in 0..segs.len()
        invariant
            style_segments(segment_views(segs@).take(i as int)) == (span_views(spans@), st),
    {
        let ghost sv = segment_views(segs@);
        assert(sv.take(i + 1).drop_last() =~= sv.take(i as int));
        assert(sv.take(i + 1).last() == sv[i as int]);
        match &segs[i] {
            AnsiSegment::Text(t) => {
                let ghost before = span_views(spans@);
                spans.push(StyledSpan { text: t.clone(), style: st });
                assert(span_views(spans@) =~= before.push(SpanView { text: t@, style: st }));
            },
            AnsiSegment::Graphics(a) => {
                st = apply_graphics(a, st);
            },
            AnsiSegment::Other => {},
        }
    }
    assert(segment_views(segs@).take(segs@.len() as int) =~= segment_views(segs@));
    if spans.len() == 0 {
        let mut r: Vec<StyledSpan> = Vec::new();
        r.push(StyledSpan { text: string_of(line), style: TextStyle { fg: None, bold: false } });
        assert(span_views(r@) =~= seq![SpanView { text: line@, style: plain() }]);
        r
    } else {
        spans
    }
}

/// The styled runs of a line of console output that carries ANSI escape
/// sequences.
pub fn parse_ansi_line(line: &str) -> (r: Vec<StyledSpan>)
    ensures
        span_views(r@) == styled_line_of(line@, ansi_split(line@)),
        !has_escape(line@) ==> span_views(r@) == seq![SpanView { text: line@, style: plain() }],
{
    let segs = ansi_segments(line);
    let r = style_line(line, &segs);
    proof {
        if !has_escape(line@) {
            let sv = segment_views(segs@);
            if line@.len() > 0 {
                assert(sv.drop_last() =~= Seq::<SegmentView>::empty());
                assert(style_segments(sv.drop_last()) == (Seq::<SpanView>::empty(), plain()));
                assert(sv.last() == SegmentView::Text(line@));
                assert(style_segments(sv).0 =~= seq![SpanView { text: line@, style: plain() }]);
            } else {
                assert(sv =~= Seq::<SegmentView>::empty());
            }
        }
    }
    r
}

} // verus!
