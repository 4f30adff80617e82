//! What the screen shows, computed as plain text and plain rectangles: tab
//! titles, list lines, the status line, the detail popup's text and place.
//! Turning these into widgets and drawing them is left to the caller.

use ratatui::layout::{Constraint, Direction, Layout, Rect};
use vstd::prelude::*;
use vstd::utf8::*;

use crate::app::Tab;
use crate::catalog::{
    category_at, category_spec, kind_at, kind_spec, Entry, EntryView, NewsItem, NewsItemView, CATEGORY_COUNT,
    KIND_COUNT,
};
use crate::text::{byte_prefix, char_chunks, chunk_chars, join, owned, seq_join};

verus! {

/// The position of a tab in the tab bar.
pub fn tab_index(tab: Tab) -> (r: usize)
    ensures
        r == (match tab {
            Tab::Search => 0usize,
            Tab::News => 1usize,
            Tab::Browse => 2usize,
        }),
{
    match tab {
        Tab::Search => 0,
        Tab::News => 1,
        Tab::Browse => 2,
    }
}

/// The mark appended to a title while its list is loading.
pub open spec fn loading_mark(loading: bool) -> Seq<char> {
    if loading {
        " \u{27f3}"@
    } else {
        ""@
    }
}

fn loading_mark_text(loading: bool) -> (r: &'static str)
    ensures
        r@ == loading_mark(loading),
{
    if loading {
        " \u{27f3}"
    } else {
        ""
    }
}

/// The title of the search box: it says which search the user gets.
pub open spec fn search_title_spec(signed_in: bool, loading: bool) -> Seq<char> {
    " Search"@ + (if signed_in {
        " (semantic)"@
    } else {
        " (text \u{b7} run `un login` for semantic)"@
    }) + loading_mark(loading) + " "@
}

/// The title of the search box (see [`search_title_spec`]).
pub fn search_title(signed_in: bool, loading: bool) -> (r: String)
    ensures
        r@ == search_title_spec(signed_in, loading),
{
    let mut r = owned(" Search");
    if signed_in {
        r.append(" (semantic)");
    } else {
        r.append(" (text \u{b7} run `un login` for semantic)");
    }
    r.append(loading_mark_text(loading));
    r.append(" ");
    r
}

/// The title of the news list.
pub fn news_title(loading: bool) -> (r: String)
    ensures
        r@ == " News (last 7 days)"@ + loading_mark(loading) + " "@,
{
    let mut r = owned(" News (last 7 days)");
    r.append(loading_mark_text(loading));
    r.append(" ");
    r
}

/// The line of the browse controls: the current kind and category and how to change them.
pub open spec fn browse_controls_spec(kind_idx: int, cat_idx: int, loading: bool) -> Seq<char> {
    " Kind: "@ + kind_spec(kind_idx).1 + " (\u{2190} \u{2192})   Category: "@ + category_spec(cat_idx).1
        + " ([ ])"@ + loading_mark(loading) + " "@
}

/// The line of the browse controls (see [`browse_controls_spec`]).
pub fn browse_controls(kind_idx: usize, cat_idx: usize, loading: bool) -> (r: String)
    requires
        kind_idx < KIND_COUNT,
        cat_idx < CATEGORY_COUNT,
    ensures
        r@ == browse_controls_spec(kind_idx as int, cat_idx as int, loading),
{
    let (_k, kind_label) = kind_at(kind_idx);
    let (_c, cat_label) = category_at(cat_idx);
    let mut r = owned(" Kind: ");
    r.append(kind_label);
    r.append(" (\u{2190} \u{2192})   Category: ");
    r.append(cat_label);
    r.append(" ([ ])");
    r.append(loading_mark_text(loading));
    r.append(" ");
    r
}

/// The pricing shown for an entry: its pricing, or a dash when it has none.
pub fn pricing_label(e: &Entry) -> (r: String)
    ensures
        r@ == match e.pricing {
            Some(p) => p@,
            None => "\u{2014}"@,
        },
{
    match &e.pricing {
        Some(p) => p.clone(),
        None => owned("\u{2014}"),
    }
}

/// The category shown beside an entry in a list: its first one, or nothing.
pub fn first_category(e: &Entry) -> (r: String)
    ensures
        r@ == if e.categories@.len() > 0 {
            e.categories@[0]@
        } else {
            Seq::<char>::empty()
        },
{
    if e.categories.len() > 0 {
        e.categories[0].clone()
    } else {
        String::new()
    }
}

/// The date of a news item: the first ten bytes of its timestamp when they
/// end on a character boundary, and nothing otherwise.
pub fn news_date(posted_at: &str) -> (r: String)
    ensures
        (10 <= encode_utf8(posted_at@).len() && is_char_boundary(encode_utf8(posted_at@), 10))
            ==> encode_utf8(r@) == encode_utf8(posted_at@).subrange(0, 10),
        !(10 <= encode_utf8(posted_at@).len() && is_char_boundary(encode_utf8(posted_at@), 10))
            ==> r@ == Seq::<char>::empty(),
{
    match byte_prefix(posted_at, 10) {
        Some(d) => d,
        None => String::new(),
    }
}

/// The topics of a news item, separated by commas.
pub fn topics_line(topics: &Vec<String>) -> (r: String)
    ensures
        r@ == seq_join(topics.deep_view(), ", "@),
{
    join(topics, ", ")
}

/// The help shown in the status line when there is no message.
pub open spec fn default_help() -> Seq<char> {
    "Tab/1-3 switch \u{b7} \u{2191}\u{2193}/jk navigate \u{b7} Enter open \u{b7} o open URL \u{b7} q quit"@
}

/// The message of the status line: the current message, or the help.
pub fn status_message(status: &Option<String>) -> (r: String)
    ensures
        r@ == match status {
            Some(s) => s@,
            None => default_help(),
        },
{
    match status {
        Some(s) => s.clone(),
        None => owned(
            "Tab/1-3 switch \u{b7} \u{2191}\u{2193}/jk navigate \u{b7} Enter open \u{b7} o open URL \u{b7} q quit",
        ),
    }
}

/// The sign-in mark of the status line.
pub fn auth_status(signed_in: bool) -> (r: String)
    ensures
        r@ == if signed_in {
            "\u{25cf} authed"@
        } else {
            "\u{25cb} not logged in \u{b7} run `un login`"@
        },
{
    if signed_in {
        owned("\u{25cf} authed")
    } else {
        owned("\u{25cb} not logged in \u{b7} run `un login`")
    }
}

/// The lines of an entry's description in a popup `width` columns wide:
/// pieces of six columns less than the popup is wide. A popup of six columns
/// or fewer leaves no room for a piece, so the popup must be wider than six
/// columns; callers check this first.
pub fn description_lines(desc: &str, width: u16) -> (r: Vec<String>)
    requires
        width > 6,
    ensures
        r.deep_view() == char_chunks(desc@, (width - 6) as nat),
{
    chunk_chars(desc, (width - 6) as usize)
}

/// A rectangle of the screen: its top-left corner, width and height.
#[derive(Clone, Copy, Debug, PartialEq, Eq, Structural)]
pub struct Area {
    pub x: u16,
    pub y: u16,
    pub width: u16,
    pub height: u16,
}

/// The right edge of an area (ratatui's `Rect::right`, which saturates).
pub open spec fn right_edge(a: Area) -> int {
    if a.x + a.width > u16::MAX {
        u16::MAX as int
    } else {
        a.x + a.width
    }
}

/// The bottom edge of an area (ratatui's `Rect::bottom`, which saturates).
pub open spec fn bottom_edge(a: Area) -> int {
    if a.y + a.height > u16::MAX {
        u16::MAX as int
    } else {
        a.y + a.height
    }
}

/// `part` lies within `area`.
pub open spec fn lies_within(part: Area, area: Area) -> bool {
    &&& area.x <= part.x
    &&& part.x + part.width <= right_edge(area)
    &&& area.y <= part.y
    &&& part.y + part.height <= bottom_edge(area)
}

/// The rectangle that ratatui's `Rect::new` makes of `a`: the width and
/// height cut so that the right and bottom edges stay within `u16`.
pub open spec fn clamped(a: Area) -> Area {
    Area {
        x: a.x,
        y: a.y,
        width: if a.x + a.width > u16::MAX { (u16::MAX - a.x) as u16 } else { a.width },
        height: if a.y + a.height > u16::MAX { (u16::MAX - a.y) as u16 } else { a.height },
    }
}

/// The offset, in cells, of an edge lying `percent` percent of the way along
/// a length of `size` cells, rounded to the nearest cell, halves up.
pub open spec fn round_share(size: int, percent: int) -> int {
    (size * percent + 50) / 100
}

/// Three rows of `c` of `p0`, `p1` and `p2` percent of its height, one below
/// the other from its top, each edge rounded to the nearest cell.
pub open spec fn rows_spec(c: Area, p0: int, p1: int, p2: int) -> (Area, Area, Area) {
    let e0 = round_share(c.height as int, p0);
    let e1 = round_share(c.height as int, p0 + p1);
    let e2 = round_share(c.height as int, p0 + p1 + p2);
    (
        Area { x: c.x, y: c.y, width: c.width, height: e0 as u16 },
        Area { x: c.x, y: (c.y + e0) as u16, width: c.width, height: (e1 - e0) as u16 },
        Area { x: c.x, y: (c.y + e1) as u16, width: c.width, height: (e2 - e1) as u16 },
    )
}

/// Three columns of `c` of `p0`, `p1` and `p2` percent of its width, side by
/// side from its left edge, each edge rounded to the nearest cell.
pub open spec fn columns_spec(c: Area, p0: int, p1: int, p2: int) -> (Area, Area, Area) {
    let e0 = round_share(c.width as int, p0);
    let e1 = round_share(c.width as int, p0 + p1);
    let e2 = round_share(c.width as int, p0 + p1 + p2);
    (
        Area { x: c.x, y: c.y, width: e0 as u16, height: c.height },
        Area { x: (c.x + e0) as u16, y: c.y, width: (e1 - e0) as u16, height: c.height },
        Area { x: (c.x + e1) as u16, y: c.y, width: (e2 - e1) as u16, height: c.height },
    )
}

/// Splits `area` into three rows of `p0`, `p1` and `p2` percent: ratatui's
/// `Layout::areas` on a vertical layout of three `Constraint::Percentage`
/// (the default `Flex::Start`, no margin, no spacing), on the rectangle that
/// `Rect::new` makes of `area` (see [`clamped`]).
///
/// In ratatui's source the solver's required constraints keep every edge in
/// the area and every part's start before its end. Of the soft ones, those
/// that keep the parts without gaps (the first spacer empty, the inner ones
/// of size zero) weigh at least a hundred times more than a percentage, and
/// those that pull the other way (the last spacer growing, the parts equal in
/// size) at least ten thousand times less. So when the percentages add up to
/// at most 100, the one best solution meets every percentage exactly with the
/// parts stacked from the top, and the excess is left after the last part.
/// The edges are then rounded to the nearest cell, halves up.
#[verifier::external_body]
fn split_rows(area: Area, p0: u16, p1: u16, p2: u16) -> (r: (Area, Area, Area))
    requires
        p0 + p1 + p2 <= 100,
    ensures
        r == rows_spec(clamped(area), p0 as int, p1 as int, p2 as int),
{
    let cs = [Constraint::Percentage(p0), Constraint::Percentage(p1), Constraint::Percentage(p2)];
    let [a, b, c]: [Rect; 3] = Layout::default().direction(Direction::Vertical).constraints(cs).areas(
        Rect::new(area.x, area.y, area.width, area.height),
    );
    (
        Area { x: a.x, y: a.y, width: a.width, height: a.height },
        Area { x: b.x, y: b.y, width: b.width, height: b.height },
        Area { x: c.x, y: c.y, width: c.width, height: c.height },
    )
}

/// Splits `area` into three columns of `p0`, `p1` and `p2` percent: ratatui's
/// `Layout::areas` on a horizontal layout of three `Constraint::Percentage`,
/// on the rectangle that `Rect::new` makes of `area`. The reading of
/// ratatui's source given at [`split_rows`] holds here too, with left and
/// right in place of top and bottom.
#[verifier::external_body]
fn split_columns(area: Area, p0: u16, p1: u16, p2: u16) -> (r: (Area, Area, Area))
    requires
        p0 + p1 + p2 <= 100,
    ensures
        r == columns_spec(clamped(area), p0 as int, p1 as int, p2 as int),
{
    let cs = [Constraint::Percentage(p0), Constraint::Percentage(p1), Constraint::Percentage(p2)];
    let [a, b, c]: [Rect; 3] = Layout::default().direction(Direction::Horizontal).constraints(cs).areas(
        Rect::new(area.x, area.y, area.width, area.height),
    );
    (
        Area { x: a.x, y: a.y, width: a.width, height: a.height },
        Area { x: b.x, y: b.y, width: b.width, height: b.height },
        Area { x: c.x, y: c.y, width: c.width, height: c.height },
    )
}

/// The percentage left on each side of a centred part of `percent` percent.
pub fn side_margin(percent: u16) -> (r: u16)
    requires
        percent <= 100,
    ensures
        r == (100 - percent) / 2,
{
    (100 - percent) / 2
}

/// The popup of `percent_x` by `percent_y` percent centred in `r`: in the
/// rectangle `c` that `Rect::new` makes of `r`, the rows of the margin,
/// `percent_y` and the margin again (each margin [`side_margin`]), and in the
/// middle row the columns of the margin, `percent_x` and the margin; the
/// popup is the middle column. Its edges are those percentages of `c`'s
/// size, rounded to the nearest cell.
pub open spec fn centered_spec(percent_x: int, percent_y: int, r: Area) -> Area {
    let c = clamped(r);
    let mx = (100 - percent_x) / 2;
    let my = (100 - percent_y) / 2;
    let left = round_share(c.width as int, mx);
    let right = round_share(c.width as int, mx + percent_x);
    let top = round_share(c.height as int, my);
    let bottom = round_share(c.height as int, my + percent_y);
    Area {
        x: (c.x + left) as u16,
        y: (c.y + top) as u16,
        width: (right - left) as u16,
        height: (bottom - top) as u16,
    }
}

proof fn lemma_round_share_ordered(size: int, p: int, q: int)
    requires
        0 <= size,
        0 <= p <= q <= 100,
    ensures
        0 <= round_share(size, p) <= round_share(size, q) <= size,
{
    assert(size * p <= size * q) by (nonlinear_arith)
        requires
            0 <= size,
            p <= q,
    ;
    assert(size * q <= size * 100) by (nonlinear_arith)
        requires
            0 <= size,
            q <= 100,
    ;
    assert(0 <= size * p) by (nonlinear_arith)
        requires
            0 <= size,
            0 <= p,
    ;
    assert((size * p + 50) / 100 <= (size * q + 50) / 100) by (nonlinear_arith)
        requires
            size * p <= size * q,
    ;
    assert((size * q + 50) / 100 <= (size * 100 + 50) / 100) by (nonlinear_arith)
        requires
            size * q <= size * 100,
    ;
    assert((size * 100 + 50) / 100 == size) by (nonlinear_arith);
    assert(0 <= (size * p + 50) / 100) by (nonlinear_arith)
        requires
            0 <= size * p,
    ;
}

/// The rectangle where the detail popup is drawn (see [`centered_spec`]);
/// it always lies within `r`.
pub fn centered_rect(percent_x: u16, percent_y: u16, r: Area) -> (a: Area)
    requires
        percent_x <= 100,
        percent_y <= 100,
    ensures
        a == centered_spec(percent_x as int, percent_y as int, r),
        lies_within(a, r),
{
    let my = side_margin(percent_y);
    let mx = side_margin(percent_x);
    let (_top, middle, _bottom) = split_rows(r, my, percent_y, my);
    let (_left, center, _right) = split_columns(middle, mx, percent_x, mx);
    proof {
        let c = clamped(r);
        lemma_round_share_ordered(c.height as int, my as int, (my + percent_y) as int);
        lemma_round_share_ordered(c.width as int, mx as int, (mx + percent_x) as int);
        assert(clamped(middle) == middle);
    }
    center
}

/// How a piece of text of the detail popup is shown.
#[derive(Clone, Copy, Debug, PartialEq, Eq, Structural)]
pub enum TextStyle {
    /// Yellow and bold: the name or title.
    Heading,
    /// White: the tagline.
    Tagline,
    /// Unstyled.
    Plain,
    /// Bold: the label before a value.
    Label,
    /// Cyan: an install snippet, a source's name, topics.
    Accent,
    /// Green: the pricing.
    Price,
    /// Blue: an address.
    Link,
    /// Dark gray: a date.
    Muted,
}

/// A piece of a line of the detail popup: its text and how it is shown.
#[derive(Debug)]
pub struct StyledText {
    pub text: String,
    pub style: TextStyle,
}

/// The mathematical value of a [`StyledText`].
pub struct StyledTextView {
    pub text: Seq<char>,
    pub style: TextStyle,
}

impl View for StyledText {
    type V = StyledTextView;

    open spec fn view(&self) -> StyledTextView {
        StyledTextView { text: self.text@, style: self.style }
    }
}

impl DeepView for StyledText {
    type V = StyledTextView;

    open spec fn deep_view(&self) -> StyledTextView {
        self@
    }
}

/// A line made of one piece.
pub open spec fn one_piece(text: Seq<char>, style: TextStyle) -> Seq<StyledTextView> {
    seq![StyledTextView { text, style }]
}

/// A line made of a bold label and a styled value.
pub open spec fn labelled(label: Seq<char>, value: Seq<char>, style: TextStyle) -> Seq<StyledTextView> {
    seq![StyledTextView { text: label, style: TextStyle::Label }, StyledTextView { text: value, style }]
}

/// An empty line.
pub open spec fn blank_line() -> Seq<StyledTextView> {
    one_piece(Seq::empty(), TextStyle::Plain)
}

/// The lines of a description cut into pieces of `n` characters.
pub open spec fn text_lines(chunks: Seq<Seq<char>>) -> Seq<Seq<StyledTextView>> {
    chunks.map_values(|c: Seq<char>| one_piece(c, TextStyle::Plain))
}

/// The lines of the detail popup for an entry, in a popup `width` columns
/// wide: name, tagline, a blank line; the description cut to six columns less
/// than the popup is wide, then a blank line, when there is one; the install
/// snippet under its label, then a blank line, when there is one; the pricing
/// (a dash when none is known); the homepage.
pub open spec fn entry_detail_spec(e: EntryView, width: nat) -> Seq<Seq<StyledTextView>> {
    seq![one_piece(e.name, TextStyle::Heading), one_piece(e.tagline, TextStyle::Tagline), blank_line()]
        + match e.description {
        Some(d) => text_lines(char_chunks(d, (width - 6) as nat)).push(blank_line()),
        None => seq![],
    } + match e.install_snippet {
        Some(snippet) => seq![
            one_piece("Install:"@, TextStyle::Label),
            one_piece(snippet, TextStyle::Accent),
            blank_line(),
        ],
        None => seq![],
    } + seq![
        labelled(
            "Pricing: "@,
            match e.pricing {
                Some(p) => p,
                None => "\u{2014}"@,
            },
            TextStyle::Price,
        ),
        labelled("URL: "@, e.homepage_url, TextStyle::Link),
    ]
}

fn piece(text: String, style: TextStyle) -> (r: StyledText)
    ensures
        r@ == (StyledTextView { text: text@, style }),
{
    StyledText { text, style }
}

fn one_piece_line(text: String, style: TextStyle) -> (r: Vec<StyledText>)
    ensures
        r.deep_view() == one_piece(text@, style),
{
    let mut line = Vec::new();
    line.push(piece(text, style));
    assert(line.deep_view() =~= one_piece(text@, style));
    line
}

fn labelled_line(label: &str, value: String, style: TextStyle) -> (r: Vec<StyledText>)
    ensures
        r.deep_view() == labelled(label@, value@, style),
{
    let mut line = Vec::new();
    line.push(piece(owned(label), TextStyle::Label));
    line.push(piece(value, style));
    assert(line.deep_view() =~= labelled(label@, value@, style));
    line
}

fn blank() -> (r: Vec<StyledText>)
    ensures
        r.deep_view() == blank_line(),
{
    let empty = String::new();
    assert(empty@ =~= Seq::<char>::empty());
    one_piece_line(empty, TextStyle::Plain)
}

/// The lines of the detail popup for entry `e` in a popup `width` columns
/// wide (see [`entry_detail_spec`]). The description is cut to six columns
/// less than the popup is wide, so a popup with a description must be wider
/// than six columns.
pub fn entry_detail_lines(e: &Entry, width: u16) -> (r: Vec<Vec<StyledText>>)
    requires
        e.description is Some ==> width > 6,
    ensures
        r.deep_view() == entry_detail_spec(e@, width as nat),
{
    let mut lines: Vec<Vec<StyledText>> = Vec::new();
    lines.push(one_piece_line(e.name.clone(), TextStyle::Heading));
    lines.push(one_piece_line(e.tagline.clone(), TextStyle::Tagline));
    lines.push(blank());
    let ghost head = lines.deep_view();
    assert(head =~= seq![one_piece(e@.name, TextStyle::Heading), one_piece(e@.tagline, TextStyle::Tagline), blank_line()]);
    let ghost desc_part: Seq<Seq<StyledTextView>> = seq![];
    if let Some(desc) = &e.description {
        let chunks = description_lines(desc.as_str(), width);
        let ghost cs = chunks.deep_view();
        let mut i: usize = 0;
        while i < chunks.len()
            invariant
                0 <= i <= chunks.len(),
                cs == chunks.deep_view(),
                lines.deep_view() =~= head + text_lines(cs.take(i as int)),
            decreases chunks.len() - i,
        {
            let ghost before = lines.deep_view();
            let line = one_piece_line(chunks[i].clone(), TextStyle::Plain);
            assert(line.deep_view() == one_piece(cs[i as int], TextStyle::Plain));
            lines.push(line);
            assert(lines.deep_view() =~= before.push(one_piece(cs[i as int], TextStyle::Plain)));
            assert(cs.take(i as int + 1) =~= cs.take(i as int).push(cs[i as int]));
            assert(text_lines(cs.take(i as int + 1)) =~= text_lines(cs.take(i as int)).push(
                one_piece(cs[i as int], TextStyle::Plain),
            ));
            i = i + 1;
        }
        assert(cs.take(cs.len() as int) =~= cs);
        assert(lines.deep_view() =~= head + text_lines(cs));
        let ghost before_blank = lines.deep_view();
        lines.push(blank());
        assert(lines.deep_view() =~= before_blank.push(blank_line()));
        proof {
            desc_part = text_lines(cs).push(blank_line());
        }
        assert(lines.deep_view() =~= head + desc_part);
    } else {
        assert(lines.deep_view() =~= head + desc_part);
    }
    let ghost before_snippet = lines.deep_view();
    let ghost snippet_part: Seq<Seq<StyledTextView>> = seq![];
    if let Some(snippet) = &e.install_snippet {
        lines.push(one_piece_line(owned("Install:"), TextStyle::Label));
        lines.push(one_piece_line(snippet.clone(), TextStyle::Accent));
        lines.push(blank());
        proof {
            snippet_part = seq![
                one_piece("Install:"@, TextStyle::Label),
                one_piece(snippet@, TextStyle::Accent),
                blank_line(),
            ];
        }
    }
    assert(lines.deep_view() =~= before_snippet + snippet_part);
    let ghost before_tail = lines.deep_view();
    lines.push(labelled_line("Pricing: ", pricing_label(e), TextStyle::Price));
    lines.push(labelled_line("URL: ", e.homepage_url.clone(), TextStyle::Link));
    assert(lines.deep_view() =~= before_tail + seq![
        labelled(
            "Pricing: "@,
            match e@.pricing {
                Some(p) => p,
                None => "\u{2014}"@,
            },
            TextStyle::Price,
        ),
        labelled("URL: "@, e@.homepage_url, TextStyle::Link),
    ]);
    lines
}

/// Whether `date` is what [`news_date`] shows for the timestamp `posted_at`:
/// its first ten bytes when they end on a character boundary, and nothing
/// otherwise.
pub open spec fn is_news_date(posted_at: Seq<char>, date: Seq<char>) -> bool {
    if 10 <= encode_utf8(posted_at).len() && is_char_boundary(encode_utf8(posted_at), 10) {
        encode_utf8(date) == encode_utf8(posted_at).subrange(0, 10)
    } else {
        date == Seq::<char>::empty()
    }
}

/// The lines of the detail popup for a news item whose date reads `date`:
/// title; date, two spaces and source name; a blank line; summary; a blank
/// line; the topics separated by commas; a blank line; the source's address.
pub open spec fn news_detail_spec(n: NewsItemView, date: Seq<char>) -> Seq<Seq<StyledTextView>> {
    seq![
        one_piece(n.title, TextStyle::Heading),
        seq![
            StyledTextView { text: date, style: TextStyle::Muted },
            StyledTextView { text: "  "@, style: TextStyle::Plain },
            StyledTextView { text: n.source_name, style: TextStyle::Accent },
        ],
        blank_line(),
        one_piece(n.summary, TextStyle::Plain),
        blank_line(),
        labelled("Topics: "@, seq_join(n.topics, ", "@), TextStyle::Accent),
        blank_line(),
        labelled("Source: "@, n.source_url, TextStyle::Link),
    ]
}

/// The lines of the detail popup for news item `n` (see
/// [`news_detail_spec`]); the date shown is the one of [`news_date`].
pub fn news_detail_lines(n: &NewsItem) -> (r: Vec<Vec<StyledText>>)
    ensures
        r.deep_view().len() == 8 && r.deep_view()[1].len() == 3,
        is_news_date(n@.posted_at, r.deep_view()[1][0].text),
        r.deep_view() == news_detail_spec(n@, r.deep_view()[1][0].text),
{
    let date = news_date(n.posted_at.as_str());
    let ghost d = date@;
    let mut dated: Vec<StyledText> = Vec::new();
    dated.push(piece(date, TextStyle::Muted));
    dated.push(piece(owned("  "), TextStyle::Plain));
    dated.push(piece(n.source_name.clone(), TextStyle::Accent));
    let mut lines: Vec<Vec<StyledText>> = Vec::new();
    lines.push(one_piece_line(n.title.clone(), TextStyle::Heading));
    lines.push(dated);
    lines.push(blank());
    lines.push(one_piece_line(n.summary.clone(), TextStyle::Plain));
    lines.push(blank());
    lines.push(labelled_line("Topics: ", topics_line(&n.topics), TextStyle::Accent));
    lines.push(blank());
    lines.push(labelled_line("Source: ", n.source_url.clone(), TextStyle::Link));
    assert(lines.deep_view()[1] =~= seq![
        StyledTextView { text: d, style: TextStyle::Muted },
        StyledTextView { text: "  "@, style: TextStyle::Plain },
        StyledTextView { text: n@.source_name, style: TextStyle::Accent },
    ]);
    assert(lines.deep_view() =~= news_detail_spec(n@, d));
    lines
}

/// The layout of an entry's detail popup, line by line: the name, the
/// tagline and a blank line come first; then, when there is a description,
/// its pieces of six columns less than the popup is wide, one per line, and
/// a blank line; then, whatever the description, when there is an install
/// snippet, the line `Install:`, the snippet and a blank line; and last the
/// pricing (a dash when unknown) and the homepage, each after its label.
pub proof fn lemma_entry_detail_layout(e: EntryView, width: nat)
    requires
        e.description is Some ==> width > 6,
    ensures
        ({
            let lines = entry_detail_spec(e, width);
            let n = lines.len();
            let blank = seq![StyledTextView { text: Seq::empty(), style: TextStyle::Plain }];
            let desc_lines: int = match e.description {
                Some(d) => char_chunks(d, (width - 6) as nat).len() as int + 1,
                None => 0,
            };
            let snippet_lines: int = if e.install_snippet is Some { 3 } else { 0 };
            &&& n == 5 + desc_lines + snippet_lines
            &&& lines[0] == seq![StyledTextView { text: e.name, style: TextStyle::Heading }]
            &&& lines[1] == seq![StyledTextView { text: e.tagline, style: TextStyle::Tagline }]
            &&& lines[2] == blank
            &&& (e.description matches Some(d) ==> {
                let chunks = char_chunks(d, (width - 6) as nat);
                &&& forall|j: int|
                    0 <= j < chunks.len() ==> #[trigger] lines[3 + j] == seq![
                        StyledTextView { text: chunks[j], style: TextStyle::Plain },
                    ]
                &&& lines[3 + chunks.len() as int] == blank
            })
            &&& (e.install_snippet matches Some(snippet) ==> {
                &&& lines[n - 5] == seq![StyledTextView { text: "Install:"@, style: TextStyle::Label }]
                &&& lines[n - 4] == seq![StyledTextView { text: snippet, style: TextStyle::Accent }]
                &&& lines[n - 3] == blank
            })
            &&& lines[n - 2] == seq![
                StyledTextView { text: "Pricing: "@, style: TextStyle::Label },
                StyledTextView {
                    text: match e.pricing {
                        Some(p) => p,
                        None => "\u{2014}"@,
                    },
                    style: TextStyle::Price,
                },
            ]
            &&& lines[n - 1] == seq![
                StyledTextView { text: "URL: "@, style: TextStyle::Label },
                StyledTextView { text: e.homepage_url, style: TextStyle::Link },
            ]
        }),
{
    let head = seq![one_piece(e.name, TextStyle::Heading), one_piece(e.tagline, TextStyle::Tagline), blank_line()];
    let desc: Seq<Seq<StyledTextView>> = match e.description {
        Some(d) => text_lines(char_chunks(d, (width - 6) as nat)).push(blank_line()),
        None => seq![],
    };
    let snip: Seq<Seq<StyledTextView>> = match e.install_snippet {
        Some(snippet) => seq![
            one_piece("Install:"@, TextStyle::Label),
            one_piece(snippet, TextStyle::Accent),
            blank_line(),
        ],
        None => seq![],
    };
    let tail = seq![
        labelled(
            "Pricing: "@,
            match e.pricing {
                Some(p) => p,
                None => "\u{2014}"@,
            },
            TextStyle::Price,
        ),
        labelled("URL: "@, e.homepage_url, TextStyle::Link),
    ];
    let lines = entry_detail_spec(e, width);
    assert(lines == head + desc + snip + tail);
    let n = lines.len();
    assert(lines[n - 2] == tail[0]);
    assert(lines[n - 1] == tail[1]);
    if e.install_snippet is Some {
        assert(lines[n - 5] == snip[0]);
        assert(lines[n - 4] == snip[1]);
        assert(lines[n - 3] == snip[2]);
    }
    if let Some(d) = e.description {
        let chunks = char_chunks(d, (width - 6) as nat);
        assert forall|j: int| 0 <= j < chunks.len() implies #[trigger] lines[3 + j] == seq![
            StyledTextView { text: chunks[j], style: TextStyle::Plain },
        ] by {
            assert(lines[3 + j] == desc[j]);
        }
        assert(lines[3 + chunks.len() as int] == desc[chunks.len() as int]);
    }
}

/// The layout of a news item's detail popup, line by line: the title; the
/// date, two spaces and the source's name; a blank line; the summary; a blank
/// line; the topics joined by commas after their label; a blank line; the
/// source's address after its label.
pub proof fn lemma_news_detail_layout(n: NewsItemView, date: Seq<char>)
    ensures
        ({
            let lines = news_detail_spec(n, date);
            let blank = seq![StyledTextView { text: Seq::empty(), style: TextStyle::Plain }];
            &&& lines.len() == 8
            &&& lines[0] == seq![StyledTextView { text: n.title, style: TextStyle::Heading }]
            &&& lines[1] == seq![
                StyledTextView { text: date, style: TextStyle::Muted },
                StyledTextView { text: "  "@, style: TextStyle::Plain },
                StyledTextView { text: n.source_name, style: TextStyle::Accent },
            ]
            &&& lines[2] == blank && lines[4] == blank && lines[6] == blank
            &&& lines[3] == seq![StyledTextView { text: n.summary, style: TextStyle::Plain }]
            &&& lines[5] == seq![
                StyledTextView { text: "Topics: "@, style: TextStyle::Label },
                StyledTextView { text: seq_join(n.topics, ", "@), style: TextStyle::Accent },
            ]
            &&& lines[7] == seq![
                StyledTextView { text: "Source: "@, style: TextStyle::Label },
                StyledTextView { text: n.source_url, style: TextStyle::Link },
            ]
        }),
{
}

} // verus!
