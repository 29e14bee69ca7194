//! The boundary to ratatui: the region and frame types the renderer works
//! with, the region split, and the two drawing primitives (a text block and
//! a field table). Everything drawn is computed and pinned down by the
//! verified callers; these items only hand it to the terminal library.

use ratatui::Frame;
use ratatui::layout::{Constraint, Direction, Layout, Rect};
use ratatui::style::{Style, Stylize};
use ratatui::text::Span;
use ratatui::widgets::{Block, BorderType, Borders, Padding, Paragraph, Row, Table};
use vstd::prelude::*;

use crate::screen::title_pad_spec;
use crate::text::row_views;

verus! {

/// ratatui's rectangular screen region: a position and a size.
#[verifier::external_type_specification]
pub struct ExRect(Rect);

/// ratatui's mutable drawing target for one screen refresh cycle.
#[verifier::external_type_specification]
#[verifier::external_body]
pub struct ExFrame<'a>(Frame<'a>);

// A name for the drawable state a frame holds: its buffer contents together
// with its viewport geometry. The frame is opaque, so the contracts speak of
// this abstraction only.
pub uninterp spec fn frame_cells(f: Frame) -> Seq<char>;

// A name for what ratatui's `Paragraph` rendering leaves in the frame: the
// result depends only on the prior frame state, the target region, the text
// and the top padding (the styling is fixed in `draw_title`'s body).
pub uninterp spec fn title_drawn(
    cells: Seq<char>,
    x: u16,
    y: u16,
    w: u16,
    h: u16,
    text: Seq<char>,
    pad: u16,
) -> Seq<char>;

// A name for what ratatui's `Table` rendering leaves in the frame: the
// result depends only on the prior frame state, the target region and the
// name/value rows (the column widths, spacing and border are fixed in
// `draw_table`'s body).
pub uninterp spec fn table_drawn(
    cells: Seq<char>,
    x: u16,
    y: u16,
    w: u16,
    h: u16,
    rows: Seq<(Seq<char>, Seq<char>)>,
) -> Seq<char>;

/// What the region split guarantees of the title and data slots cut out of
/// `block`: both keep the inner area's height — the given height shrunk by
/// the 2-unit margin on both sides, zero when the margin cannot fit.
pub open spec fn split_shape(block: Rect, tr: Rect, dr: Rect) -> bool {
    &&& tr.height == dr.height
    &&& block.width >= 4 && block.height >= 4 ==> tr.height == block.height - 4
    &&& block.width < 4 || block.height < 4 ==> tr.height == 0
}

/// The frame state after the one title draw and the one table draw a render
/// performs: the title goes into `tr` with its centering padding, then the
/// rows into `dr`.
pub open spec fn draw_pair(
    cells: Seq<char>,
    tr: Rect,
    dr: Rect,
    title: Seq<char>,
    rows: Seq<(Seq<char>, Seq<char>)>,
) -> Seq<char> {
    table_drawn(
        title_drawn(cells, tr.x, tr.y, tr.width, tr.height, title, title_pad_spec(tr.height)),
        dr.x,
        dr.y,
        dr.width,
        dr.height,
        rows,
    )
}

/// What every render ensures of the frame: its new state is exactly the old
/// state with `title` drawn into a title slot and `rows` drawn into a data
/// slot, the two slots cut out of `block` as [`split_shape`] says, in that
/// order and nothing else.
pub open spec fn rendered(
    f0: Frame,
    f1: Frame,
    title: Seq<char>,
    rows: Seq<(Seq<char>, Seq<char>)>,
    block: Rect,
) -> bool {
    exists|tr: Rect, dr: Rect|
        #![trigger draw_pair(frame_cells(f0), tr, dr, title, rows)]
        split_shape(block, tr, dr) && frame_cells(f1) == draw_pair(
            frame_cells(f0),
            tr,
            dr,
            title,
            rows,
        )
}

/// Relies on ratatui's `Layout::split` with a 2-unit margin and horizontal
/// constraints `[Length(10), Fill(1)]`: both chunks keep the inner area's
/// height (the given height shrunk by the margin on both sides, zero when
/// the region cannot fit the margin).
#[verifier::external_body]
pub(crate) fn split_title_data(block: Rect) -> (r: (Rect, Rect))
    ensures
        split_shape(block, r.0, r.1),
{
    let chunks = Layout::default()
        .direction(Direction::Horizontal)
        .constraints([Constraint::Length(10), Constraint::Fill(1)])
        .margin(2)
        .split(block);
    (chunks[0], chunks[1])
}

/// Relies on ratatui's `Paragraph` and `Frame::render_widget`: draws `text`
/// bold into `area`, padded `pad_top` rows from the top.
#[verifier::external_body]
pub(crate) fn draw_title(frame: &mut Frame, area: Rect, text: &str, pad_top: u16)
    ensures
        frame_cells(*final(frame)) == title_drawn(
            frame_cells(*old(frame)),
            area.x,
            area.y,
            area.width,
            area.height,
            text@,
            pad_top,
        ),
{
    let title = Paragraph::new(text).bold().block(
        Block::new().padding(Padding::top(pad_top)),
    );
    frame.render_widget(title, area);
}

/// Relies on ratatui's `Table` and `Frame::render_widget`: draws one table
/// row per name/value pair into `area` — name column bold and 23 wide,
/// value column filling the rest, 2-unit column spacing, and a thick bold
/// yellow left border.
#[verifier::external_body]
pub(crate) fn draw_table(frame: &mut Frame, area: Rect, rows: &Vec<(String, String)>)
    ensures
        frame_cells(*final(frame)) == table_drawn(
            frame_cells(*old(frame)),
            area.x,
            area.y,
            area.width,
            area.height,
            row_views(rows@),
        ),
{
    let infos = rows.iter().map(|r| {
        Row::new(vec![
            Span::styled(r.0.as_str(), Style::new().bold()),
            Span::from(r.1.as_str()),
        ])
    });
    let widths = [Constraint::Length(23), Constraint::Fill(1)];
    let table = Table::new(infos, widths).column_spacing(2).block(
        Block::default()
            .borders(Borders::LEFT)
            .border_style(Style::new().bold().yellow())
            .border_type(BorderType::Thick)
            .style(Style::default()),
    );
    frame.render_widget(table, area);
}

} // verus!
