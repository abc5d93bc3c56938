//! Filling a `prettytable::Table` with the rows of a message list.

use crate::message::{MessageList, MessageView};
use crate::present::{table_cells, CellStyle, CellView, Column, DisplayCell, DisplayMode};
use crate::status::StatusColor;
use crate::text::{decimal, has_char, is_digit, lemma_decimal};
use prettytable::{color, Attr};
use vstd::prelude::*;

verus! {

/// `prettytable::Table`. What a table holds is spoken of through
/// `table_contents`.
#[verifier::external_type_specification]
#[verifier::external_body]
pub struct ExTable(prettytable::Table);

/// The rows of a table, top to bottom, and in each row its cells, left to
/// right: of every cell the text that `prettytable::Cell::get_content` gives
/// back and the style it was made with.
pub uninterp spec fn table_contents(table: prettytable::Table) -> Seq<Seq<CellView>>;

/// The text that a cell made by `prettytable::Cell::new` from `text` gives back:
/// the cell keeps the lines of `text` and joins them with a line feed again.
pub uninterp spec fn kept_text(text: Seq<char>) -> Seq<char>;

/// The character that starts a terminal control sequence.
pub const ESCAPE: char = '\u{1b}';

/// Whether a cell can be made of `text`. A text with an escape character is
/// left out: `prettytable` subtracts what it takes for control sequences from
/// the width of the text, and gives up where that exceeds the width.
pub open spec fn drawable(text: Seq<char>) -> bool {
    !text.contains(ESCAPE)
}

/// Whether every cell of `cells` can be made.
pub open spec fn row_drawable(cells: Seq<CellView>) -> bool {
    forall|j: int| 0 <= j < cells.len() ==> drawable(#[trigger] cells[j].text)
}

/// Whether every cell of every row can be made.
pub open spec fn all_drawable(rows: Seq<Seq<CellView>>) -> bool {
    forall|i: int| 0 <= i < rows.len() ==> row_drawable(#[trigger] rows[i])
}

/// Whether `text` is free of line feeds and carriage returns.
pub open spec fn single_line(text: Seq<char>) -> bool {
    forall|i: int| 0 <= i < text.len() ==> text[i] != '\n' && text[i] != '\r'
}

/// A row as a table keeps it.
pub open spec fn kept_cells(cells: Seq<CellView>) -> Seq<CellView> {
    cells.map_values(|cell: CellView| CellView { text: kept_text(cell.text), style: cell.style })
}

/// Rows as a table keeps them.
pub open spec fn kept_rows(rows: Seq<Seq<CellView>>) -> Seq<Seq<CellView>> {
    rows.map_values(|cells: Seq<CellView>| kept_cells(cells))
}

/// Whether `table` holds `rows`: every row in its place and every cell with
/// its style; a text without a line break exactly, any other text as
/// `kept_text` of it.
pub open spec fn holds_rows(table: prettytable::Table, rows: Seq<Seq<CellView>>) -> bool {
    &&& table_contents(table) == kept_rows(rows)
    &&& forall|i: int, j: int|
        #![trigger table_contents(table)[i][j]]
        0 <= i < rows.len() && 0 <= j < rows[i].len() && single_line(rows[i][j].text)
            ==> table_contents(table)[i][j] == rows[i][j]
}

/// `prettytable::Table::new` makes a table without rows.
pub assume_specification[ prettytable::Table::new ]() -> (table: prettytable::Table)
    ensures
        table_contents(table) == Seq::<Seq<CellView>>::empty(),
;

/// Appends one row to `table` with `prettytable::Table::add_row`. The row
/// starts as `prettytable::Row::empty` and takes its cells one by one through
/// `Row::add_cell`. Each cell is made by `prettytable::Cell::new` from the
/// cell's text and, unless it is plain, given its one attribute by
/// `Cell::with_style`: bold, or the foreground colour of the same name from
/// `prettytable::color`.
///
/// Not proved: `add_row` pushes the row behind the rows that are there and
/// touches none of them, and `add_cell` pushes each cell behind the cells
/// before it, so the row holds the cells in the order given.
/// `Cell::new` stores the `str::lines` of the text, so a text without a line
/// break comes back from the cell as it went in; any other text comes back as
/// `kept_text` of it. `Cell::new` also measures each line, and there it asserts
/// that the characters it counted inside control sequences are no more than the
/// line is wide; it counts none in a line without an escape character, which is
/// what is required here.
#[verifier::external_body]
fn push_row(table: &mut prettytable::Table, cells: &Vec<DisplayCell>)
    requires
        row_drawable(cells.deep_view()),
    ensures
        table_contents(*final(table)) == table_contents(*old(table)).push(
            Seq::new(
                cells@.len(),
                |i: int| (CellView { text: kept_text(cells@[i].text@), style: cells@[i].style }),
            ),
        ),
        forall|i: int|
            0 <= i < cells@.len() && single_line(cells@[i].text@) ==> (#[trigger] table_contents(
                *final(table),
            ).last()[i]).text == cells@[i].text@,
{
    let mut row = prettytable::Row::empty();
    for cell in cells.iter() {
        let made = prettytable::Cell::new(cell.text.as_str());
        row.add_cell(match cell.style {
            CellStyle::Plain => made,
            CellStyle::Bold => made.with_style(Attr::Bold),
            CellStyle::Foreground(StatusColor::Yellow) => made.with_style(Attr::ForegroundColor(color::YELLOW)),
            CellStyle::Foreground(StatusColor::Green) => made.with_style(Attr::ForegroundColor(color::GREEN)),
            CellStyle::Foreground(StatusColor::Red) => made.with_style(Attr::ForegroundColor(color::RED)),
            CellStyle::Foreground(StatusColor::White) => made.with_style(Attr::ForegroundColor(color::WHITE)),
        });
    }
    table.add_row(row);
}

/// Whether every cell of `rows` can be made.
pub fn rows_drawable(rows: &Vec<Vec<DisplayCell>>) -> (ok: bool)
    ensures
        ok == all_drawable(rows.deep_view()),
{
    let mut i: usize = 0;
    while i < rows.len()
        invariant
            i <= rows.len(),
            forall|k: int| 0 <= k < i ==> row_drawable(#[trigger] rows.deep_view()[k]),
        decreases rows.len() - i,
    {
        let row = &rows[i];
        let mut j: usize = 0;
        while j < row.len()
            invariant
                j <= row.len(),
                row == rows@[i as int],
                i < rows.len(),
                forall|k: int| 0 <= k < j ==> drawable(#[trigger] row.deep_view()[k].text),
            decreases row.len() - j,
        {
            if has_char(row[j].text.as_str(), ESCAPE) {
                assert(!drawable(row.deep_view()[j as int].text));
                assert(!row_drawable(rows.deep_view()[i as int]));
                return false;
            }
            j += 1;
        }
        assert(row_drawable(rows.deep_view()[i as int]));
        i += 1;
    }
    true
}

/// Makes a table of `rows`, in their order.
pub fn fill_table(rows: &Vec<Vec<DisplayCell>>) -> (table: prettytable::Table)
    requires
        all_drawable(rows.deep_view()),
    ensures
        holds_rows(table, rows.deep_view()),
{
    let mut table = prettytable::Table::new();
    let mut i: usize = 0;
    while i < rows.len()
        invariant
            i <= rows.len(),
            all_drawable(rows.deep_view()),
            table_contents(table).len() == i,
            forall|k: int|
                0 <= k < i ==> #[trigger] table_contents(table)[k] == kept_cells(
                    rows.deep_view()[k],
                ),
            forall|k: int, j: int|
                #![trigger table_contents(table)[k][j]]
                0 <= k < i && 0 <= j < rows@[k].len() && single_line(rows@[k]@[j].text@)
                    ==> table_contents(table)[k][j].text == rows@[k]@[j].text@,
        decreases rows.len() - i,
    {
        let ghost before = table_contents(table);
        assert(row_drawable(rows.deep_view()[i as int]));
        push_row(&mut table, &rows[i]);
        proof {
            let row = rows@[i as int];
            assert(table_contents(table) == before.push(table_contents(table).last()));
            assert(table_contents(table).last() =~= kept_cells(rows.deep_view()[i as int]));
            assert forall|k: int, j: int|
                #![trigger table_contents(table)[k][j]]
                0 <= k < i + 1 && 0 <= j < rows@[k].len() && single_line(
                    rows@[k]@[j].text@,
                ) implies table_contents(table)[k][j].text == rows@[k]@[j].text@ by {
                if k < i {
                    assert(table_contents(table)[k] == before[k]);
                } else {
                    assert(table_contents(table).last()[j].text == row@[j].text@);
                }
            }
        }
        i += 1;
    }
    proof {
        let cells = rows.deep_view();
        assert(table_contents(table) =~= kept_rows(cells));
        assert forall|i: int, j: int|
            #![trigger table_contents(table)[i][j]]
            0 <= i < cells.len() && 0 <= j < cells[i].len() && single_line(
                cells[i][j].text,
            ) implies table_contents(table)[i][j] == cells[i][j] by {
            assert(rows@[i].deep_view()[j] == cells[i][j]);
            assert(table_contents(table)[i] == kept_cells(cells[i]));
            assert(table_contents(table)[i][j].text == rows@[i]@[j].text@);
        }
    }
    table
}

/// Builds the table for `messages` in `mode`: the header row, then one row per
/// message in the order of the list, every cell with the text and style that
/// `table_cells` gives it. There is no table when a cell cannot be made.
pub fn build_table(messages: &MessageList, mode: DisplayMode) -> (built: Option<
    prettytable::Table,
>)
    ensures
        built is Some <==> all_drawable(table_cells(messages@, mode)),
        built matches Some(table) ==> holds_rows(table, table_cells(messages@, mode)),
{
    let rows = messages.rows(mode);
    if rows_drawable(&rows) {
        Some(fill_table(&rows))
    } else {
        None
    }
}

/// A table that holds the rows laid out for `messages` has the header and one
/// row per message, and in every row one cell per column of the mode, styled
/// as it was laid out. Its headings read exactly as the columns are titled, and
/// its chain ids and nonces exactly as the numbers are written.
pub proof fn lemma_table_shape(
    table: prettytable::Table,
    messages: Seq<MessageView>,
    mode: DisplayMode,
)
    requires
        holds_rows(table, table_cells(messages, mode)),
    ensures
        table_contents(table).len() == messages.len() + 1,
        forall|i: int|
            0 <= i <= messages.len() ==> (#[trigger] table_contents(table)[i]).len()
                == mode.columns().len(),
        forall|j: int|
            0 <= j < mode.columns().len() ==> #[trigger] table_contents(table)[0][j]
                == mode.columns()[j].heading(),
        forall|i: int, j: int|
            0 <= i < messages.len() && 0 <= j < mode.columns().len() ==> (#[trigger] table_contents(
                table,
            )[i + 1][j]).style == mode.columns()[j].style(messages[i]),
        forall|i: int, j: int|
            0 <= i < messages.len() && 0 <= j < mode.columns().len() && mode.columns()[j].is_number()
                ==> (#[trigger] table_contents(table)[i + 1][j]).text == mode.columns()[j].text(
                messages[i],
                mode.verbose,
            ),
{
    let cells = table_cells(messages, mode);
    let columns = mode.columns();
    assert forall|j: int| 0 <= j < columns.len() implies #[trigger] table_contents(table)[0][j]
        == columns[j].heading() by {
        lemma_plain_cells(columns[j], 0);
        assert(cells[0][j] == columns[j].heading());
    }
    assert forall|i: int, j: int|
        0 <= i < messages.len() && 0 <= j < columns.len() && columns[j].is_number() implies (
    #[trigger] table_contents(table)[i + 1][j]).text == columns[j].text(
        messages[i],
        mode.verbose,
    ) by {
        lemma_plain_cells(columns[j], messages[i].src_chain_id as nat);
        lemma_plain_cells(columns[j], messages[i].dst_chain_id as nat);
        lemma_plain_cells(columns[j], messages[i].src_ua_nonce as nat);
        assert(cells[i + 1][j] == columns[j].cell(messages[i], mode.verbose));
    }
    assert forall|i: int, j: int| 0 <= i < messages.len() && 0 <= j < columns.len() implies (
    #[trigger] table_contents(table)[i + 1][j]).style == columns[j].style(messages[i]) by {
        assert(cells[i + 1][j] == columns[j].cell(messages[i], mode.verbose));
        assert(table_contents(table)[i + 1] == kept_cells(cells[i + 1]));
    }
    assert forall|i: int| 0 <= i <= messages.len() implies (#[trigger] table_contents(
        table,
    )[i]).len() == columns.len() by {
        assert(table_contents(table)[i] == kept_cells(cells[i]));
    }
}

/// Headings and numbers hold neither a line break nor an escape character: a
/// cell can always be made of them, and a table shows them exactly as they
/// were laid out.
pub proof fn lemma_plain_cells(column: Column, n: nat)
    ensures
        single_line(column.title()),
        drawable(column.title()),
        single_line(decimal(n)),
        drawable(decimal(n)),
{
    reveal_strlit("Status");
    reveal_strlit("SrcChainId");
    reveal_strlit("SrcUaNonce");
    reveal_strlit("SrcUaAddress");
    reveal_strlit("SrcBlockHash");
    reveal_strlit("SrcBlockNumber");
    reveal_strlit("DstChainId");
    reveal_strlit("DstUaAddress");
    reveal_strlit("DstTx");
    lemma_decimal(n);
    assert forall|i: int| 0 <= i < decimal(n).len() implies decimal(n)[i] != '\n' && decimal(
        n,
    )[i] != '\r' && decimal(n)[i] != ESCAPE by {
        assert(is_digit(decimal(n)[i]));
    }
}

} // verus!
