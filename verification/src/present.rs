//! Laying messages out as table rows: which columns a mode shows, what each
//! cell says and how it is styled.

use crate::message::{Message, MessageList, MessageView};
use crate::status::{color_of, status_color, StatusColor};
use crate::text::{decimal, decimal_string};
use crate::truncate::{ellipsis, ez_truncate, shortened, width_prefix, FIELD_WIDTH};
use vstd::prelude::*;

verus! {

/// How much of each message the table shows.
#[derive(Clone, Copy, Debug, PartialEq, Eq, Structural)]
pub struct DisplayMode {
    /// Show every column, long fields shortened.
    pub all: bool,
    /// Show every column, long fields in full.
    pub verbose: bool,
}

/// A column of the table.
#[derive(Clone, Copy, Debug, PartialEq, Eq, Structural)]
pub enum Column {
    Status,
    SrcChainId,
    SrcUaNonce,
    SrcUaAddress,
    SrcBlockHash,
    SrcBlockNumber,
    DstChainId,
    DstUaAddress,
    DstTx,
}

/// How a cell is drawn.
#[derive(Clone, Copy, Debug, PartialEq, Eq, Structural)]
pub enum CellStyle {
    Plain,
    Bold,
    Foreground(StatusColor),
}

/// One cell of the table: its text and its style.
#[derive(Clone, Debug, PartialEq, Eq)]
pub struct DisplayCell {
    pub text: String,
    pub style: CellStyle,
}

/// A cell with its text as a character sequence.
pub struct CellView {
    pub text: Seq<char>,
    pub style: CellStyle,
}

impl View for DisplayCell {
    type V = CellView;

    open spec fn view(&self) -> CellView {
        CellView { text: self.text@, style: self.style }
    }
}

impl DeepView for DisplayCell {
    type V = CellView;

    open spec fn deep_view(&self) -> CellView {
        self@
    }
}

/// The columns of the compact table, left to right.
pub open spec fn compact_columns() -> Seq<Column> {
    seq![Column::Status, Column::DstChainId, Column::SrcUaNonce]
}

/// The columns of the full table, left to right.
pub open spec fn full_columns() -> Seq<Column> {
    seq![
        Column::Status,
        Column::SrcChainId,
        Column::SrcUaNonce,
        Column::SrcUaAddress,
        Column::SrcBlockHash,
        Column::SrcBlockNumber,
        Column::DstChainId,
        Column::DstUaAddress,
        Column::DstTx,
    ]
}

impl DisplayMode {
    /// Whether the table has every column. Either flag asks for that.
    pub open spec fn is_full(self) -> bool {
        self.all || self.verbose
    }

    /// The columns shown, left to right.
    pub open spec fn columns(self) -> Seq<Column> {
        if self.is_full() {
            full_columns()
        } else {
            compact_columns()
        }
    }

    /// The columns shown, left to right.
    pub fn column_list(self) -> (columns: Vec<Column>)
        ensures
            columns@ == self.columns(),
    {
        let columns = if self.all || self.verbose {
            vec![
                Column::Status,
                Column::SrcChainId,
                Column::SrcUaNonce,
                Column::SrcUaAddress,
                Column::SrcBlockHash,
                Column::SrcBlockNumber,
                Column::DstChainId,
                Column::DstUaAddress,
                Column::DstTx,
            ]
        } else {
            vec![Column::Status, Column::DstChainId, Column::SrcUaNonce]
        };
        assert(columns@ =~= self.columns());
        columns
    }
}

impl Column {
    /// The heading of the column.
    pub open spec fn title(self) -> Seq<char> {
        match self {
            Column::Status => "Status"@,
            Column::SrcChainId => "SrcChainId"@,
            Column::SrcUaNonce => "SrcUaNonce"@,
            Column::SrcUaAddress => "SrcUaAddress"@,
            Column::SrcBlockHash => "SrcBlockHash"@,
            Column::SrcBlockNumber => "SrcBlockNumber"@,
            Column::DstChainId => "DstChainId"@,
            Column::DstUaAddress => "DstUaAddress"@,
            Column::DstTx => "DstTx"@,
        }
    }

    /// What the column says of `message`. The two addresses and the block hash
    /// are shortened unless `long` is set; numbers are written in base ten.
    pub open spec fn text(self, message: MessageView, long: bool) -> Seq<char> {
        match self {
            Column::Status => message.status,
            Column::SrcChainId => decimal(message.src_chain_id as nat),
            Column::SrcUaNonce => decimal(message.src_ua_nonce as nat),
            Column::SrcUaAddress => shortened(message.src_ua_address, long),
            Column::SrcBlockHash => shortened(message.src_block_hash, long),
            Column::SrcBlockNumber => message.src_block_number,
            Column::DstChainId => decimal(message.dst_chain_id as nat),
            Column::DstUaAddress => shortened(message.dst_ua_address, long),
            Column::DstTx => message.dst_tx(),
        }
    }

    /// Whether the column shows a number.
    pub open spec fn is_number(self) -> bool {
        self == Column::SrcChainId || self == Column::SrcUaNonce || self == Column::DstChainId
    }

    /// How the column's cell is drawn for `message`: the status in the colour
    /// of the status, everything else plain.
    pub open spec fn style(self, message: MessageView) -> CellStyle {
        match self {
            Column::Status => CellStyle::Foreground(color_of(message.status)),
            _ => CellStyle::Plain,
        }
    }

    /// The cell that heads the column.
    pub open spec fn heading(self) -> CellView {
        CellView { text: self.title(), style: CellStyle::Bold }
    }

    /// The column's cell in the row of `message`.
    pub open spec fn cell(self, message: MessageView, long: bool) -> CellView {
        CellView { text: self.text(message, long), style: self.style(message) }
    }

    /// The heading of the column.
    pub fn title_str(self) -> (title: &'static str)
        ensures
            title@ == self.title(),
    {
        match self {
            Column::Status => "Status",
            Column::SrcChainId => "SrcChainId",
            Column::SrcUaNonce => "SrcUaNonce",
            Column::SrcUaAddress => "SrcUaAddress",
            Column::SrcBlockHash => "SrcBlockHash",
            Column::SrcBlockNumber => "SrcBlockNumber",
            Column::DstChainId => "DstChainId",
            Column::DstUaAddress => "DstUaAddress",
            Column::DstTx => "DstTx",
        }
    }

    /// The bold cell that heads the column.
    pub fn heading_cell(self) -> (cell: DisplayCell)
        ensures
            cell@ == self.heading(),
    {
        DisplayCell { text: String::from_str(self.title_str()), style: CellStyle::Bold }
    }

    /// The column's cell in the row of `message`.
    pub fn message_cell(self, message: &Message, long: bool) -> (cell: DisplayCell)
        ensures
            cell@ == self.cell(message@, long),
    {
        let text = match self {
            Column::Status => message.status.clone(),
            Column::SrcChainId => decimal_string(message.src_chain_id as u128),
            Column::SrcUaNonce => decimal_string(message.src_ua_nonce),
            Column::SrcUaAddress => ez_truncate(&message.src_ua_address, &long),
            Column::SrcBlockHash => ez_truncate(&message.src_block_hash, &long),
            Column::SrcBlockNumber => message.src_block_number.clone(),
            Column::DstChainId => decimal_string(message.dst_chain_id as u128),
            Column::DstUaAddress => ez_truncate(&message.dst_ua_address, &long),
            Column::DstTx => message.dst_tx(),
        };
        let style = match self {
            Column::Status => CellStyle::Foreground(status_color(message.status.as_str())),
            _ => CellStyle::Plain,
        };
        DisplayCell { text, style }
    }
}

/// The header row of a table in `mode`: one bold heading per column.
pub open spec fn header_cells(mode: DisplayMode) -> Seq<CellView> {
    mode.columns().map_values(|column: Column| column.heading())
}

/// The row of `message` in `mode`: one cell per column. Long fields are shown
/// in full only in verbose mode.
pub open spec fn message_cells(message: MessageView, mode: DisplayMode) -> Seq<CellView> {
    mode.columns().map_values(|column: Column| column.cell(message, mode.verbose))
}

/// The whole table: the header row, then one row per message, in the order of
/// the messages.
pub open spec fn table_cells(messages: Seq<MessageView>, mode: DisplayMode) -> Seq<Seq<CellView>> {
    seq![header_cells(mode)] + messages.map_values(
        |message: MessageView| message_cells(message, mode),
    )
}

/// Builds the header row for `mode`.
pub fn header_row(mode: DisplayMode) -> (row: Vec<DisplayCell>)
    ensures
        row.deep_view() == header_cells(mode),
{
    let columns = mode.column_list();
    let mut row: Vec<DisplayCell> = Vec::new();
    let mut i: usize = 0;
    while i < columns.len()
        invariant
            i <= columns.len(),
            columns@ == mode.columns(),
            row.len() == i,
            forall|j: int| 0 <= j < i ==> row@[j]@ == columns@[j].heading(),
        decreases columns.len() - i,
    {
        row.push(columns[i].heading_cell());
        i += 1;
    }
    assert(row.deep_view() =~= header_cells(mode));
    row
}

/// Builds the row of `message` for `mode`.
pub fn message_row(message: &Message, mode: DisplayMode) -> (row: Vec<DisplayCell>)
    ensures
        row.deep_view() == message_cells(message@, mode),
{
    let columns = mode.column_list();
    let mut row: Vec<DisplayCell> = Vec::new();
    let mut i: usize = 0;
    while i < columns.len()
        invariant
            i <= columns.len(),
            columns@ == mode.columns(),
            row.len() == i,
            forall|j: int| 0 <= j < i ==> row@[j]@ == columns@[j].cell(message@, mode.verbose),
        decreases columns.len() - i,
    {
        row.push(columns[i].message_cell(message, mode.verbose));
        i += 1;
    }
    assert(row.deep_view() =~= message_cells(message@, mode));
    row
}

impl MessageList {
    /// Lays the messages out as a table: the header row first, then one row per
    /// message, in the order of the list. Nothing is sorted or left out.
    pub fn rows(&self, mode: DisplayMode) -> (rows: Vec<Vec<DisplayCell>>)
        ensures
            rows.deep_view() == table_cells(self@, mode),
            rows.len() == self.messages.len() + 1,
    {
        let mut rows: Vec<Vec<DisplayCell>> = Vec::new();
        rows.push(header_row(mode));
        let mut i: usize = 0;
        while i < self.messages.len()
            invariant
                i <= self.messages.len(),
                rows.len() == i + 1,
                rows@[0].deep_view() == header_cells(mode),
                forall|j: int|
                    0 <= j < i ==> (#[trigger] rows@[j + 1]).deep_view() == message_cells(
                        self.messages@[j]@,
                        mode,
                    ),
            decreases self.messages.len() - i,
        {
            rows.push(message_row(&self.messages[i], mode));
            i += 1;
        }
        assert(rows.deep_view() =~= table_cells(self@, mode)) by {
            assert forall|k: int| 0 <= k < rows.len() implies rows.deep_view()[k] == table_cells(
                self@,
                mode,
            )[k] by {
                if k > 0 {
                    assert(rows@[(k - 1) + 1].deep_view() == message_cells(
                        self.messages@[k - 1]@,
                        mode,
                    ));
                }
            }
        }
        rows
    }
}

/// The compact table has the three columns status, destination chain and
/// nonce, in that order; the full table has all nine, in the order of
/// `full_columns`. The header and the row of every message hold one cell per
/// column, each cell in the place of its column.
pub proof fn lemma_row_shape(message: MessageView, mode: DisplayMode)
    ensures
        !mode.all && !mode.verbose ==> mode.columns() == seq![
            Column::Status,
            Column::DstChainId,
            Column::SrcUaNonce,
        ] && mode.columns().len() == 3,
        mode.all || mode.verbose ==> mode.columns() == full_columns() && mode.columns().len() == 9,
        header_cells(mode).len() == mode.columns().len(),
        message_cells(message, mode).len() == mode.columns().len(),
        forall|j: int|
            0 <= j < mode.columns().len() ==> #[trigger] header_cells(mode)[j]
                == mode.columns()[j].heading(),
        forall|j: int|
            0 <= j < mode.columns().len() ==> #[trigger] message_cells(message, mode)[j]
                == mode.columns()[j].cell(message, mode.verbose),
{
}

/// A table starts with the header and then holds the rows of the messages in
/// the order of the messages, one row each.
pub proof fn lemma_table_order(messages: Seq<MessageView>, mode: DisplayMode)
    ensures
        table_cells(messages, mode).len() == messages.len() + 1,
        table_cells(messages, mode)[0] == header_cells(mode),
        forall|i: int|
            0 <= i < messages.len() ==> #[trigger] table_cells(messages, mode)[i + 1]
                == message_cells(messages[i], mode),
{
}

/// Shown long, the two addresses and the block hash read unchanged. Shown
/// short, each is what fits in `FIELD_WIDTH` columns, followed by the ellipsis.
/// No other column reads differently long and short.
pub proof fn lemma_long_and_short(message: MessageView, column: Column)
    ensures
        Column::SrcUaAddress.text(message, true) == message.src_ua_address,
        Column::SrcBlockHash.text(message, true) == message.src_block_hash,
        Column::DstUaAddress.text(message, true) == message.dst_ua_address,
        Column::SrcUaAddress.text(message, false) == width_prefix(
            message.src_ua_address,
            FIELD_WIDTH as nat,
        ) + ellipsis(),
        Column::SrcBlockHash.text(message, false) == width_prefix(
            message.src_block_hash,
            FIELD_WIDTH as nat,
        ) + ellipsis(),
        Column::DstUaAddress.text(message, false) == width_prefix(
            message.dst_ua_address,
            FIELD_WIDTH as nat,
        ) + ellipsis(),
        column != Column::SrcUaAddress && column != Column::SrcBlockHash && column
            != Column::DstUaAddress ==> column.text(message, true) == column.text(message, false),
{
}

} // verus!
