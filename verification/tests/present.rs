use lz_scan::message::{Message, MessageList};
use lz_scan::present::{header_row, message_row, CellStyle, Column, DisplayCell, DisplayMode};
use lz_scan::status::{status_color, StatusColor};

const COMPACT: DisplayMode = DisplayMode { all: false, verbose: false };
const ALL: DisplayMode = DisplayMode { all: true, verbose: false };
const VERBOSE: DisplayMode = DisplayMode { all: false, verbose: true };
const ALL_VERBOSE: DisplayMode = DisplayMode { all: true, verbose: true };

fn sample() -> Message {
    Message {
        status: String::from("SUCCESS"),
        src_chain_id: 1,
        dst_chain_id: 2,
        src_ua_address: String::from("0xaaaa111122223333"),
        dst_ua_address: String::from("0xbbbb"),
        src_block_hash: String::from("0xhash"),
        src_block_number: String::from("100"),
        src_ua_nonce: 5,
        dst_tx_hash: None,
        dst_tx_error: None,
    }
}

fn texts(row: &[DisplayCell]) -> Vec<&str> {
    row.iter().map(|cell| cell.text.as_str()).collect()
}

fn styles(row: &[DisplayCell]) -> Vec<CellStyle> {
    row.iter().map(|cell| cell.style).collect()
}

#[test]
fn inflight_is_yellow() {
    assert_eq!(status_color("INFLIGHT"), StatusColor::Yellow);
}

#[test]
fn success_and_delivered_are_green() {
    assert_eq!(status_color("SUCCESS"), StatusColor::Green);
    assert_eq!(status_color("DELIVERED"), StatusColor::Green);
}

#[test]
fn stored_is_red() {
    assert_eq!(status_color("STORED"), StatusColor::Red);
}

#[test]
fn other_statuses_are_white() {
    for status in ["", "FAILED", "inflight", "Success", "STORED ", "INFLIGHTS", "DELIVER", "\u{2713}"] {
        assert_eq!(status_color(status), StatusColor::White);
    }
}

#[test]
fn destination_hash_is_shown() {
    let mut message = sample();
    message.dst_tx_hash = Some(String::from("0xdef"));
    assert_eq!(message.dst_tx(), "0xdef");
}

#[test]
fn destination_hash_wins_over_error() {
    let mut message = sample();
    message.dst_tx_hash = Some(String::from("0xdef"));
    message.dst_tx_error = Some(String::from("revert"));
    assert_eq!(message.dst_tx(), "0xdef");
    message.dst_tx_error = Some(String::new());
    assert_eq!(message.dst_tx(), "0xdef");
}

#[test]
fn destination_error_is_shown_as_error() {
    let mut message = sample();
    message.dst_tx_error = Some(String::from("revert"));
    assert_eq!(message.dst_tx(), "Error!");
    message.dst_tx_error = Some(String::new());
    assert_eq!(message.dst_tx(), "Error!");
}

#[test]
fn no_destination_is_shown_empty() {
    assert_eq!(sample().dst_tx(), "");
}

#[test]
fn empty_destination_hash_is_still_the_hash() {
    let mut message = sample();
    message.dst_tx_hash = Some(String::new());
    message.dst_tx_error = Some(String::from("revert"));
    assert_eq!(message.dst_tx(), "");
}

#[test]
fn compact_columns_in_order() {
    assert_eq!(
        COMPACT.column_list(),
        vec![Column::Status, Column::DstChainId, Column::SrcUaNonce]
    );
}

#[test]
fn full_columns_in_order() {
    let full = vec![
        Column::Status,
        Column::SrcChainId,
        Column::SrcUaNonce,
        Column::SrcUaAddress,
        Column::SrcBlockHash,
        Column::SrcBlockNumber,
        Column::DstChainId,
        Column::DstUaAddress,
        Column::DstTx,
    ];
    assert_eq!(ALL.column_list(), full);
    assert_eq!(VERBOSE.column_list(), full);
    assert_eq!(ALL_VERBOSE.column_list(), full);
}

#[test]
fn column_titles() {
    assert_eq!(Column::Status.title_str(), "Status");
    assert_eq!(Column::SrcChainId.title_str(), "SrcChainId");
    assert_eq!(Column::SrcUaNonce.title_str(), "SrcUaNonce");
    assert_eq!(Column::SrcUaAddress.title_str(), "SrcUaAddress");
    assert_eq!(Column::SrcBlockHash.title_str(), "SrcBlockHash");
    assert_eq!(Column::SrcBlockNumber.title_str(), "SrcBlockNumber");
    assert_eq!(Column::DstChainId.title_str(), "DstChainId");
    assert_eq!(Column::DstUaAddress.title_str(), "DstUaAddress");
    assert_eq!(Column::DstTx.title_str(), "DstTx");
}

#[test]
fn compact_header() {
    let row = header_row(COMPACT);
    assert_eq!(texts(&row), vec!["Status", "DstChainId", "SrcUaNonce"]);
    assert_eq!(styles(&row), vec![CellStyle::Bold; 3]);
}

#[test]
fn full_header() {
    for mode in [ALL, VERBOSE, ALL_VERBOSE] {
        let row = header_row(mode);
        assert_eq!(
            texts(&row),
            vec![
                "Status",
                "SrcChainId",
                "SrcUaNonce",
                "SrcUaAddress",
                "SrcBlockHash",
                "SrcBlockNumber",
                "DstChainId",
                "DstUaAddress",
                "DstTx"
            ]
        );
        assert_eq!(styles(&row), vec![CellStyle::Bold; 9]);
    }
}

#[test]
fn heading_cell_is_bold() {
    assert_eq!(
        Column::DstTx.heading_cell(),
        DisplayCell { text: String::from("DstTx"), style: CellStyle::Bold }
    );
}

#[test]
fn compact_row_of_a_decoded_message() {
    let row = message_row(&sample(), COMPACT);
    assert_eq!(texts(&row), vec!["SUCCESS", "2", "5"]);
    assert_eq!(
        styles(&row),
        vec![CellStyle::Foreground(StatusColor::Green), CellStyle::Plain, CellStyle::Plain]
    );
}

#[test]
fn compact_table_of_one_decoded_message() {
    let list = MessageList { messages: vec![sample()] };
    let rows = list.rows(COMPACT);
    assert_eq!(rows.len(), 2);
    assert_eq!(texts(&rows[0]), vec!["Status", "DstChainId", "SrcUaNonce"]);
    assert_eq!(texts(&rows[1]), vec!["SUCCESS", "2", "5"]);
    assert_eq!(rows[1][0].style, CellStyle::Foreground(StatusColor::Green));
}

#[test]
fn verbose_row_shows_fields_in_full() {
    for mode in [VERBOSE, ALL_VERBOSE] {
        let row = message_row(&sample(), mode);
        assert_eq!(
            texts(&row),
            vec!["SUCCESS", "1", "5", "0xaaaa111122223333", "0xhash", "100", "2", "0xbbbb", ""]
        );
    }
}

#[test]
fn all_row_shortens_long_fields() {
    let row = message_row(&sample(), ALL);
    assert_eq!(
        texts(&row),
        vec!["SUCCESS", "1", "5", "0xaaaa1111...", "0xhash...", "100", "2", "0xbbbb...", ""]
    );
}

#[test]
fn full_row_styles_only_the_status() {
    for mode in [ALL, VERBOSE, ALL_VERBOSE] {
        let row = message_row(&sample(), mode);
        let mut expected = vec![CellStyle::Plain; 9];
        expected[0] = CellStyle::Foreground(StatusColor::Green);
        assert_eq!(styles(&row), expected);
    }
}

#[test]
fn row_shows_the_destination_transaction() {
    let mut message = sample();
    message.dst_tx_error = Some(String::from("revert"));
    assert_eq!(message_row(&message, VERBOSE)[8].text, "Error!");
    message.dst_tx_hash = Some(String::from("0xdef0123456789abcdef"));
    assert_eq!(message_row(&message, VERBOSE)[8].text, "0xdef0123456789abcdef");
    assert_eq!(message_row(&message, ALL)[8].text, "0xdef0123456789abcdef");
}

#[test]
fn block_number_is_never_shortened() {
    let mut message = sample();
    message.src_block_number = String::from("123456789012345678901234567890");
    assert_eq!(message_row(&message, ALL)[5].text, "123456789012345678901234567890");
}

#[test]
fn numbers_are_written_in_decimal() {
    let mut message = sample();
    message.src_chain_id = u32::MAX;
    message.dst_chain_id = 10102;
    message.src_ua_nonce = u128::MAX;
    let row = message_row(&message, VERBOSE);
    assert_eq!(row[1].text, "4294967295");
    assert_eq!(row[2].text, "340282366920938463463374607431768211455");
    assert_eq!(row[6].text, "10102");
    let compact = message_row(&message, COMPACT);
    assert_eq!(
        texts(&compact),
        vec!["SUCCESS", "10102", "340282366920938463463374607431768211455"]
    );
}

#[test]
fn status_cell_takes_the_colour_of_the_status() {
    let mut message = sample();
    for (status, color) in [
        ("INFLIGHT", StatusColor::Yellow),
        ("SUCCESS", StatusColor::Green),
        ("DELIVERED", StatusColor::Green),
        ("STORED", StatusColor::Red),
        ("FAILED", StatusColor::White),
        ("", StatusColor::White),
    ] {
        message.status = String::from(status);
        for mode in [COMPACT, ALL, VERBOSE] {
            let row = message_row(&message, mode);
            assert_eq!(row[0].text, status);
            assert_eq!(row[0].style, CellStyle::Foreground(color));
        }
    }
}

#[test]
fn colour_leaves_the_other_cells_alone() {
    let mut message = sample();
    let green = message_row(&message, ALL);
    message.status = String::from("STORED");
    let red = message_row(&message, ALL);
    assert_eq!(green[1..], red[1..]);
}

#[test]
fn rows_follow_the_order_of_the_messages() {
    let mut messages = Vec::new();
    for nonce in [7u128, 3, 9, 3, 1] {
        let mut message = sample();
        message.src_ua_nonce = nonce;
        messages.push(message);
    }
    let rows = MessageList { messages }.rows(COMPACT);
    assert_eq!(rows.len(), 6);
    assert_eq!(rows[0], header_row(COMPACT));
    let nonces: Vec<&str> = rows[1..].iter().map(|row| row[2].text.as_str()).collect();
    assert_eq!(nonces, vec!["7", "3", "9", "3", "1"]);
}

#[test]
fn empty_list_gives_only_the_header() {
    let list = MessageList { messages: Vec::new() };
    assert_eq!(list.rows(COMPACT), vec![header_row(COMPACT)]);
    assert_eq!(list.rows(VERBOSE), vec![header_row(VERBOSE)]);
}

#[test]
fn every_row_has_one_cell_per_column() {
    let list = MessageList { messages: vec![sample(), sample(), sample()] };
    for (mode, width) in [(COMPACT, 3), (ALL, 9), (VERBOSE, 9), (ALL_VERBOSE, 9)] {
        assert_eq!(mode.column_list().len(), width);
        for row in list.rows(mode) {
            assert_eq!(row.len(), width);
        }
    }
}

#[test]
fn message_cell_of_each_column() {
    let mut message = sample();
    message.dst_tx_hash = Some(String::from("0xdef"));
    let cell = |column: Column, long: bool| column.message_cell(&message, long).text;
    assert_eq!(cell(Column::Status, false), "SUCCESS");
    assert_eq!(cell(Column::SrcChainId, false), "1");
    assert_eq!(cell(Column::SrcUaNonce, false), "5");
    assert_eq!(cell(Column::SrcUaAddress, false), "0xaaaa1111...");
    assert_eq!(cell(Column::SrcUaAddress, true), "0xaaaa111122223333");
    assert_eq!(cell(Column::SrcBlockHash, false), "0xhash...");
    assert_eq!(cell(Column::SrcBlockHash, true), "0xhash");
    assert_eq!(cell(Column::SrcBlockNumber, false), "100");
    assert_eq!(cell(Column::DstChainId, false), "2");
    assert_eq!(cell(Column::DstUaAddress, false), "0xbbbb...");
    assert_eq!(cell(Column::DstUaAddress, true), "0xbbbb");
    assert_eq!(cell(Column::DstTx, false), "0xdef");
}
