//! The colour that tags a message's delivery status.

use crate::text::str_eq;
use vstd::prelude::*;

verus! {

/// Terminal colours a status can be shown in.
#[derive(Clone, Copy, Debug, PartialEq, Eq, Structural)]
pub enum StatusColor {
    Yellow,
    Green,
    Red,
    White,
}

/// The colour of a status: yellow while the message is in flight, green once it
/// succeeded or was delivered, red when it was stored for a retry, and white for
/// any status this table does not know.
pub open spec fn color_of(status: Seq<char>) -> StatusColor {
    if status == "INFLIGHT"@ {
        StatusColor::Yellow
    } else if status == "SUCCESS"@ || status == "DELIVERED"@ {
        StatusColor::Green
    } else if status == "STORED"@ {
        StatusColor::Red
    } else {
        StatusColor::White
    }
}

/// Picks the colour for `status`. The match is exact and case-sensitive.
pub fn status_color(status: &str) -> (color: StatusColor)
    ensures
        color == color_of(status@),
{
    if str_eq(status, "INFLIGHT") {
        StatusColor::Yellow
    } else if str_eq(status, "SUCCESS") || str_eq(status, "DELIVERED") {
        StatusColor::Green
    } else if str_eq(status, "STORED") {
        StatusColor::Red
    } else {
        StatusColor::White
    }
}

/// Each colour belongs to exactly the statuses listed for it: yellow to
/// `INFLIGHT`, green to `SUCCESS` and `DELIVERED`, red to `STORED`, and white to
/// every other string.
pub proof fn lemma_color_table(status: Seq<char>)
    ensures
        color_of(status) == StatusColor::Yellow <==> status == "INFLIGHT"@,
        color_of(status) == StatusColor::Green <==> status == "SUCCESS"@ || status
            == "DELIVERED"@,
        color_of(status) == StatusColor::Red <==> status == "STORED"@,
        color_of(status) == StatusColor::White <==> status != "INFLIGHT"@ && status != "SUCCESS"@
            && status != "DELIVERED"@ && status != "STORED"@,
{
    reveal_strlit("INFLIGHT");
    reveal_strlit("SUCCESS");
    reveal_strlit("DELIVERED");
    reveal_strlit("STORED");
    assert("INFLIGHT"@.len() == 8);
    assert("SUCCESS"@.len() == 7);
    assert("DELIVERED"@.len() == 9);
    assert("STORED"@.len() == 6);
}

} // verus!
