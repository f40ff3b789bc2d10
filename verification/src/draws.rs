//! Where the values that chance and the clock provide come from. Each predicate here
//! holds of what one draw returned, and its definition is closed to the rest of the
//! crate: the contract of the draw is what grants it, so no value that some other
//! code made up can be shown to have been drawn.

use vstd::prelude::*;
use crate::auth_service::is_uuid_v4_text;

verus! {

/// A text that the random UUID source returned (`new_uuid_v4_text`): a version-4
/// UUID in lower-case hyphenated form.
pub closed spec fn is_drawn_uuid_text(s: Seq<char>) -> bool {
    is_uuid_v4_text(s)
}

/// A drawn UUID text is a version-4 UUID text.
pub proof fn lemma_drawn_uuid_is_uuid_text(s: Seq<char>)
    requires
        is_drawn_uuid_text(s),
    ensures
        is_uuid_v4_text(s),
{
}

/// Bytes that the operating system's random source returned (`os_random_32_bytes`):
/// 32 of them.
pub closed spec fn is_drawn_os_bytes(b: Seq<u8>) -> bool {
    b.len() == 32
}

/// Drawn random bytes are 32 bytes.
pub proof fn lemma_drawn_os_bytes_len(b: Seq<u8>)
    requires
        is_drawn_os_bytes(b),
    ensures
        b.len() == 32,
{
}

/// A year that the UTC clock reported (`current_utc_year`): one of the years that
/// chrono's dates can hold.
pub closed spec fn is_clock_year(y: i32) -> bool {
    -262143 <= y <= 262142
}

/// A year the clock reported lies in chrono's range of years.
pub proof fn lemma_clock_year_range(y: i32)
    requires
        is_clock_year(y),
    ensures
        -262143 <= y <= 262142,
{
}

} // verus!
