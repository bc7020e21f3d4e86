use vstd::prelude::*;

verus! {

/// The left and right padding that centres a text of `text_len` columns in
/// a region `width` columns wide. The text must fit the region.
pub fn center_padding(width: u16, text_len: u16) -> (r: u16)
    requires
        text_len <= width,
    ensures
        r == (width - text_len) / 2,
{
    (width - text_len) / 2
}

} // verus!
