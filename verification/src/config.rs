use vstd::prelude::*;

verus! {

/// Default number of blocks in the progress bar.
pub const DEFAULT_NUM_BLOCKS: u8 = 10;

/// Smallest block count the renderer accepts.
pub const MIN_NUM_BLOCKS: u8 = 3;

/// Largest block count the renderer accepts.
pub const MAX_NUM_BLOCKS: u8 = 100;

/// Whether a block count lies in the accepted range.
pub open spec fn num_blocks_in_range(n: int) -> bool {
    MIN_NUM_BLOCKS <= n <= MAX_NUM_BLOCKS
}

/// Display settings for one rendering of the progress bar.
pub struct DisplayConfig {
    pub pending_block: String,
    pub complete_block: String,
    pub left_pad: String,
    pub right_pad: String,
    pub delimiter: String,
    pub num_blocks: u8,
    pub finished_msg: String,
    pub break_msg: String,
}

/// The mathematical content of a `DisplayConfig`: each string as its
/// character sequence, the block count as an unbounded integer.
pub struct DisplayConfigView {
    pub pending_block: Seq<char>,
    pub complete_block: Seq<char>,
    pub left_pad: Seq<char>,
    pub right_pad: Seq<char>,
    pub delimiter: Seq<char>,
    pub num_blocks: int,
    pub finished_msg: Seq<char>,
    pub break_msg: Seq<char>,
}

impl DisplayConfigView {
    /// A configuration is well formed when its block count is in range.
    pub open spec fn wf(self) -> bool {
        num_blocks_in_range(self.num_blocks)
    }
}

impl View for DisplayConfig {
    type V = DisplayConfigView;

    open spec fn view(&self) -> DisplayConfigView {
        DisplayConfigView {
            pending_block: self.pending_block@,
            complete_block: self.complete_block@,
            left_pad: self.left_pad@,
            right_pad: self.right_pad@,
            delimiter: self.delimiter@,
            num_blocks: self.num_blocks as int,
            finished_msg: self.finished_msg@,
            break_msg: self.break_msg@,
        }
    }
}

/// The default configuration: small square glyphs, one space of padding on
/// each side, no delimiter, ten blocks.
pub open spec fn default_config_view() -> DisplayConfigView {
    DisplayConfigView {
        pending_block: "\u{25ab}"@,
        complete_block: "\u{25aa}"@,
        left_pad: " "@,
        right_pad: " "@,
        delimiter: ""@,
        num_blocks: DEFAULT_NUM_BLOCKS as int,
        finished_msg: "done"@,
        break_msg: "\\o/"@,
    }
}

impl Default for DisplayConfig {
    /// Builds the default configuration.
    fn default() -> (r: DisplayConfig)
        ensures
            r@ == default_config_view(),
            r@.wf(),
    {
        DisplayConfig {
            pending_block: String::from_str("\u{25ab}"),
            complete_block: String::from_str("\u{25aa}"),
            left_pad: String::from_str(" "),
            right_pad: String::from_str(" "),
            delimiter: String::from_str(""),
            num_blocks: DEFAULT_NUM_BLOCKS,
            finished_msg: String::from_str("done"),
            break_msg: String::from_str("\\o/"),
        }
    }
}

} // verus!
