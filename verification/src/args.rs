use vstd::prelude::*;

use crate::config::num_blocks_in_range;
use crate::config::DisplayConfig;
use crate::config::DisplayConfigView;
use crate::config::MAX_NUM_BLOCKS;
use crate::config::MIN_NUM_BLOCKS;
use crate::error::TomoError;
use crate::state::break_token;
use crate::state::encode_spec;
use crate::state::encode_state;
use crate::state::is_start_entry;
use crate::state::stop_token;
use crate::state::SessionState;
use crate::state::MAX_TIMESTAMP_SECS;

verus! {

/// Largest backdating, in minutes, that a start action accepts.
pub const ELAPSED_MINS_LIMIT: u8 = 20;

/// The subcommand chosen on the command line.
#[derive(Clone, Copy, Debug)]
pub enum Action {
    /// Start a pomodoro timer, with some minutes already counted as elapsed.
    Start { elapsed_mins: u8 },
    /// Stop the timer.
    Stop,
    /// Start a break.
    Break,
}

/// The parsed command line: an optional action, the display settings, and
/// an optional explicit data-file path.
pub struct Args {
    pub action: Option<Action>,
    pub pending_block: String,
    pub complete_block: String,
    pub left_pad: String,
    pub right_pad: String,
    pub delimiter: String,
    pub num_blocks: u8,
    pub finished_msg: String,
    pub break_msg: String,
    pub data_file: Option<String>,
}

/// The display configuration carried by a set of arguments.
pub open spec fn config_of_args(a: Args) -> DisplayConfigView {
    DisplayConfigView {
        pending_block: a.pending_block@,
        complete_block: a.complete_block@,
        left_pad: a.left_pad@,
        right_pad: a.right_pad@,
        delimiter: a.delimiter@,
        num_blocks: a.num_blocks as int,
        finished_msg: a.finished_msg@,
        break_msg: a.break_msg@,
    }
}

/// What one invocation must do once its arguments are validated:
/// overwrite the status file with the given contents, or read it and
/// show progress with the given configuration.
pub enum Plan {
    Write(String),
    Show(DisplayConfig),
}

/// Validates the arguments and decides what this invocation does, without
/// touching the outside world: a start action is rejected when its
/// backdating exceeds the limit, any action when the block count is out
/// of range, and the block count is checked first.
pub fn plan_invocation(args: Args, now_secs: i64) -> (r: Result<Plan, TomoError>)
    requires
        60 * ELAPSED_MINS_LIMIT <= now_secs <= MAX_TIMESTAMP_SECS,
    ensures
        !num_blocks_in_range(args.num_blocks as int) ==> r == Err::<Plan, TomoError>(
            TomoError::NumBlocksOutOfRange,
        ),
        num_blocks_in_range(args.num_blocks as int) ==> match args.action {
            None => r matches Ok(Plan::Show(c)) && c@ == config_of_args(args) && c@.wf(),
            Some(Action::Start { elapsed_mins }) => if elapsed_mins > ELAPSED_MINS_LIMIT {
                r == Err::<Plan, TomoError>(TomoError::ElapsedMinsTooLarge)
            } else {
                r matches Ok(Plan::Write(s)) && s@ == encode_spec(
                    SessionState::Running((now_secs - 60 * elapsed_mins) as i64),
                ) && is_start_entry(s@, now_secs - 60 * elapsed_mins)
            },
            Some(Action::Stop) => r matches Ok(Plan::Write(s)) && s@ == stop_token(),
            Some(Action::Break) => r matches Ok(Plan::Write(s)) && s@ == break_token(),
        },
{
    if args.num_blocks < MIN_NUM_BLOCKS || args.num_blocks > MAX_NUM_BLOCKS {
        return Err(TomoError::NumBlocksOutOfRange);
    }
    match args.action {
        Some(Action::Start { elapsed_mins }) => {
            if elapsed_mins > ELAPSED_MINS_LIMIT {
                return Err(TomoError::ElapsedMinsTooLarge);
            }
            let start: i64 = now_secs - 60 * (elapsed_mins as i64);
            Ok(Plan::Write(encode_state(&SessionState::Running(start))))
        },
        Some(Action::Stop) => Ok(Plan::Write(encode_state(&SessionState::Stopped))),
        Some(Action::Break) => Ok(Plan::Write(encode_state(&SessionState::OnBreak))),
        None => Ok(
            Plan::Show(
                DisplayConfig {
                    pending_block: args.pending_block,
                    complete_block: args.complete_block,
                    left_pad: args.left_pad,
                    right_pad: args.right_pad,
                    delimiter: args.delimiter,
                    num_blocks: args.num_blocks,
                    finished_msg: args.finished_msg,
                    break_msg: args.break_msg,
                },
            ),
        ),
    }
}

} // verus!
