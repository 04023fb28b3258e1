pub mod args;
pub mod config;
pub mod error;
pub mod state;
pub mod track;

pub use args::Action;
pub use args::Args;
pub use args::Plan;
pub use config::DisplayConfig;
pub use config::DisplayConfigView;
pub use config::DEFAULT_NUM_BLOCKS;
pub use config::MAX_NUM_BLOCKS;
pub use config::MIN_NUM_BLOCKS;
pub use error::TomoError;
pub use state::SessionState;
pub use track::get_progress_bar;
pub use track::render_spec;
