pub mod budgets;
pub mod code;
pub mod decision;
pub mod laws;
pub mod meaning;
pub mod process_tree;
pub mod quality;
pub mod reporting;
pub mod state;
pub mod token;
pub mod tracking;
pub mod usage;

pub use budgets::Budgets;
pub use code::QualityCode;
pub use decision::{decide, Decision, Reading, RESTORE_CHECK_TICKS};
pub use quality::RecordingQuality;
pub use state::{ConservationState, Tick};
pub use token::ResourceToken;
pub use tracking::{Phase, Quantity};
pub use usage::{measure_tree, ProcessSample, Usage};
