//! Result aggregation and output rendering for a monitoring check plugin.
//!
//! Findings (a severity, optional texts, an optional measurement) are
//! gathered into a [`Collection`], which computes the worst severity, renders
//! the plugin output and gives the process exit code.

pub mod check_result;
pub mod checker;
pub mod collection;
pub mod laws;
pub mod levels;
pub mod metric;
pub mod numeric;
pub mod render;
pub mod state;

pub use check_result::{as_option, CheckResult, SimpleCheckResult};
pub use checker::{InvalidLevels, LevelsChecker, LevelsCheckerArgs, OutputType};
pub use collection::{exit_code, Collection, Details, Summary, TaggedText};
pub use levels::{Bounds, Levels, LevelsStrategy};
pub use metric::{Metric, MetricBuilder, Uom};
pub use numeric::Real;
pub use render::{LevelValue, Render};
pub use state::State;
