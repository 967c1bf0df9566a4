pub mod job_context;
pub mod rate_limit;
pub mod run_actions;
pub mod run_display;
pub mod run_loading;
pub mod state;
pub mod workflow_list;
pub mod workflow_run;

pub use rate_limit::rate_limit_label_text;
pub use workflow_run::{is_run_active, is_run_failure};
