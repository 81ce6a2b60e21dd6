//! Rule-matching and finding-aggregation engine for scanning smart-contract
//! sources against a catalog of textual patterns.

pub mod lines;
pub mod report;
pub mod rules;
pub mod scan;
pub mod text;

pub use lines::line_from_bytes;
pub use report::{is_relevant, relevant_indices, render_section};
pub use rules::{gas_op_issues, low_issues, non_critical_issues, RulesDataBase};
pub use scan::{analyzing, collect_locations, first_invalid_pattern, ScanError};
pub use text::{decimal_string, has_solidity_extension, format_location, is_comment_match, starts_with_slash};
