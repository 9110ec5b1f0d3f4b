pub mod errors;
pub mod matcher;
pub mod scan;

pub use errors::GrepLiteError;
pub use matcher::Matcher;
pub use matcher::pattern_valid;
pub use matcher::regex_matches;
pub use scan::grep_lines;
pub use scan::line_views;
pub use scan::matching_lines;
pub use scan::scan_lines;
