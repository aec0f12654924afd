//! Generation of standard open-source license headers.
//!
//! Four fixed license templates (MIT, Apache-2.0, BSD-2-Clause, BSD-3-Clause)
//! are rendered with a copyright holder name and a year, and a composer
//! prepends the rendered text -- each line wrapped in an optional comment
//! prefix and suffix -- onto existing file content.

pub mod compose;
pub mod license;
