//! Helpers for load tests of Drupal sites: extracting forms and form values
//! from HTML, describing a log-in, and the decisions of a log-in run.

pub mod drupal;
pub mod pattern;
