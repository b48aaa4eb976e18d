//! Report formats and the report record.
use vstd::prelude::*;

verus! {

/// Output format for reports.
#[derive(Debug, Clone, Copy, PartialEq, Eq, Structural)]
pub enum ReportFormat {
    Markdown,
    Json,
    Text,
}

impl Default for ReportFormat {
    fn default() -> (f: Self)
        ensures
            f == ReportFormat::Markdown,
    {
        ReportFormat::Markdown
    }
}

/// A generated research report.
#[derive(Debug, Clone)]
pub struct Report {
    pub title: String,
    pub format: String,
    pub content: String,
    pub timestamp: String,
    pub word_count: usize,
}

/// Generates formatted research reports.
pub struct Reporter {
    format: ReportFormat,
}

impl Reporter {
    /// The format reports are written in.
    pub closed spec fn format_view(&self) -> ReportFormat {
        self.format
    }

    pub fn new(format: ReportFormat) -> (r: Self)
        ensures
            r.format_view() == format,
    {
        Reporter { format }
    }

    pub fn format(&self) -> (f: ReportFormat)
        ensures
            f == self.format_view(),
    {
        self.format
    }
}

} // verus!
