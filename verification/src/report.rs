//! Two-part reports for the operator: a short title and a detail.

use vstd::prelude::*;

verus! {

/// What a [`Report`] holds, as sequences of characters.
pub struct ReportView {
    pub title: Seq<char>,
    pub detail: Seq<char>,
}

/// A failure rendered for direct display: a short title and the detail,
/// which carries the underlying cause.
#[derive(Clone, Debug, PartialEq, Eq)]
pub struct Report {
    title: String,
    detail: String,
}

impl View for Report {
    type V = ReportView;

    closed spec fn view(&self) -> ReportView {
        ReportView { title: self.title@, detail: self.detail@ }
    }
}

impl Report {
    /// A report of an error with the given title and detail.
    pub fn error(title: String, detail: String) -> (res: Report)
        ensures
            res@ == (ReportView { title: title@, detail: detail@ }),
    {
        Report { title, detail }
    }

    /// The short title.
    pub fn title(&self) -> (res: &str)
        ensures
            res@ == self@.title,
    {
        self.title.as_str()
    }

    /// The detail, with the underlying cause.
    pub fn detail(&self) -> (res: &str)
        ensures
            res@ == self@.detail,
    {
        self.detail.as_str()
    }
}

} // verus!
