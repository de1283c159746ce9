//! What the platform's tools report when a stage fails.

use vstd::prelude::*;
use crate::report::{Report, ReportView};

verus! {

/// What a [`PlatformError`] holds, as sequences of characters.
pub struct PlatformErrorView {
    pub message: Seq<char>,
    pub title: Seq<char>,
    pub detail: Seq<char>,
}

/// The diagnostic of a stage that failed: its one-line message, and the
/// title and detail of its report.
#[derive(Clone, Debug, PartialEq, Eq)]
pub struct PlatformError {
    message: String,
    title: String,
    detail: String,
}

impl View for PlatformError {
    type V = PlatformErrorView;

    closed spec fn view(&self) -> PlatformErrorView {
        PlatformErrorView { message: self.message@, title: self.title@, detail: self.detail@ }
    }
}

impl PlatformError {
    /// A stage failure with the given message and report.
    pub fn new(message: String, title: String, detail: String) -> (res: PlatformError)
        ensures
            res@ == (PlatformErrorView { message: message@, title: title@, detail: detail@ }),
    {
        PlatformError { message, title, detail }
    }

    /// The one-line message.
    pub fn message(&self) -> (res: String)
        ensures
            res@ == self@.message,
    {
        self.message.clone()
    }

    /// The report: title and detail as the stage gave them.
    pub fn report(&self) -> (res: Report)
        ensures
            res@ == (ReportView { title: self@.title, detail: self@.detail }),
    {
        Report::error(self.title.clone(), self.detail.clone())
    }
}

} // verus!
