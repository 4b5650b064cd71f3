//! Rendering of saved dashboards into mailable artifacts: the rules that
//! decide what a report request does, step by step, stated and proved.
//!
//! A request names a dashboard, a time range, a format and the recipients of
//! a mail. A headless browser logs in, opens the dashboard, waits for its
//! data and captures the page; the capture is mailed, or, where nobody is to
//! receive it, thrown away once the server's cache is warm.
//!
//! Nothing in this library touches a browser, a clock or a mail server. The
//! [`orchestrator`] says what is to be done next and is told what came of
//! it; [`timerange`] and [`url`] derive the links, [`email`] composes the
//! mail and [`mail`] assembles the message, [`router`] decides which
//! requests are turned away, and [`config`], [`launch`], [`capture`] and
//! [`cli`] hold what follows from the settings and the command line.

pub mod capture;
pub mod cli;
pub mod config;
pub mod decimal;
pub mod email;
pub mod launch;
pub mod mail;
pub mod orchestrator;
pub mod report;
pub mod router;
pub mod timerange;
pub mod url;

pub use report::{
    default_attachment_type, default_report_type, EmailAttachmentType, EmailDetails, Report,
    ReportAttachmentDimensions, ReportDashboard, ReportDashboardVariable, ReportTimerange,
    ReportTimerangeType, ReportType, TimeRange,
};
