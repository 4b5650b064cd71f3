//! What a report request says: which dashboard to render, over which time
//! range, in which format, and to whom the result is mailed.

use vstd::prelude::*;

verus! {

/// The artifact that a rendering produces.
#[derive(Clone, Copy, Debug, PartialEq, Eq, Structural)]
pub enum ReportType {
    /// A landscape PDF of the whole page.
    PDF,
    /// Nothing: the dashboard is rendered only to warm the server's cache, and
    /// nothing is mailed.
    Cache,
    /// A raster screenshot.
    PNG,
}

/// How the artifact travels in the mail.
#[derive(Clone, Copy, Debug, PartialEq, Eq, Structural)]
pub enum EmailAttachmentType {
    /// A file that the reader downloads and opens.
    Standard,
    /// An image shown in the body of the mail.
    Inline,
}

/// The format of a dashboard that names none.
pub fn default_report_type() -> (t: ReportType)
    ensures
        t == ReportType::PDF,
{
    ReportType::PDF
}

/// The disposition of a dashboard that names none.
pub fn default_attachment_type() -> (t: EmailAttachmentType)
    ensures
        t == EmailAttachmentType::Standard,
{
    EmailAttachmentType::Standard
}

/// The size of the browser window in which a dashboard is captured. Wide
/// reports and tall two-column tables want different shapes.
#[derive(Clone, Copy, Debug, PartialEq, Eq, Structural)]
pub struct ReportAttachmentDimensions {
    pub height: u32,
    pub width: u32,
}

impl ReportAttachmentDimensions {
    /// The size of a dashboard that names none: that of the configured
    /// window, width for width and height for height.
    pub fn from_window(window_width: u32, window_height: u32) -> (d: Self)
        ensures
            d.width == window_width,
            d.height == window_height,
    {
        ReportAttachmentDimensions { height: window_height, width: window_width }
    }
}

/// To whom a report goes and what the mail says.
#[derive(Clone, Debug)]
pub struct EmailDetails {
    pub recipients: Vec<String>,
    pub title: String,
    pub name: String,
    pub message: String,
    /// The address of the web application. Once a report is rendered, the
    /// mail carries the link to the dashboard in its place.
    pub dashb_url: String,
}

/// A report request: dashboards and the mail that carries them.
#[derive(Clone, Debug)]
pub struct Report {
    pub dashboards: Vec<ReportDashboard>,
    pub email_details: EmailDetails,
}

/// One dashboard of a report. Of its tabs only the first is rendered.
#[derive(Clone, Debug)]
pub struct ReportDashboard {
    pub dashboard: String,
    pub folder: String,
    pub tabs: Vec<String>,
    pub variables: Vec<ReportDashboardVariable>,
    pub timerange: ReportTimerange,
    pub report_type: ReportType,
    pub email_attachment_type: EmailAttachmentType,
    pub attachment_dimensions: ReportAttachmentDimensions,
}

/// A display variable of a dashboard.
#[derive(Clone, Debug)]
pub struct ReportDashboardVariable {
    pub key: String,
    pub value: String,
    pub id: Option<String>,
}

/// Which of the two forms a time range has.
#[derive(Clone, Copy, Debug, PartialEq, Eq, Structural)]
pub enum ReportTimerangeType {
    Relative,
    Absolute,
}

impl Default for ReportTimerangeType {
    fn default() -> (t: Self)
        ensures
            t == ReportTimerangeType::Relative,
    {
        ReportTimerangeType::Relative
    }
}

/// The time range of a dashboard's data as a request carries it: the form,
/// and the fields of both forms, of which only those of `range_type` count.
#[derive(Clone, Debug)]
pub struct ReportTimerange {
    pub range_type: ReportTimerangeType,
    /// A magnitude and a unit letter, such as `15m` or `4M`. Relative only.
    pub period: String,
    /// Microseconds since the epoch. Absolute only.
    pub from: i64,
    /// Microseconds since the epoch. Absolute only.
    pub to: i64,
}

/// A time range as the rules see it: either a period that ends now, or two
/// fixed bounds in microseconds since the epoch.
pub enum TimeRange {
    Relative { period: Seq<char> },
    Absolute { from: int, to: int },
}

impl View for ReportTimerange {
    type V = TimeRange;

    open spec fn view(&self) -> TimeRange {
        match self.range_type {
            ReportTimerangeType::Relative => TimeRange::Relative { period: self.period@ },
            ReportTimerangeType::Absolute => TimeRange::Absolute {
                from: self.from as int,
                to: self.to as int,
            },
        }
    }
}

impl Default for ReportTimerange {
    /// The last week.
    fn default() -> (r: Self)
        ensures
            r@ == (TimeRange::Relative { period: "1w"@ }),
            r.from == 0,
            r.to == 0,
    {
        ReportTimerange {
            range_type: ReportTimerangeType::Relative,
            period: "1w".to_owned(),
            from: 0,
            to: 0,
        }
    }
}

} // verus!
