//! The addresses that a rendering visits, and the link that the mail carries.
//!
//! The browser opens a dashboard by the name of its period, so that the web
//! application decides what "now" is. The mail carries the two instants that
//! the period stood for when the report was made, so that the link shows the
//! same data later. Fixed bounds are written as they are in both.

use crate::decimal::{decimal, push_i64};
use crate::report::{
    ReportDashboard, ReportDashboardVariable, ReportTimerangeType, ReportType, TimeRange,
};
use crate::timerange::{resolve, resolved, TimeRangeError};
use vstd::prelude::*;
use vstd::string::*;

verus! {

/// Why a dashboard has no links.
#[derive(Clone, Copy, Debug, PartialEq, Eq, Structural)]
pub enum LinkError {
    /// The dashboard names no tab.
    MissingTab,
    /// Its time range has no bounds.
    TimeRange(TimeRangeError),
}

/// The two links of a dashboard.
#[derive(Clone, Debug, PartialEq, Eq)]
pub struct DashboardLinks {
    /// What the browser opens.
    pub rendering: String,
    /// What the mail carries.
    pub email: String,
}

/// The address of the login page.
pub open spec fn login_link(web_url: Seq<char>) -> Seq<char> {
    web_url + "/login?login_as_internal_user=true"@
}

/// The address that selects an organization.
pub open spec fn organization_link(web_url: Seq<char>, org_id: Seq<char>) -> Seq<char> {
    web_url + "/?org_identifier="@ + org_id
}

/// The mode that a rendering announces to the web application: warming the
/// cache looks like a person at the screen, anything else like a report.
pub open spec fn search_type(report_type: ReportType) -> Seq<char> {
    if report_type == ReportType::Cache {
        "ui"@
    } else {
        "reports"@
    }
}

/// One `&var-<key>=<value>` for each variable, in the order of the request.
pub open spec fn variables_query(variables: Seq<ReportDashboardVariable>) -> Seq<char>
    decreases variables.len(),
{
    if variables.len() == 0 {
        Seq::<char>::empty()
    } else {
        variables_query(variables.drop_last()) + "&var-"@ + variables.last().key@ + "="@
            + variables.last().value@
    }
}

/// A link up to the point where the time range goes: the view of the first
/// tab of the dashboard, with automatic refresh switched off.
pub open spec fn link_head(
    dashboard: ReportDashboard,
    org_id: Seq<char>,
    web_url: Seq<char>,
) -> Seq<char> {
    web_url + "/dashboards/view?org_identifier="@ + org_id + "&dashboard="@ + dashboard.dashboard@
        + "&folder="@ + dashboard.folder@ + "&tab="@ + dashboard.tabs@[0]@ + "&refresh=Off"@
}

/// A link behind the time range: the time zone, no dynamic filters, the print
/// layout, and the variables.
pub open spec fn link_tail(dashboard: ReportDashboard, timezone: Seq<char>) -> Seq<char> {
    "&timezone="@ + timezone + "&var-Dynamic+filters=%255B%255D&print=true"@ + variables_query(
        dashboard.variables@,
    )
}

/// Two instants as a link carries them.
pub open spec fn bounds_query(from: int, to: int) -> Seq<char> {
    "&from="@ + decimal(from) + "&to="@ + decimal(to)
}

/// The mode as a link carries it.
pub open spec fn mode_query(report_type: ReportType) -> Seq<char> {
    "&searchtype="@ + search_type(report_type)
}

/// The link that the browser opens.
pub open spec fn rendering_link(
    dashboard: ReportDashboard,
    org_id: Seq<char>,
    web_url: Seq<char>,
    timezone: Seq<char>,
    report_type: ReportType,
) -> Seq<char> {
    link_head(dashboard, org_id, web_url) + mode_query(report_type) + match dashboard.timerange@ {
        TimeRange::Relative { period } => "&period="@ + period,
        TimeRange::Absolute { from, to } => bounds_query(from, to),
    } + link_tail(dashboard, timezone)
}

/// The link that the mail carries, for data between `start` and `end`.
pub open spec fn email_link(
    dashboard: ReportDashboard,
    org_id: Seq<char>,
    web_url: Seq<char>,
    timezone: Seq<char>,
    report_type: ReportType,
    start: int,
    end: int,
) -> Seq<char> {
    link_head(dashboard, org_id, web_url) + match dashboard.timerange@ {
        TimeRange::Relative { .. } => Seq::<char>::empty(),
        TimeRange::Absolute { .. } => mode_query(report_type),
    } + bounds_query(start, end) + link_tail(dashboard, timezone)
}

/// Both links of a dashboard at the instant `now`, or why it has none.
pub open spec fn links(
    dashboard: ReportDashboard,
    org_id: Seq<char>,
    web_url: Seq<char>,
    timezone: Seq<char>,
    report_type: ReportType,
    now: int,
) -> Result<(Seq<char>, Seq<char>), LinkError> {
    if dashboard.tabs@.len() == 0 {
        Err(LinkError::MissingTab)
    } else {
        match resolved(dashboard.timerange@, now) {
            Err(e) => Err(LinkError::TimeRange(e)),
            Ok((start, end)) => Ok(
                (
                    rendering_link(dashboard, org_id, web_url, timezone, report_type),
                    email_link(dashboard, org_id, web_url, timezone, report_type, start, end),
                ),
            ),
        }
    }
}

/// The address of the login page of the web application at `web_url`.
pub fn login_url(web_url: &str) -> (url: String)
    ensures
        url@ == login_link(web_url@),
{
    let mut url = String::new();
    url.append(web_url);
    url.append("/login?login_as_internal_user=true");
    url
}

/// The address that selects the organization `org_id`.
pub fn organization_url(web_url: &str, org_id: &str) -> (url: String)
    ensures
        url@ == organization_link(web_url@, org_id@),
{
    let mut url = String::new();
    url.append(web_url);
    url.append("/?org_identifier=");
    url.append(org_id);
    url
}

/// The mode that a rendering of `report_type` announces.
pub fn search_type_of(report_type: ReportType) -> (mode: &'static str)
    ensures
        mode@ == search_type(report_type),
{
    match report_type {
        ReportType::Cache => "ui",
        _ => "reports",
    }
}

fn push_variables(out: &mut String, variables: &Vec<ReportDashboardVariable>)
    ensures
        final(out)@ == old(out)@ + variables_query(variables@),
{
    let mut i: usize = 0;
    while i < variables.len()
        invariant
            0 <= i <= variables.len(),
            out@ == old(out)@ + variables_query(variables@.take(i as int)),
        decreases variables.len() - i,
    {
        out.append("&var-");
        out.append(variables[i].key.as_str());
        out.append("=");
        out.append(variables[i].value.as_str());
        proof {
            let longer = variables@.take(i + 1);
            assert(longer.drop_last() =~= variables@.take(i as int));
        }
        i += 1;
    }
    assert(variables@.take(variables.len() as int) =~= variables@);
}

fn push_head(out: &mut String, dashboard: &ReportDashboard, org_id: &str, web_url: &str)
    requires
        dashboard.tabs@.len() > 0,
    ensures
        final(out)@ == old(out)@ + link_head(*dashboard, org_id@, web_url@),
{
    out.append(web_url);
    out.append("/dashboards/view?org_identifier=");
    out.append(org_id);
    out.append("&dashboard=");
    out.append(dashboard.dashboard.as_str());
    out.append("&folder=");
    out.append(dashboard.folder.as_str());
    out.append("&tab=");
    out.append(dashboard.tabs[0].as_str());
    out.append("&refresh=Off");
}

fn push_tail(out: &mut String, dashboard: &ReportDashboard, timezone: &str)
    ensures
        final(out)@ == old(out)@ + link_tail(*dashboard, timezone@),
{
    out.append("&timezone=");
    out.append(timezone);
    out.append("&var-Dynamic+filters=%255B%255D&print=true");
    push_variables(out, &dashboard.variables);
}

fn push_bounds(out: &mut String, from: i64, to: i64)
    ensures
        final(out)@ == old(out)@ + bounds_query(from as int, to as int),
{
    out.append("&from=");
    push_i64(out, from);
    out.append("&to=");
    push_i64(out, to);
}

fn push_mode(out: &mut String, report_type: ReportType)
    ensures
        final(out)@ == old(out)@ + mode_query(report_type),
{
    out.append("&searchtype=");
    out.append(search_type_of(report_type));
}

/// The link that the browser opens and the link that the mail carries, for
/// the first tab of `dashboard` at the instant `now`.
pub fn dashboard_links(
    dashboard: &ReportDashboard,
    org_id: &str,
    web_url: &str,
    timezone: &str,
    report_type: ReportType,
    now: i64,
) -> (r: Result<DashboardLinks, LinkError>)
    ensures
        match links(*dashboard, org_id@, web_url@, timezone@, report_type, now as int) {
            Ok((rendering, email)) => r is Ok && r->Ok_0.rendering@ == rendering && r->Ok_0.email@
                == email,
            Err(e) => r == Err::<DashboardLinks, LinkError>(e),
        },
{
    if dashboard.tabs.len() == 0 {
        return Err(LinkError::MissingTab);
    }
    let window = match resolve(&dashboard.timerange, now) {
        Ok(window) => window,
        Err(e) => {
            return Err(LinkError::TimeRange(e));
        },
    };
    let relative = match dashboard.timerange.range_type {
        ReportTimerangeType::Relative => true,
        ReportTimerangeType::Absolute => false,
    };
    let mut rendering = String::new();
    push_head(&mut rendering, dashboard, org_id, web_url);
    push_mode(&mut rendering, report_type);
    if relative {
        rendering.append("&period=");
        rendering.append(dashboard.timerange.period.as_str());
    } else {
        push_bounds(&mut rendering, dashboard.timerange.from, dashboard.timerange.to);
    }
    push_tail(&mut rendering, dashboard, timezone);
    let mut email = String::new();
    push_head(&mut email, dashboard, org_id, web_url);
    if !relative {
        push_mode(&mut email, report_type);
    }
    push_bounds(&mut email, window.start, window.end);
    push_tail(&mut email, dashboard, timezone);
    Ok(DashboardLinks { rendering, email })
}

/// For fixed bounds the browser and the mail get one and the same link, and
/// it carries the two bounds as the request wrote them.
pub proof fn lemma_absolute_links_verbatim(
    dashboard: ReportDashboard,
    org_id: Seq<char>,
    web_url: Seq<char>,
    timezone: Seq<char>,
    report_type: ReportType,
    now: int,
)
    requires
        dashboard.tabs@.len() > 0,
        dashboard.timerange@ is Absolute,
    ensures
        links(dashboard, org_id, web_url, timezone, report_type, now) == Ok::<
            (Seq<char>, Seq<char>),
            LinkError,
        >(
            (
                rendering_link(dashboard, org_id, web_url, timezone, report_type),
                rendering_link(dashboard, org_id, web_url, timezone, report_type),
            ),
        ),
        rendering_link(dashboard, org_id, web_url, timezone, report_type) == link_head(
            dashboard,
            org_id,
            web_url,
        ) + mode_query(report_type) + ("&from="@ + decimal(dashboard.timerange.from as int)
            + "&to="@ + decimal(dashboard.timerange.to as int)) + link_tail(dashboard, timezone),
{
}

/// For a period the browser's link names the period itself, and the mail's
/// link carries the instants at which it started and ended.
pub proof fn lemma_relative_links(
    dashboard: ReportDashboard,
    org_id: Seq<char>,
    web_url: Seq<char>,
    timezone: Seq<char>,
    report_type: ReportType,
    now: int,
)
    requires
        dashboard.tabs@.len() > 0,
        dashboard.timerange@ is Relative,
        resolved(dashboard.timerange@, now) is Ok,
    ensures
        ({
            let window = resolved(dashboard.timerange@, now)->Ok_0;
            links(dashboard, org_id, web_url, timezone, report_type, now) == Ok::<
                (Seq<char>, Seq<char>),
                LinkError,
            >(
                (
                    link_head(dashboard, org_id, web_url) + mode_query(report_type) + ("&period="@
                        + dashboard.timerange.period@) + link_tail(dashboard, timezone),
                    link_head(dashboard, org_id, web_url) + bounds_query(window.0, now)
                        + link_tail(dashboard, timezone),
                ),
            )
        }),
{
}

} // verus!
