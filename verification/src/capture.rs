//! Where a diagnostic screenshot is kept.

use crate::decimal::{decimal, push_i64};
use vstd::prelude::*;
use vstd::string::*;

verus! {

/// The file of the screenshot that was taken of `dashboard` of the
/// organization `org_id` at `unix_seconds`, under the directory
/// `download_path`.
pub open spec fn screenshot_file(
    download_path: Seq<char>,
    org_id: Seq<char>,
    dashboard: Seq<char>,
    unix_seconds: int,
) -> Seq<char> {
    download_path + "/screenshot_"@ + org_id + "_"@ + dashboard + "_"@ + decimal(unix_seconds)
        + ".png"@
}

/// The path under which a screenshot is kept on disk.
pub fn screenshot_path(download_path: &str, org_id: &str, dashboard: &str, unix_seconds: i64) -> (r:
    String)
    ensures
        r@ == screenshot_file(download_path@, org_id@, dashboard@, unix_seconds as int),
{
    let mut out = String::new();
    out.append(download_path);
    out.append("/screenshot_");
    out.append(org_id);
    out.append("_");
    out.append(dashboard);
    out.append("_");
    push_i64(&mut out, unix_seconds);
    out.append(".png");
    out
}

} // verus!
