//! What the command line asks for.

use vstd::prelude::*;
use vstd::string::*;

verus! {

/// The permissions of a data directory that `init-dir` sets up: everything,
/// for everybody.
pub const DATA_DIR_MODE: u32 = 0o777;

/// What the process does with its command line.
#[derive(Clone, Debug, PartialEq, Eq)]
pub enum CliPlan {
    /// No subcommand: the server starts.
    Serve,
    /// Create the directory `path` with the permissions `mode`, say `notice`,
    /// and exit.
    InitDir { path: String, mode: u32, notice: String },
    /// Say `notice` and exit.
    Notice { notice: String },
    /// Fail with `message`.
    Fail { message: String },
}

/// What a [`CliPlan`] holds.
pub enum CliPlanView {
    Serve,
    InitDir { path: Seq<char>, mode: u32, notice: Seq<char> },
    Notice { notice: Seq<char> },
    Fail { message: Seq<char> },
}

impl View for CliPlan {
    type V = CliPlanView;

    open spec fn view(&self) -> CliPlanView {
        match *self {
            CliPlan::Serve => CliPlanView::Serve,
            CliPlan::InitDir { path, mode, notice } => CliPlanView::InitDir {
                path: path@,
                mode,
                notice: notice@,
            },
            CliPlan::Notice { notice } => CliPlanView::Notice { notice: notice@ },
            CliPlan::Fail { message } => CliPlanView::Fail { message: message@ },
        }
    }
}

/// What the subcommand `name` with the option `path` asks for: without a
/// subcommand the server starts; `init-dir` sets up the directory at its
/// path and fails without one; any other subcommand does nothing and says so.
pub open spec fn planned(subcommand: Option<Seq<char>>, path: Option<Seq<char>>) -> CliPlanView {
    match subcommand {
        None => CliPlanView::Serve,
        Some(name) => if name == "init-dir"@ {
            match path {
                Some(path) => CliPlanView::InitDir {
                    path,
                    mode: DATA_DIR_MODE,
                    notice: "init dir "@ + path + " successfully"@,
                },
                None => CliPlanView::Fail { message: "please set data path"@ },
            }
        } else {
            CliPlanView::Notice { notice: "command "@ + name + " execute successfully"@ }
        },
    }
}

/// The text of an optional string.
pub open spec fn optional_text(s: Option<String>) -> Option<Seq<char>> {
    match s {
        Some(s) => Some(s@),
        None => None,
    }
}

/// Decides what the process does with the subcommand `subcommand` and its
/// option `path`.
pub fn plan(subcommand: Option<String>, path: Option<String>) -> (r: CliPlan)
    ensures
        r@ == planned(optional_text(subcommand), optional_text(path)),
{
    let name = match subcommand {
        None => {
            return CliPlan::Serve;
        },
        Some(name) => name,
    };
    if name == "init-dir".to_owned() {
        match path {
            Some(path) => {
                let mut notice = String::new();
                notice.append("init dir ");
                notice.append(path.as_str());
                notice.append(" successfully");
                CliPlan::InitDir { path, mode: DATA_DIR_MODE, notice }
            },
            None => CliPlan::Fail { message: "please set data path".to_owned() },
        }
    } else {
        let mut notice = String::new();
        notice.append("command ");
        notice.append(name.as_str());
        notice.append(" execute successfully");
        CliPlan::Notice { notice }
    }
}

} // verus!
