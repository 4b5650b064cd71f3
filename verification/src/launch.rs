//! How the browser is launched: the flags that the settings ask for, the
//! arguments that they add, and where the executable comes from.

use crate::config::Chrome;
use crate::email::texts;
use crate::report::ReportAttachmentDimensions;
use vstd::prelude::*;
use vstd::string::*;

verus! {

/// Where the executable of the browser comes from.
#[derive(Clone, Debug, PartialEq, Eq)]
pub enum ExecutableSource {
    /// It is at this path.
    Path(String),
    /// It is looked for in the usual places; if it is not there, one is
    /// downloaded to `download_to`.
    Detect { download_to: String },
    /// A known good browser is downloaded to `download_to`.
    Download { download_to: String },
}

/// What an [`ExecutableSource`] holds.
pub enum ExecutableSourceView {
    Path(Seq<char>),
    Detect { download_to: Seq<char> },
    Download { download_to: Seq<char> },
}

impl View for ExecutableSource {
    type V = ExecutableSourceView;

    open spec fn view(&self) -> ExecutableSourceView {
        match *self {
            ExecutableSource::Path(path) => ExecutableSourceView::Path(path@),
            ExecutableSource::Detect { download_to } => ExecutableSourceView::Detect {
                download_to: download_to@,
            },
            ExecutableSource::Download { download_to } => ExecutableSourceView::Download {
                download_to: download_to@,
            },
        }
    }
}

/// How a browser is launched.
#[derive(Clone, Debug, PartialEq, Eq)]
pub struct LaunchPlan {
    pub width: u32,
    pub height: u32,
    pub with_head: bool,
    pub no_sandbox: bool,
    pub disable_default_args: bool,
    pub args: Vec<String>,
    pub executable: ExecutableSource,
}

/// The pieces of `s` between the occurrences of `separator`: one more than
/// there are separators, empty pieces included.
pub open spec fn split_on(s: Seq<char>, separator: char) -> Seq<Seq<char>>
    decreases s.len(),
{
    if s.len() == 0 {
        seq![Seq::<char>::empty()]
    } else {
        let before = split_on(s.drop_last(), separator);
        if s.last() == separator {
            before.push(Seq::<char>::empty())
        } else {
            before.drop_last().push(before.last().push(s.last()))
        }
    }
}

/// The pieces of `parts` with `separator` between them.
pub open spec fn joined(parts: Seq<Seq<char>>, separator: char) -> Seq<char>
    decreases parts.len(),
{
    if parts.len() == 0 {
        Seq::<char>::empty()
    } else if parts.len() == 1 {
        parts[0]
    } else {
        joined(parts.drop_last(), separator).push(separator) + parts.last()
    }
}

/// The arguments that the settings add: none for an empty setting, else its
/// pieces between commas.
pub open spec fn additional_args(setting: Seq<char>) -> Seq<Seq<char>> {
    if setting.len() == 0 {
        Seq::<Seq<char>>::empty()
    } else {
        split_on(setting, ',')
    }
}

/// Where the executable comes from: the configured path; else the usual
/// places, if they are to be looked at; else a download.
pub open spec fn executable_source(chrome: Chrome) -> ExecutableSourceView {
    if chrome.chrome_path@.len() > 0 {
        ExecutableSourceView::Path(chrome.chrome_path@)
    } else if chrome.chrome_check_default {
        ExecutableSourceView::Detect { download_to: chrome.chrome_download_path@ }
    } else {
        ExecutableSourceView::Download { download_to: chrome.chrome_download_path@ }
    }
}

/// What becomes of a source once the usual places were looked at: what was
/// found there is the executable; where nothing was found, one is
/// downloaded. Any other source stays what it is.
pub open spec fn after_detection(
    source: ExecutableSourceView,
    found: Option<Seq<char>>,
) -> ExecutableSourceView {
    match source {
        ExecutableSourceView::Detect { download_to } => match found {
            Some(path) => ExecutableSourceView::Path(path),
            None => ExecutableSourceView::Download { download_to },
        },
        other => other,
    }
}

/// Splitting never yields nothing, no piece holds the separator, and the
/// pieces joined by the separator are the text again.
pub proof fn lemma_split_joins_back(s: Seq<char>, separator: char)
    ensures
        split_on(s, separator).len() > 0,
        forall|i: int, j: int|
            0 <= i < split_on(s, separator).len() && 0 <= j < split_on(s, separator)[i].len()
                ==> #[trigger] split_on(s, separator)[i][j] != separator,
        joined(split_on(s, separator), separator) == s,
    decreases s.len(),
{
    let parts = split_on(s, separator);
    if s.len() > 0 {
        let before = split_on(s.drop_last(), separator);
        lemma_split_joins_back(s.drop_last(), separator);
        if s.last() == separator {
            assert(parts.drop_last() =~= before);
        } else {
            assert(parts.drop_last() =~= before.drop_last());
            assert(s.drop_last().push(s.last()) =~= s);
            assert forall|i: int, j: int|
                0 <= i < parts.len() && 0 <= j < parts[i].len() implies #[trigger] parts[i][j]
                != separator by {}
        }
    }
}

/// Splits `s` at every comma.
pub fn split_commas(s: &str) -> (parts: Vec<String>)
    ensures
        texts(parts@) == split_on(s@, ','),
{
    let len = s.unicode_len();
    let mut parts: Vec<String> = Vec::new();
    let mut current = String::new();
    let mut i: usize = 0;
    while i < len
        invariant
            0 <= i <= len,
            len == s@.len(),
            texts(parts@).push(current@) == split_on(s@.take(i as int), ','),
        decreases len - i,
    {
        let c = s.get_char(i);
        proof {
            assert(s@.take(i + 1).drop_last() =~= s@.take(i as int));
        }
        if c == ',' {
            parts.push(current);
            current = String::new();
        } else {
            current.push(c);
        }
        i += 1;
    }
    assert(s@.take(len as int) =~= s@);
    parts.push(current);
    parts
}

/// Where the executable of the browser comes from.
pub fn choose_executable(chrome: &Chrome) -> (r: ExecutableSource)
    ensures
        r@ == executable_source(*chrome),
{
    if !chrome.chrome_path.as_str().is_empty() {
        ExecutableSource::Path(chrome.chrome_path.clone())
    } else if chrome.chrome_check_default {
        ExecutableSource::Detect { download_to: chrome.chrome_download_path.clone() }
    } else {
        ExecutableSource::Download { download_to: chrome.chrome_download_path.clone() }
    }
}

/// What becomes of `source` once the usual places were looked at, with what
/// was `found` there.
pub fn resolve_detection(source: ExecutableSource, found: Option<String>) -> (r: ExecutableSource)
    ensures
        r@ == after_detection(
            source@,
            match found {
                Some(path) => Some(path@),
                None => None,
            },
        ),
{
    match source {
        ExecutableSource::Detect { download_to } => match found {
            Some(path) => ExecutableSource::Path(path),
            None => ExecutableSource::Download { download_to },
        },
        other => other,
    }
}

/// How a browser is launched for a capture of the size `dimensions`: a
/// window of that size, the flags as they are configured, the additional
/// arguments split at commas, and the executable from where the settings say.
pub fn launch_plan(chrome: &Chrome, dimensions: ReportAttachmentDimensions) -> (r: LaunchPlan)
    ensures
        r.width == dimensions.width,
        r.height == dimensions.height,
        r.with_head == chrome.chrome_with_head,
        r.no_sandbox == chrome.chrome_no_sandbox,
        r.disable_default_args == chrome.chrome_disable_default_args,
        texts(r.args@) == additional_args(chrome.chrome_additional_args@),
        r.executable@ == executable_source(*chrome),
{
    let args = if chrome.chrome_additional_args.as_str().is_empty() {
        let none: Vec<String> = Vec::new();
        none
    } else {
        split_commas(chrome.chrome_additional_args.as_str())
    };
    LaunchPlan {
        width: dimensions.width,
        height: dimensions.height,
        with_head: chrome.chrome_with_head,
        no_sandbox: chrome.chrome_no_sandbox,
        disable_default_args: chrome.chrome_disable_default_args,
        args,
        executable: choose_executable(chrome),
    }
}

} // verus!
