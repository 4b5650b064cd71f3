//! What the mail of a report says: its subject, the name and type of the
//! attachment, and the body in either disposition.
//!
//! A PDF cannot travel inline, because most mail readers embed nothing but
//! images; a rendering made to warm the cache is never mailed.

use crate::report::{EmailAttachmentType, EmailDetails, ReportType};
use vstd::prelude::*;
use vstd::string::*;

verus! {

/// Why a report cannot be mailed.
#[derive(Clone, Copy, Debug, PartialEq, Eq, Structural)]
pub enum EmailError {
    /// The rendering was made for the cache.
    CacheNotMailed,
    /// A PDF was asked for inline.
    InlinePdf,
    /// There is nobody to send it to.
    NoRecipients,
}

/// The artifact as the mail carries it.
#[derive(Clone, Debug, PartialEq, Eq)]
pub struct AttachmentPlan {
    /// The file name, and for an inline image the id that the body refers to.
    pub name: String,
    /// The media type.
    pub content_type: String,
    /// Whether the body shows it.
    pub inline: bool,
    pub data: Vec<u8>,
}

/// A mail, ready to be handed to a transport.
#[derive(Clone, Debug, PartialEq, Eq)]
pub struct EmailPlan {
    pub from: String,
    /// Empty where replies go to the sender.
    pub reply_to: String,
    pub to: Vec<String>,
    pub subject: String,
    pub html: String,
    pub attachment: AttachmentPlan,
}

/// What an [`AttachmentPlan`] holds.
pub struct AttachmentPlanView {
    pub name: Seq<char>,
    pub content_type: Seq<char>,
    pub inline: bool,
    pub data: Seq<u8>,
}

/// What an [`EmailPlan`] holds.
pub struct EmailPlanView {
    pub from: Seq<char>,
    pub reply_to: Seq<char>,
    pub to: Seq<Seq<char>>,
    pub subject: Seq<char>,
    pub html: Seq<char>,
    pub attachment: AttachmentPlanView,
}

/// The texts of a list of strings.
pub open spec fn texts(list: Seq<String>) -> Seq<Seq<char>> {
    Seq::new(list.len(), |i: int| list[i]@)
}

impl View for AttachmentPlan {
    type V = AttachmentPlanView;

    open spec fn view(&self) -> AttachmentPlanView {
        AttachmentPlanView {
            name: self.name@,
            content_type: self.content_type@,
            inline: self.inline,
            data: self.data@,
        }
    }
}

impl View for EmailPlan {
    type V = EmailPlanView;

    open spec fn view(&self) -> EmailPlanView {
        EmailPlanView {
            from: self.from@,
            reply_to: self.reply_to@,
            to: texts(self.to@),
            subject: self.subject@,
            html: self.html@,
            attachment: self.attachment@,
        }
    }
}

/// Whether a file name may keep `c`: letters and digits of ASCII, the hyphen,
/// the underscore and the blank.
pub open spec fn keeps(c: char) -> bool {
    ('a' <= c <= 'z') || ('A' <= c <= 'Z') || ('0' <= c <= '9') || c == '-' || c == '_' || c == ' '
}

/// `name` with every character that a file name may not keep replaced by an
/// underscore.
pub open spec fn sanitized(name: Seq<char>) -> Seq<char> {
    Seq::new(
        name.len(),
        |i: int|
            if keeps(name[i]) {
                name[i]
            } else {
                '_'
            },
    )
}

/// `name` with every blank replaced by an underscore.
pub open spec fn without_blanks(name: Seq<char>) -> Seq<char> {
    Seq::new(
        name.len(),
        |i: int|
            if name[i] == ' ' {
                '_'
            } else {
                name[i]
            },
    )
}

/// The file extension of a format; the cache has none.
pub open spec fn extension(report_type: ReportType) -> Option<Seq<char>> {
    match report_type {
        ReportType::PDF => Some("pdf"@),
        ReportType::PNG => Some("png"@),
        ReportType::Cache => None,
    }
}

/// The media type of a format; the cache has none.
pub open spec fn media_type(report_type: ReportType) -> Option<Seq<char>> {
    match report_type {
        ReportType::PDF => Some("application/pdf"@),
        ReportType::PNG => Some("image/png"@),
        ReportType::Cache => None,
    }
}

/// The name of the attachment of a report called `title`: the title with
/// nothing but letters, digits, hyphens and underscores left, a dot, and the
/// extension of the format.
pub open spec fn attachment_file_name(title: Seq<char>, report_type: ReportType) -> Option<
    Seq<char>,
> {
    match extension(report_type) {
        Some(ext) => Some(without_blanks(sanitized(title)) + "."@ + ext),
        None => None,
    }
}

/// The subject of the mail of a report called `title`.
pub open spec fn subject_line(title: Seq<char>) -> Seq<char> {
    "Openobserve Report - "@ + title
}

/// The paragraph that links to the dashboard.
pub open spec fn link_paragraph(link: Seq<char>) -> Seq<char> {
    "<p><a href='"@ + link + "' target='_blank'>Link to dashboard</a></p>"@
}

/// The body of a mail with a downloadable attachment: the message, then the
/// link.
pub open spec fn standard_body(message: Seq<char>, link: Seq<char>) -> Seq<char> {
    message + "\n\n"@ + link_paragraph(link)
}

/// The body of a mail that shows its image: the message, the image by its
/// content id, then the link.
pub open spec fn inline_body(message: Seq<char>, name: Seq<char>, link: Seq<char>) -> Seq<char> {
    "<p>"@ + message + "</p>\n                <br>\n                <br>\n                <img src='cid:"@
        + name + "' alt='"@ + name
        + "'>\n                <br>\n                <br>\n                "@ + link_paragraph(link)
        + "\n                "@
}

/// The body in the disposition asked for.
pub open spec fn body(
    disposition: EmailAttachmentType,
    message: Seq<char>,
    name: Seq<char>,
    link: Seq<char>,
) -> Seq<char> {
    match disposition {
        EmailAttachmentType::Standard => standard_body(message, link),
        EmailAttachmentType::Inline => inline_body(message, name, link),
    }
}

/// Why a report of this format and disposition, for so many recipients,
/// cannot be mailed, if it cannot.
pub open spec fn refusal(
    report_type: ReportType,
    disposition: EmailAttachmentType,
    recipients: nat,
) -> Option<EmailError> {
    if report_type == ReportType::Cache {
        Some(EmailError::CacheNotMailed)
    } else if report_type == ReportType::PDF && disposition == EmailAttachmentType::Inline {
        Some(EmailError::InlinePdf)
    } else if recipients == 0 {
        Some(EmailError::NoRecipients)
    } else {
        None
    }
}

/// The mail that carries `data` to `recipients`, with `link` as the link to
/// the dashboard, or why there is none.
pub open spec fn composed(
    data: Seq<u8>,
    report_type: ReportType,
    disposition: EmailAttachmentType,
    recipients: Seq<Seq<char>>,
    title: Seq<char>,
    message: Seq<char>,
    link: Seq<char>,
    from: Seq<char>,
    reply_to: Seq<char>,
) -> Result<EmailPlanView, EmailError> {
    match refusal(report_type, disposition, recipients.len()) {
        Some(e) => Err(e),
        None => {
            let name = attachment_file_name(title, report_type)->Some_0;
            Ok(
                EmailPlanView {
                    from,
                    reply_to,
                    to: recipients,
                    subject: subject_line(title),
                    html: body(disposition, message, name, link),
                    attachment: AttachmentPlanView {
                        name,
                        content_type: media_type(report_type)->Some_0,
                        inline: disposition == EmailAttachmentType::Inline,
                        data,
                    },
                },
            )
        },
    }
}

fn keeps_char(c: char) -> (k: bool)
    ensures
        k == keeps(c),
{
    ('a' <= c && c <= 'z') || ('A' <= c && c <= 'Z') || ('0' <= c && c <= '9') || c == '-' || c
        == '_' || c == ' '
}

/// Replaces by an underscore every character of `filename` but the letters
/// and digits of ASCII, the hyphen, the underscore and the blank.
pub fn sanitize_filename(filename: &str) -> (r: String)
    ensures
        r@ == sanitized(filename@),
{
    let len = filename.unicode_len();
    let mut out = String::new();
    let mut i: usize = 0;
    while i < len
        invariant
            0 <= i <= len,
            len == filename@.len(),
            out@ == sanitized(filename@).take(i as int),
        decreases len - i,
    {
        let c = filename.get_char(i);
        if keeps_char(c) {
            out.push(c);
        } else {
            out.push('_');
        }
        i += 1;
    }
    out
}

fn replace_blanks(name: &str) -> (r: String)
    ensures
        r@ == without_blanks(name@),
{
    let len = name.unicode_len();
    let mut out = String::new();
    let mut i: usize = 0;
    while i < len
        invariant
            0 <= i <= len,
            len == name@.len(),
            out@ == without_blanks(name@).take(i as int),
        decreases len - i,
    {
        let c = name.get_char(i);
        if c == ' ' {
            out.push('_');
        } else {
            out.push(c);
        }
        i += 1;
    }
    out
}

/// The file extension of `report_type`.
pub fn extension_of(report_type: ReportType) -> (r: Option<&'static str>)
    ensures
        match extension(report_type) {
            Some(ext) => r is Some && r->Some_0@ == ext,
            None => r is None,
        },
{
    match report_type {
        ReportType::PDF => Some("pdf"),
        ReportType::PNG => Some("png"),
        ReportType::Cache => None,
    }
}

/// The media type of `report_type`.
pub fn media_type_of(report_type: ReportType) -> (r: Option<&'static str>)
    ensures
        match media_type(report_type) {
            Some(media) => r is Some && r->Some_0@ == media,
            None => r is None,
        },
{
    match report_type {
        ReportType::PDF => Some("application/pdf"),
        ReportType::PNG => Some("image/png"),
        ReportType::Cache => None,
    }
}

/// The name under which the artifact of a report called `title` is attached;
/// `None` for the cache, which attaches nothing.
pub fn attachment_name(title: &str, report_type: ReportType) -> (r: Option<String>)
    ensures
        match attachment_file_name(title@, report_type) {
            Some(name) => r is Some && r->Some_0@ == name,
            None => r is None,
        },
{
    let ext = match extension_of(report_type) {
        Some(ext) => ext,
        None => {
            return None;
        },
    };
    let clean = sanitize_filename(title);
    let mut name = replace_blanks(clean.as_str());
    name.append(".");
    name.append(ext);
    Some(name)
}

/// The subject of the mail of a report called `title`.
pub fn subject(title: &str) -> (r: String)
    ensures
        r@ == subject_line(title@),
{
    let mut out = String::new();
    out.append("Openobserve Report - ");
    out.append(title);
    out
}

fn push_link_paragraph(out: &mut String, link: &str)
    ensures
        final(out)@ == old(out)@ + link_paragraph(link@),
{
    out.append("<p><a href='");
    out.append(link);
    out.append("' target='_blank'>Link to dashboard</a></p>");
}

/// The body of the mail: `message` and the link to the dashboard, and between
/// them, in the inline disposition, the image called `name`.
pub fn html_body(disposition: EmailAttachmentType, message: &str, name: &str, link: &str) -> (r:
    String)
    ensures
        r@ == body(disposition, message@, name@, link@),
{
    let mut out = String::new();
    match disposition {
        EmailAttachmentType::Standard => {
            out.append(message);
            out.append("\n\n");
            push_link_paragraph(&mut out, link);
        },
        EmailAttachmentType::Inline => {
            out.append("<p>");
            out.append(message);
            out.append(
                "</p>\n                <br>\n                <br>\n                <img src='cid:",
            );
            out.append(name);
            out.append("' alt='");
            out.append(name);
            out.append("'>\n                <br>\n                <br>\n                ");
            push_link_paragraph(&mut out, link);
            out.append("\n                ");
        },
    }
    out
}

/// A copy of a list of strings.
pub fn copy_texts(list: &Vec<String>) -> (r: Vec<String>)
    ensures
        texts(r@) == texts(list@),
{
    let mut out: Vec<String> = Vec::new();
    let mut i: usize = 0;
    while i < list.len()
        invariant
            0 <= i <= list.len(),
            out@.len() == i,
            forall|j: int| 0 <= j < i ==> (#[trigger] out@[j])@ == list@[j]@,
        decreases list.len() - i,
    {
        out.push(list[i].clone());
        i += 1;
    }
    out
}

/// Whether a report of this format and disposition can be mailed to
/// `recipients` addresses, and why not.
pub fn check_mailable(
    report_type: ReportType,
    disposition: EmailAttachmentType,
    recipients: usize,
) -> (r: Result<(), EmailError>)
    ensures
        match refusal(report_type, disposition, recipients as nat) {
            Some(e) => r == Err::<(), EmailError>(e),
            None => r is Ok,
        },
{
    if report_type == ReportType::Cache {
        Err(EmailError::CacheNotMailed)
    } else if report_type == ReportType::PDF && disposition == EmailAttachmentType::Inline {
        Err(EmailError::InlinePdf)
    } else if recipients == 0 {
        Err(EmailError::NoRecipients)
    } else {
        Ok(())
    }
}

/// Composes the mail that carries `attachment_data` to the recipients of
/// `email_details`, with `link` as the link to the dashboard.
pub fn compose_with_link(
    attachment_data: Vec<u8>,
    report_type: ReportType,
    email_attachment_type: EmailAttachmentType,
    email_details: &EmailDetails,
    link: &str,
    from_email: &str,
    reply_to: &str,
) -> (r: Result<EmailPlan, EmailError>)
    ensures
        match composed(
            attachment_data@,
            report_type,
            email_attachment_type,
            texts(email_details.recipients@),
            email_details.title@,
            email_details.message@,
            link@,
            from_email@,
            reply_to@,
        ) {
            Ok(plan) => r is Ok && r->Ok_0@ == plan,
            Err(e) => r == Err::<EmailPlan, EmailError>(e),
        },
{
    match check_mailable(report_type, email_attachment_type, email_details.recipients.len()) {
        Err(e) => {
            return Err(e);
        },
        Ok(_) => {},
    }
    let name = match attachment_name(email_details.title.as_str(), report_type) {
        Some(name) => name,
        None => {
            return Err(EmailError::CacheNotMailed);
        },
    };
    let content_type = match media_type_of(report_type) {
        Some(media) => media.to_owned(),
        None => {
            return Err(EmailError::CacheNotMailed);
        },
    };
    let html = html_body(
        email_attachment_type,
        email_details.message.as_str(),
        name.as_str(),
        link,
    );
    let inline = match email_attachment_type {
        EmailAttachmentType::Inline => true,
        EmailAttachmentType::Standard => false,
    };
    Ok(
        EmailPlan {
            from: from_email.to_owned(),
            reply_to: reply_to.to_owned(),
            to: copy_texts(&email_details.recipients),
            subject: subject(email_details.title.as_str()),
            html,
            attachment: AttachmentPlan { name, content_type, inline, data: attachment_data },
        },
    )
}

/// Composes the mail that carries `attachment_data` to the recipients of
/// `email_details`, whose `dashb_url` is the link to the dashboard.
pub fn compose(
    attachment_data: Vec<u8>,
    report_type: ReportType,
    email_attachment_type: EmailAttachmentType,
    email_details: &EmailDetails,
    from_email: &str,
    reply_to: &str,
) -> (r: Result<EmailPlan, EmailError>)
    ensures
        match composed(
            attachment_data@,
            report_type,
            email_attachment_type,
            texts(email_details.recipients@),
            email_details.title@,
            email_details.message@,
            email_details.dashb_url@,
            from_email@,
            reply_to@,
        ) {
            Ok(plan) => r is Ok && r->Ok_0@ == plan,
            Err(e) => r == Err::<EmailPlan, EmailError>(e),
        },
{
    compose_with_link(
        attachment_data,
        report_type,
        email_attachment_type,
        email_details,
        email_details.dashb_url.as_str(),
        from_email,
        reply_to,
    )
}

/// What the caller is told when a report cannot be mailed.
pub open spec fn email_error_text(e: EmailError) -> Seq<char> {
    match e {
        EmailError::CacheNotMailed => "Cached reports are not sent via email"@,
        EmailError::InlinePdf =>
            "Most email servers do not support inline PDF attachments, for inline attachments please use a PNG."@,
        EmailError::NoRecipients => "A report needs a recipient to be mailed to"@,
    }
}

impl EmailError {
    /// Why the report cannot be mailed, in words.
    pub fn message(self) -> (r: String)
        ensures
            r@ == email_error_text(self),
    {
        match self {
            EmailError::CacheNotMailed => "Cached reports are not sent via email".to_owned(),
            EmailError::InlinePdf =>
                "Most email servers do not support inline PDF attachments, for inline attachments please use a PNG.".to_owned(),
            EmailError::NoRecipients => "A report needs a recipient to be mailed to".to_owned(),
        }
    }
}

} // verus!
