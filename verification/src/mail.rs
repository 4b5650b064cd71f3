//! From a composed mail to a message that a transport can send.
//!
//! The addresses and the media type are parsed; where one of them is
//! refused, the first refusal is the error, in the order sender, recipients,
//! reply address, media type. What is accepted is put together as a mixed
//! multipart message: the body first, the attachment second.

use crate::email::{texts, EmailPlan, EmailPlanView};
use vstd::prelude::*;

verus! {

/// `lettre::message::Mailbox`: an address with an optional name.
#[verifier::external_type_specification]
#[verifier::external_body]
pub struct ExMailbox(lettre::message::Mailbox);

/// `lettre::message::header::ContentType`: a media type.
#[verifier::external_type_specification]
#[verifier::external_body]
pub struct ExContentType(lettre::message::header::ContentType);

/// `lettre::message::MessageBuilder`: the headers of a message in the making.
#[verifier::external_type_specification]
#[verifier::external_body]
pub struct ExMessageBuilder(lettre::message::MessageBuilder);

/// `lettre::Message`: a message that a transport can send.
#[verifier::external_type_specification]
#[verifier::external_body]
pub struct ExMessage(lettre::Message);

/// `lettre::message::SinglePart`: one part of a body, with its headers.
#[verifier::external_type_specification]
#[verifier::external_body]
pub struct ExSinglePart(lettre::message::SinglePart);

/// `lettre::message::MultiPart`: a body of several parts.
#[verifier::external_type_specification]
#[verifier::external_body]
pub struct ExMultiPart(lettre::message::MultiPart);

/// `lettre::message::MultiPartBuilder`: a body of several parts that has none yet.
#[verifier::external_type_specification]
#[verifier::external_body]
pub struct ExMultiPartBuilder(lettre::message::MultiPartBuilder);

/// `lettre::message::Attachment`: how an attachment is presented.
#[verifier::external_type_specification]
#[verifier::external_body]
pub struct ExAttachment(lettre::message::Attachment);

/// The words with which `lettre` refuses `text` as a mailbox; `None` where
/// it accepts it.
pub uninterp spec fn mailbox_refusal(text: Seq<char>) -> Option<Seq<char>>;

/// The words with which `lettre` refuses `text` as a media type; `None`
/// where it accepts it.
pub uninterp spec fn content_type_refusal(text: Seq<char>) -> Option<Seq<char>>;

/// `Mailbox::from_str`: the mailbox that `text` writes, or the words of the
/// error with which it is refused. Which of the two depends on `text` alone.
#[verifier::external_body]
fn parse_mailbox(text: &str) -> (r: Result<lettre::message::Mailbox, String>)
    ensures
        match r {
            Ok(_) => mailbox_refusal(text@) is None,
            Err(words) => mailbox_refusal(text@) == Some(words@),
        },
{
    text.parse::<lettre::message::Mailbox>().map_err(|e| e.to_string())
}

/// `ContentType::parse`: the media type that `text` writes, or the words of
/// the error with which it is refused. Which of the two depends on `text`
/// alone.
#[verifier::external_body]
fn parse_content_type(text: &str) -> (r: Result<lettre::message::header::ContentType, String>)
    ensures
        match r {
            Ok(_) => content_type_refusal(text@) is None,
            Err(words) => content_type_refusal(text@) == Some(words@),
        },
{
    lettre::message::header::ContentType::parse(text).map_err(|e| e.to_string())
}

/// `Message::builder`: a builder of a message without headers.
#[verifier::external_body]
fn new_builder() -> lettre::message::MessageBuilder {
    lettre::Message::builder()
}

/// `MessageBuilder::from`: the builder with `mailbox` added as a sender.
#[verifier::external_body]
fn with_sender(
    builder: lettre::message::MessageBuilder,
    mailbox: lettre::message::Mailbox,
) -> lettre::message::MessageBuilder {
    builder.from(mailbox)
}

/// `MessageBuilder::to`: the builder with `mailbox` added as a recipient.
#[verifier::external_body]
fn with_recipient(
    builder: lettre::message::MessageBuilder,
    mailbox: lettre::message::Mailbox,
) -> lettre::message::MessageBuilder {
    builder.to(mailbox)
}

/// `MessageBuilder::reply_to`: the builder with `mailbox` added as an
/// address for replies.
#[verifier::external_body]
fn with_reply_to(
    builder: lettre::message::MessageBuilder,
    mailbox: lettre::message::Mailbox,
) -> lettre::message::MessageBuilder {
    builder.reply_to(mailbox)
}

/// `MessageBuilder::subject`: the builder with `subject` as the subject.
#[verifier::external_body]
fn with_subject(
    builder: lettre::message::MessageBuilder,
    subject: String,
) -> lettre::message::MessageBuilder {
    builder.subject(subject)
}

/// `SinglePart::html`: a part that holds `html` as HTML in UTF-8.
#[verifier::external_body]
fn html_part(html: String) -> lettre::message::SinglePart {
    lettre::message::SinglePart::html(html)
}

/// `Attachment::new`: an attachment to download, under the file name `name`.
#[verifier::external_body]
fn downloadable(name: String) -> lettre::message::Attachment {
    lettre::message::Attachment::new(name)
}

/// `Attachment::new_inline`: an attachment that the body shows, under the
/// content id `name`.
#[verifier::external_body]
fn embedded(name: String) -> lettre::message::Attachment {
    lettre::message::Attachment::new_inline(name)
}

/// `Attachment::body`: the part that holds `data` as the attachment, of the
/// media type `content_type`.
#[verifier::external_body]
fn attachment_part(
    attachment: lettre::message::Attachment,
    data: Vec<u8>,
    content_type: lettre::message::header::ContentType,
) -> lettre::message::SinglePart {
    attachment.body(data, content_type)
}

/// `MultiPart::mixed`: a builder of a mixed multipart body.
#[verifier::external_body]
fn mixed() -> lettre::message::MultiPartBuilder {
    lettre::message::MultiPart::mixed()
}

/// `MultiPartBuilder::singlepart`: the multipart body of the one part `part`.
#[verifier::external_body]
fn first_part(
    builder: lettre::message::MultiPartBuilder,
    part: lettre::message::SinglePart,
) -> lettre::message::MultiPart {
    builder.singlepart(part)
}

/// `MultiPart::singlepart`: the multipart body with `part` added at its end.
#[verifier::external_body]
fn next_part(
    body: lettre::message::MultiPart,
    part: lettre::message::SinglePart,
) -> lettre::message::MultiPart {
    body.singlepart(part)
}

/// `MessageBuilder::multipart`: the message of the builder's headers and the
/// body `body`, or the words of the error with which it is refused.
#[verifier::external_body]
fn finish_message(
    builder: lettre::message::MessageBuilder,
    body: lettre::message::MultiPart,
) -> Result<lettre::Message, String> {
    builder.multipart(body).map_err(|e| e.to_string())
}

/// What of a mail was refused.
#[derive(Clone, Copy, Debug, PartialEq, Eq, Structural)]
pub enum MailField {
    Sender,
    /// The recipient at this place in the list.
    Recipient(usize),
    ReplyTo,
    ContentType,
    /// Nothing of it, but the message as a whole.
    Message,
}

/// Why a mail is no message.
#[derive(Clone, Debug, PartialEq, Eq)]
pub struct MailError {
    pub field: MailField,
    /// The words of the refusal.
    pub reason: String,
}

/// What a [`MailError`] holds.
pub struct MailErrorView {
    pub field: MailField,
    pub reason: Seq<char>,
}

impl View for MailError {
    type V = MailErrorView;

    open spec fn view(&self) -> MailErrorView {
        MailErrorView { field: self.field, reason: self.reason@ }
    }
}

impl MailError {
    /// The words of the refusal.
    pub fn message(&self) -> (r: String)
        ensures
            r@ == self@.reason,
    {
        self.reason.clone()
    }
}

/// The refusals of the parts of a mail, each `None` where the part was
/// accepted.
#[derive(Clone, Debug)]
pub struct Refusals {
    pub sender: Option<String>,
    /// One for each recipient, in their order.
    pub recipients: Vec<Option<String>>,
    pub reply_to: Option<String>,
    pub content_type: Option<String>,
}

/// What [`Refusals`] hold.
pub struct RefusalsView {
    pub sender: Option<Seq<char>>,
    pub recipients: Seq<Option<Seq<char>>>,
    pub reply_to: Option<Seq<char>>,
    pub content_type: Option<Seq<char>>,
}

/// The text of an optional string.
pub open spec fn optional_text(s: Option<String>) -> Option<Seq<char>> {
    match s {
        Some(s) => Some(s@),
        None => None,
    }
}

impl View for Refusals {
    type V = RefusalsView;

    open spec fn view(&self) -> RefusalsView {
        RefusalsView {
            sender: optional_text(self.sender),
            recipients: Seq::new(
                self.recipients@.len(),
                |i: int| optional_text(self.recipients@[i]),
            ),
            reply_to: optional_text(self.reply_to),
            content_type: optional_text(self.content_type),
        }
    }
}

/// The place of the first refusal in a list, if there is one.
pub open spec fn first_refused(list: Seq<Option<Seq<char>>>) -> Option<int>
    decreases list.len(),
{
    if list.len() == 0 {
        None
    } else {
        match first_refused(list.drop_last()) {
            Some(i) => Some(i),
            None => if list.last() is Some {
                Some(list.len() - 1)
            } else {
                None
            },
        }
    }
}

/// The refusal that counts: that of the sender, else that of the first
/// recipient that was refused, else that of the reply address, else that of
/// the media type.
pub open spec fn first_refusal(refusals: RefusalsView) -> Option<MailErrorView> {
    if refusals.sender is Some {
        Some(MailErrorView { field: MailField::Sender, reason: refusals.sender->Some_0 })
    } else if first_refused(refusals.recipients) is Some {
        let i = first_refused(refusals.recipients)->Some_0;
        Some(
            MailErrorView {
                field: MailField::Recipient(i as usize),
                reason: refusals.recipients[i]->Some_0,
            },
        )
    } else if refusals.reply_to is Some {
        Some(MailErrorView { field: MailField::ReplyTo, reason: refusals.reply_to->Some_0 })
    } else if refusals.content_type is Some {
        Some(
            MailErrorView { field: MailField::ContentType, reason: refusals.content_type->Some_0 },
        )
    } else {
        None
    }
}

/// The refusals that `lettre` has for the parts of `plan`. An empty reply
/// address is none, and so not refused.
pub open spec fn refusals_of(plan: EmailPlanView) -> RefusalsView {
    RefusalsView {
        sender: mailbox_refusal(plan.from),
        recipients: Seq::new(plan.to.len(), |i: int| mailbox_refusal(plan.to[i])),
        reply_to: if plan.reply_to.len() == 0 {
            None
        } else {
            mailbox_refusal(plan.reply_to)
        },
        content_type: content_type_refusal(plan.attachment.content_type),
    }
}

/// The first refusal in a list is a refusal, and nothing before it is.
pub proof fn lemma_first_refused(list: Seq<Option<Seq<char>>>)
    ensures
        match first_refused(list) {
            Some(i) => 0 <= i < list.len() && list[i] is Some && forall|j: int|
                0 <= j < i ==> list[j] is None,
            None => forall|j: int| 0 <= j < list.len() ==> list[j] is None,
        },
    decreases list.len(),
{
    if list.len() > 0 {
        lemma_first_refused(list.drop_last());
        assert forall|j: int| 0 <= j < list.len() - 1 implies list[j] == list.drop_last()[j] by {}
    }
}

/// Picks the refusal that counts.
pub fn pick_refusal(refusals: &Refusals) -> (r: Option<MailError>)
    ensures
        match first_refusal(refusals@) {
            Some(e) => r is Some && r->Some_0@ == e,
            None => r is None,
        },
{
    match &refusals.sender {
        Some(words) => {
            return Some(MailError { field: MailField::Sender, reason: words.clone() });
        },
        None => {},
    }
    let ghost list = refusals@.recipients;
    let mut i: usize = 0;
    while i < refusals.recipients.len()
        invariant
            0 <= i <= refusals.recipients.len(),
            refusals.sender is None,
            list == refusals@.recipients,
            list.len() == refusals.recipients@.len(),
            first_refused(list.take(i as int)) is None,
        decreases refusals.recipients.len() - i,
    {
        proof {
            assert(list.take(i + 1).drop_last() =~= list.take(i as int));
        }
        match &refusals.recipients[i] {
            Some(words) => {
                proof {
                    lemma_first_refused_extends(list, i + 1);
                }
                return Some(MailError { field: MailField::Recipient(i), reason: words.clone() });
            },
            None => {},
        }
        i += 1;
    }
    assert(list.take(i as int) =~= list);
    match &refusals.reply_to {
        Some(words) => {
            return Some(MailError { field: MailField::ReplyTo, reason: words.clone() });
        },
        None => {},
    }
    match &refusals.content_type {
        Some(words) => Some(MailError { field: MailField::ContentType, reason: words.clone() }),
        None => None,
    }
}

/// A refusal at the front of a list is the first refusal of the whole list.
pub proof fn lemma_first_refused_extends(list: Seq<Option<Seq<char>>>, n: int)
    requires
        0 <= n <= list.len(),
        first_refused(list.take(n)) is Some,
    ensures
        first_refused(list) == first_refused(list.take(n)),
    decreases list.len() - n,
{
    if n < list.len() {
        assert(list.take(n + 1).drop_last() =~= list.take(n));
        lemma_first_refused_extends(list, n + 1);
    } else {
        assert(list.take(n) =~= list);
    }
}

/// Puts the message of `plan` together: the sender, the subject, the
/// recipients in their order, the reply address if there is one, and a mixed
/// body of the HTML and the attachment.
///
/// Where `lettre` refuses an address or the media type, the error is the
/// refusal that counts. Where it accepts them all, the message is what
/// `lettre` makes of them; should it refuse the whole, the error names the
/// message and carries its words.
pub fn to_message(plan: EmailPlan) -> (r: Result<lettre::Message, MailError>)
    ensures
        match first_refusal(refusals_of(plan@)) {
            Some(e) => r is Err && r->Err_0@ == e,
            None => r is Ok || r->Err_0.field == MailField::Message,
        },
{
    let EmailPlan { from, reply_to, to, subject, html, attachment } = plan;
    let crate::email::AttachmentPlan { name, content_type, inline, data } = attachment;
    let ghost view = plan@;
    let mut builder = new_builder();
    let sender = match parse_mailbox(from.as_str()) {
        Ok(mailbox) => {
            builder = with_sender(builder, mailbox);
            None
        },
        Err(words) => Some(words),
    };
    builder = with_subject(builder, subject);
    let mut recipients: Vec<Option<String>> = Vec::new();
    let mut i: usize = 0;
    while i < to.len()
        invariant
            0 <= i <= to.len(),
            texts(to@) == view.to,
            recipients@.len() == i,
            forall|j: int|
                0 <= j < i ==> optional_text(#[trigger] recipients@[j]) == mailbox_refusal(
                    view.to[j],
                ),
        decreases to.len() - i,
    {
        match parse_mailbox(to[i].as_str()) {
            Ok(mailbox) => {
                builder = with_recipient(builder, mailbox);
                recipients.push(None);
            },
            Err(words) => {
                recipients.push(Some(words));
            },
        }
        i += 1;
    }
    let reply_to = if reply_to.as_str().is_empty() {
        None
    } else {
        match parse_mailbox(reply_to.as_str()) {
            Ok(mailbox) => {
                builder = with_reply_to(builder, mailbox);
                None
            },
            Err(words) => Some(words),
        }
    };
    let (media, content_type) = match parse_content_type(content_type.as_str()) {
        Ok(media) => (Some(media), None),
        Err(words) => (None, Some(words)),
    };
    let refusals = Refusals { sender, recipients, reply_to, content_type };
    assert(refusals@.recipients =~= refusals_of(view).recipients);
    match pick_refusal(&refusals) {
        Some(e) => {
            return Err(e);
        },
        None => {},
    }
    let media = match media {
        Some(media) => media,
        None => vstd::pervasive::unreached(),
    };
    let shown = if inline {
        embedded(name)
    } else {
        downloadable(name)
    };
    let body = next_part(first_part(mixed(), html_part(html)), attachment_part(shown, data, media));
    match finish_message(builder, body) {
        Ok(message) => Ok(message),
        Err(words) => Err(MailError { field: MailField::Message, reason: words }),
    }
}

} // verus!
