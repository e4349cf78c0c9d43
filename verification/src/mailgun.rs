//! Requests to Mailgun's message API.
//!
//! A message is sent as one multipart form, posted to the API of the region
//! under the sender's domain, with the API key as the password of user `api`.
//! This module says what that request holds; sending it is left to the caller.

use vstd::prelude::*;
use vstd::string::StringExecFns;

use crate::address::EmailAddress;

verus! {

/// Where the sender's domain is hosted.
#[derive(Clone, Copy, Debug, PartialEq, Eq)]
pub enum Region {
    EU,
    US,
}

/// A file that goes with a message.
#[derive(Debug, PartialEq)]
pub struct Attachment {
    pub attachment_type: AttachmentType,
    pub name: String,
    pub bytes: Vec<u8>,
    /// The media type, such as `image/png`.
    pub mime_type: String,
}

/// How a file goes with a message.
#[derive(Clone, Copy, Debug, PartialEq, Eq)]
pub enum AttachmentType {
    /// Beside the message.
    Attachment,
    /// Within the message, for its HTML body to show.
    Inline,
}

/// What Mailgun answers when it has taken a message.
#[derive(Debug, PartialEq)]
pub struct SendResponse {
    pub message: String,
    pub id: String,
}

/// A text field of the form.
#[derive(Debug, PartialEq)]
pub struct Field {
    pub name: String,
    pub value: String,
}

/// A file part of the form.
#[derive(Debug, PartialEq)]
pub struct Part {
    pub field: String,
    pub file_name: String,
    pub bytes: Vec<u8>,
    pub mime_type: String,
}

/// One request to the message API.
#[derive(Debug, PartialEq)]
pub struct Request {
    pub url: String,
    pub user: String,
    pub password: String,
    /// The text fields of the form, in the order in which they are added.
    pub fields: Vec<Field>,
    /// The file parts of the form, which follow the text fields.
    pub parts: Vec<Part>,
}

/// A field as a mathematical value.
pub struct FieldView {
    pub name: Seq<char>,
    pub value: Seq<char>,
}

/// A part as a mathematical value.
pub struct PartView {
    pub field: Seq<char>,
    pub file_name: Seq<char>,
    pub bytes: Seq<u8>,
    pub mime_type: Seq<char>,
}

/// A request as a mathematical value.
pub struct RequestView {
    pub url: Seq<char>,
    pub user: Seq<char>,
    pub password: Seq<char>,
    pub fields: Seq<FieldView>,
    pub parts: Seq<PartView>,
}

impl View for Field {
    type V = FieldView;

    open spec fn view(&self) -> FieldView {
        FieldView { name: self.name@, value: self.value@ }
    }
}

impl View for Part {
    type V = PartView;

    open spec fn view(&self) -> PartView {
        PartView {
            field: self.field@,
            file_name: self.file_name@,
            bytes: self.bytes@,
            mime_type: self.mime_type@,
        }
    }
}

impl View for Request {
    type V = RequestView;

    open spec fn view(&self) -> RequestView {
        RequestView {
            url: self.url@,
            user: self.user@,
            password: self.password@,
            fields: self.fields@.map_values(|field: Field| field@),
            parts: self.parts@.map_values(|part: Part| part@),
        }
    }
}

impl Region {
    /// The address of the API in this region.
    pub open spec fn url(self) -> Seq<char> {
        match self {
            Region::US => "https://api.mailgun.net/v3"@,
            Region::EU => "https://api.eu.mailgun.net/v3"@,
        }
    }

    /// The address of the API in this region.
    pub fn base_url(&self) -> (url: &'static str)
        ensures
            url@ == self.url(),
    {
        match self {
            Self::US => "https://api.mailgun.net/v3",
            Self::EU => "https://api.eu.mailgun.net/v3",
        }
    }
}

impl AttachmentType {
    /// The name of the form field that a file of this kind goes under.
    pub open spec fn field(self) -> Seq<char> {
        match self {
            AttachmentType::Attachment => "attachment"@,
            AttachmentType::Inline => "inline"@,
        }
    }
}

/// The addresses in a row, with a comma between one and the next.
pub open spec fn joined(addresses: Seq<EmailAddress>) -> Seq<char>
    decreases addresses.len(),
{
    if addresses.len() == 0 {
        Seq::empty()
    } else if addresses.len() == 1 {
        addresses[0]@
    } else {
        joined(addresses.drop_last()) + ","@ + addresses.last()@
    }
}

/// The sender as Mailgun wants it: the name, then the address in angle
/// brackets.
pub open spec fn sender(name: Seq<char>, address: Seq<char>) -> Seq<char> {
    name + " <"@ + address + ">"@
}

/// The text fields of a message: `from`, `to`, `subject` and `text`, and
/// `html` after them where the message has an HTML body.
pub open spec fn message_fields(
    from: Seq<char>,
    to: Seq<char>,
    subject: Seq<char>,
    text: Seq<char>,
    html: Option<String>,
) -> Seq<FieldView> {
    let plain = seq![
        FieldView { name: "from"@, value: from },
        FieldView { name: "to"@, value: to },
        FieldView { name: "subject"@, value: subject },
        FieldView { name: "text"@, value: text },
    ];
    match html {
        Some(html) => plain.push(FieldView { name: "html"@, value: html@ }),
        None => plain,
    }
}

/// The file part that an attachment becomes.
pub open spec fn part_of(attachment: Attachment) -> PartView {
    PartView {
        field: attachment.attachment_type.field(),
        file_name: attachment.name@,
        bytes: attachment.bytes@,
        mime_type: attachment.mime_type@,
    }
}

/// Where the messages of a domain are posted to.
pub open spec fn messages_url(region: Region, domain: Seq<char>) -> Seq<char> {
    region.url() + "/"@ + domain + "/messages"@
}

/// The request that sends one message.
///
/// It is posted to the messages of `domain` in `region`, as user `api` with
/// the key as password. Its form holds the sender, the recipients joined by
/// commas, the subject and the text, then the HTML body if there is one, then
/// a part for each attachment in their order.
pub fn send_mailgun(
    from_name: &str,
    from_email: &EmailAddress,
    to: &[EmailAddress],
    subject: String,
    text: String,
    html: Option<String>,
    region: &Region,
    attachments: Vec<Attachment>,
    domain: &str,
    api_key: &str,
) -> (request: Request)
    ensures
        request@.url == messages_url(*region, domain@),
        request@.user == "api"@,
        request@.password == api_key@,
        request@.fields == message_fields(
            sender(from_name@, from_email@),
            joined(to@),
            subject@,
            text@,
            html,
        ),
        request@.parts == attachments@.map_values(|attachment: Attachment| part_of(attachment)),
{
    let mut fields: Vec<Field> = Vec::new();

    let mut from = String::from_str(from_name);
    from.append(" <");
    from.append(from_email.as_str());
    from.append(">");
    fields.push(Field { name: String::from_str("from"), value: from });

    let mut recipients = String::new();
    let mut i: usize = 0;
    while i < to.len()
        invariant
            0 <= i <= to@.len(),
            recipients@ == joined(to@.take(i as int)),
        decreases to@.len() - i,
    {
        proof {
            assert(to@.take(i + 1).drop_last() =~= to@.take(i as int));
            assert(to@.take(i + 1).last() == to@[i as int]);
            if i == 0 {
                assert(to@.take(1)[0] == to@[0]);
                assert(recipients@ + to@[0]@ =~= to@[0]@);
            }
        }
        if i > 0 {
            recipients.append(",");
        }
        recipients.append(to[i].as_str());
        i += 1;
    }
    proof {
        assert(to@.take(i as int) =~= to@);
    }
    fields.push(Field { name: String::from_str("to"), value: recipients });
    fields.push(Field { name: String::from_str("subject"), value: subject });
    fields.push(Field { name: String::from_str("text"), value: text });
    if let Some(html) = html {
        fields.push(Field { name: String::from_str("html"), value: html });
    }

    let ghost files = attachments@;
    let mut parts: Vec<Part> = Vec::new();
    for attachment in it: attachments
        invariant
            it.seq() == files,
            parts@.len() == it.index(),
            forall|k: int| 0 <= k < parts@.len() ==> (#[trigger] parts@[k])@ == part_of(files[k]),
    {
        let field_name = match attachment.attachment_type {
            AttachmentType::Attachment => "attachment",
            AttachmentType::Inline => "inline",
        };
        parts.push(
            Part {
                field: String::from_str(field_name),
                file_name: attachment.name,
                bytes: attachment.bytes,
                mime_type: attachment.mime_type,
            },
        );
    }

    let mut url = String::from_str(region.base_url());
    url.append("/");
    url.append(domain);
    url.append("/messages");

    let request = Request {
        url,
        user: String::from_str("api"),
        password: String::from_str(api_key),
        fields,
        parts,
    };
    proof {
        assert(request@.parts =~= files.map_values(|attachment: Attachment| part_of(attachment)));
        assert(request@.fields =~= message_fields(
            sender(from_name@, from_email@),
            joined(to@),
            subject@,
            text@,
            html,
        ));
    }
    request
}

} // verus!
