//! The two e-mails of a session: the result of a completed test, and the
//! notice that something went wrong.

use vstd::prelude::*;
use vstd::string::StringExecFns;

use crate::address::EmailAddress;
use crate::mailgun::{
    joined, messages_url, part_of, send_mailgun, sender, Attachment,
    AttachmentType, PartView, Region, Request,
};
use crate::messages::{DetectionResult, SubgroupResult};
use crate::state::CompletedTest;
use crate::text::same_text;

verus! {

/// The name that the e-mails are sent under.
pub const SENDER_NAME: &'static str = "PlusLife Results";

/// The canonical text of a version-4 or any other UUID with the given value:
/// what `uuid::Uuid` writes through `Display`, lower-case and hyphenated.
pub uninterp spec fn uuid_hyphenated(id: u128) -> Seq<char>;

/// Writes an identifier as `uuid::Uuid::from_u128` and `Display` do.
///
/// Trusted: the text is the one named by `uuid_hyphenated`.
#[verifier::external_body]
fn hyphenated(id: u128) -> (text: String)
    ensures
        text@ == uuid_hyphenated(id),
{
    uuid::Uuid::from_u128(id).to_string()
}

/// The text of `mime::IMAGE_PNG`.
///
/// Trusted: the constant reads `image/png`.
#[verifier::external_body]
fn image_png() -> (essence: String)
    ensures
        essence@ == "image/png"@,
{
    mime::IMAGE_PNG.as_ref().to_owned()
}

/// The name under which a subgroup is shown: `IC`, the internal control, is
/// spelt out as `Control`; every other name is shown as it is.
pub open spec fn shown_name(name: Seq<char>) -> Seq<char> {
    if name == "IC"@ {
        "Control"@
    } else {
        name
    }
}

/// One item of the HTML list.
pub open spec fn html_item(result: SubgroupResult) -> Seq<char> {
    "  <li><strong>"@ + shown_name(result.name@) + "</strong>: "@ + result.result.name()
        + "</li>\n"@
}

/// The items of the HTML list, one after the other.
pub open spec fn html_items(results: Seq<SubgroupResult>) -> Seq<char>
    decreases results.len(),
{
    if results.len() == 0 {
        Seq::empty()
    } else {
        html_items(results.drop_last()) + html_item(results.last())
    }
}

/// The subgroup results as an HTML list: each name in bold with its result.
pub open spec fn html_list(results: Seq<SubgroupResult>) -> Seq<char> {
    "<ul>\n"@ + html_items(results) + "</ul>"@
}

/// One item of the plain list: the name alone.
pub open spec fn markdown_item(result: SubgroupResult) -> Seq<char> {
    " * "@ + shown_name(result.name@) + "\n"@
}

/// The subgroups as a plain list, one line for each name.
pub open spec fn markdown_list(results: Seq<SubgroupResult>) -> Seq<char>
    decreases results.len(),
{
    if results.len() == 0 {
        Seq::empty()
    } else {
        markdown_list(results.drop_last()) + markdown_item(results.last())
    }
}

/// The HTML body of the result e-mail.
pub open spec fn result_html(overall: DetectionResult, results: Seq<SubgroupResult>) -> Seq<char> {
    "<h2>Your PlusLife results are in.</h2>\n\n<p>Your overall result is: "@ + overall.name()
        + "</p>\n<p>Your subgroup results are:</p>\n"@ + html_list(results) + "\n"@
}

/// The plain body of the result e-mail.
pub open spec fn result_text(overall: DetectionResult, results: Seq<SubgroupResult>) -> Seq<char> {
    "Your PlusLife results are in.\n\nYour overall result is: "@ + overall.name()
        + "\nYour subgroup results are:\n"@ + markdown_list(results) + "\n"@
}

/// The plain body of the error e-mail.
pub open spec fn error_text(error: Seq<char>, id: u128) -> Seq<char> {
    "Sorry, an error occurred notifying you of your PlusLife result: "@ + error
        + ". Your request ID was "@ + uuid_hyphenated(id)
}

/// The chart of a completed test as the one file part of the result e-mail.
pub open spec fn chart_part(graph_png: Seq<u8>) -> PartView {
    PartView {
        field: "inline"@,
        file_name: "graph.png"@,
        bytes: graph_png,
        mime_type: "image/png"@,
    }
}

/// The e-mail that tells `recipient` the result of a completed test.
///
/// It is sent in the name of `SENDER_NAME` through the EU region, with the
/// subject `Your PlusLife Results`, a plain and an HTML body that give the
/// overall result and list the subgroups, and the chart as the inline file
/// `graph.png`.
pub fn notify(
    sender_email: &EmailAddress,
    mailgun_domain: &str,
    mailgun_api_key: &str,
    completed_test: CompletedTest,
    recipient: EmailAddress,
) -> (request: Request)
    ensures
        request@.url == messages_url(Region::EU, mailgun_domain@),
        request@.user == "api"@,
        request@.password == mailgun_api_key@,
        request@.fields.len() == 5,
        request@.fields[0].name == "from"@,
        request@.fields[0].value == sender(SENDER_NAME@, sender_email@),
        request@.fields[1].name == "to"@,
        request@.fields[1].value == recipient@,
        request@.fields[2].name == "subject"@,
        request@.fields[2].value == "Your PlusLife Results"@,
        request@.fields[3].name == "text"@,
        request@.fields[3].value == result_text(
            completed_test.overall,
            completed_test.subgroup_results@,
        ),
        request@.fields[4].name == "html"@,
        request@.fields[4].value == result_html(
            completed_test.overall,
            completed_test.subgroup_results@,
        ),
        request@.parts == seq![chart_part(completed_test.graph_png@)],
{
    let overall = completed_test.overall.to_string();

    let mut html = String::from_str(
        "<h2>Your PlusLife results are in.</h2>\n\n<p>Your overall result is: ",
    );
    html.append(overall.as_str());
    html.append("</p>\n<p>Your subgroup results are:</p>\n");
    html.append(to_html_list(completed_test.subgroup_results.as_slice()).as_str());
    html.append("\n");

    let mut text = String::from_str("Your PlusLife results are in.\n\nYour overall result is: ");
    text.append(overall.as_str());
    text.append("\nYour subgroup results are:\n");
    text.append(to_markdown_list(completed_test.subgroup_results.as_slice()).as_str());
    text.append("\n");

    let mut attachments: Vec<Attachment> = Vec::new();
    attachments.push(
        Attachment {
            attachment_type: AttachmentType::Inline,
            name: String::from_str("graph.png"),
            bytes: completed_test.graph_png,
            mime_type: image_png(),
        },
    );
    let ghost files = attachments@;

    let mut recipients: Vec<EmailAddress> = Vec::new();
    recipients.push(recipient);
    proof {
        assert(recipients@.len() == 1);
        assert(joined(recipients@) == recipient@);
    }

    let request = send_mailgun(
        SENDER_NAME,
        sender_email,
        recipients.as_slice(),
        String::from_str("Your PlusLife Results"),
        text,
        Some(html),
        &Region::EU,
        attachments,
        mailgun_domain,
        mailgun_api_key,
    );
    proof {
        assert(request@.parts =~= seq![chart_part(completed_test.graph_png@)]) by {
            assert(files.len() == 1);
            assert(part_of(files[0]) == chart_part(completed_test.graph_png@));
        }
    }
    request
}

/// The e-mail that tells `recipient` that the session `id` has failed, and
/// why.
///
/// It is sent in the name of `SENDER_NAME` through the EU region, with the
/// subject `Error getting PlusLife results` and a plain body only, which
/// gives the error and the session's identifier.
pub fn notify_error(
    sender_email: &EmailAddress,
    mailgun_domain: &str,
    mailgun_api_key: &str,
    id: u128,
    error: &str,
    recipient: EmailAddress,
) -> (request: Request)
    ensures
        request@.url == messages_url(Region::EU, mailgun_domain@),
        request@.user == "api"@,
        request@.password == mailgun_api_key@,
        request@.fields.len() == 4,
        request@.fields[0].name == "from"@,
        request@.fields[0].value == sender(SENDER_NAME@, sender_email@),
        request@.fields[1].name == "to"@,
        request@.fields[1].value == recipient@,
        request@.fields[2].name == "subject"@,
        request@.fields[2].value == "Error getting PlusLife results"@,
        request@.fields[3].name == "text"@,
        request@.fields[3].value == error_text(error@, id),
        request@.parts.len() == 0,
{
    let mut text = String::from_str(
        "Sorry, an error occurred notifying you of your PlusLife result: ",
    );
    text.append(error);
    text.append(". Your request ID was ");
    text.append(hyphenated(id).as_str());

    let mut recipients: Vec<EmailAddress> = Vec::new();
    recipients.push(recipient);
    proof {
        assert(recipients@.len() == 1);
        assert(joined(recipients@) == recipient@);
    }

    send_mailgun(
        SENDER_NAME,
        sender_email,
        recipients.as_slice(),
        String::from_str("Error getting PlusLife results"),
        text,
        None,
        &Region::EU,
        Vec::new(),
        mailgun_domain,
        mailgun_api_key,
    )
}

/// The subgroup results as an HTML list.
pub fn to_html_list(results: &[SubgroupResult]) -> (list: String)
    ensures
        list@ == html_list(results@),
{
    let mut list = String::from_str("<ul>\n");
    let mut i: usize = 0;
    while i < results.len()
        invariant
            0 <= i <= results@.len(),
            list@ == "<ul>\n"@ + html_items(results@.take(i as int)),
        decreases results@.len() - i,
    {
        let result = &results[i];
        let ghost before = list@;
        list.append("  <li><strong>");
        list.append(normalise_result_name(result.name.as_str()));
        list.append("</strong>: ");
        list.append(result.result.to_string().as_str());
        list.append("</li>\n");
        proof {
            assert(results@.take(i + 1).drop_last() =~= results@.take(i as int));
            assert(results@.take(i + 1).last() == results@[i as int]);
            assert(list@ =~= before + html_item(*result));
            assert(list@ =~= "<ul>\n"@ + html_items(results@.take(i + 1)));
        }
        i += 1;
    }
    proof {
        assert(results@.take(i as int) =~= results@);
    }
    list.append("</ul>");
    list
}

/// The subgroups as a plain list.
pub fn to_markdown_list(results: &[SubgroupResult]) -> (list: String)
    ensures
        list@ == markdown_list(results@),
{
    let mut list = String::new();
    let mut i: usize = 0;
    while i < results.len()
        invariant
            0 <= i <= results@.len(),
            list@ == markdown_list(results@.take(i as int)),
        decreases results@.len() - i,
    {
        let result = &results[i];
        let ghost before = list@;
        list.append(" * ");
        list.append(normalise_result_name(result.name.as_str()));
        list.append("\n");
        proof {
            assert(results@.take(i + 1).drop_last() =~= results@.take(i as int));
            assert(results@.take(i + 1).last() == results@[i as int]);
            assert(list@ =~= before + markdown_item(*result));
        }
        i += 1;
    }
    proof {
        assert(results@.take(i as int) =~= results@);
    }
    list
}

/// The name under which a subgroup is shown.
pub fn normalise_result_name<'a>(name: &'a str) -> (shown: &'a str)
    ensures
        shown@ == shown_name(name@),
{
    if same_text(name, "IC") {
        "Control"
    } else {
        name
    }
}

} // verus!
