use crate::error::KindleError;
use crate::text::{decimal, file_name_of, last_segment, push_decimal};
use base64::Engine as _;
use vstd::prelude::*;

verus! {

/// The mail-send request: one message, kept in the sent items.
pub struct Email {
    pub message: Message,
    pub save_to_sent_items: bool,
}

pub struct Message {
    pub subject: String,
    pub body: Body,
    pub to_recipients: Vec<Recipient>,
    pub attachments: Vec<Attachment>,
}

pub struct Body {
    pub content_type: String,
    pub content: String,
}

pub struct Recipient {
    pub email_address: EmailAddress,
}

pub struct EmailAddress {
    pub address: String,
}

pub struct Attachment {
    pub odata_type: String,
    pub name: String,
    pub content_type: String,
    pub content_bytes: String,
}

/// The standard base64 text (padded, `+` and `/`) of a byte sequence.
pub uninterp spec fn base64_of(b: Seq<u8>) -> Seq<char>;

/// Relies on base64's `general_purpose::STANDARD.encode`: the padded standard
/// alphabet encoding of the bytes, a function of the bytes alone; four
/// characters for each started group of three bytes. It panics where the encoded length overflows `usize`, which no
/// input of at most half of `usize::MAX` bytes reaches.
#[verifier::external_body]
fn encode_base64(b: &[u8]) -> (r: String)
    requires
        b@.len() <= usize::MAX / 2,
    ensures
        r@ == base64_of(b@),
        r@.len() == 4 * ((b@.len() + 2) / 3),
{
    base64::engine::general_purpose::STANDARD.encode(b)
}

/// The attachment of `content` under `name`, as the mail gateway takes it.
pub open spec fn attachment_ok(a: Attachment, name: Seq<char>, content: Seq<u8>) -> bool {
    &&& a.odata_type@ == "#microsoft.graph.fileAttachment"@
    &&& a.name@ == name
    &&& a.content_type@ == "application/octet-stream"@
    &&& a.content_bytes@ == base64_of(content)
}

/// The message that delivers `content`, stored under the name `name`, to each
/// of `emails` in order.
pub open spec fn email_ok(e: Email, emails: Seq<String>, name: Seq<char>, content: Seq<u8>) -> bool {
    &&& e.save_to_sent_items
    &&& e.message.subject@ == "Your Kindle File"@
    &&& e.message.body.content_type@ == "Text"@
    &&& e.message.body.content@ == Seq::<char>::empty()
    &&& e.message.to_recipients@.len() == emails.len()
    &&& forall|i: int|
        0 <= i < emails.len() ==> #[trigger] e.message.to_recipients@[i].email_address.address@
            == emails[i]@
    &&& e.message.attachments@.len() == 1
    &&& attachment_ok(e.message.attachments@[0], name, content)
}

/// Whether an HTTP status code reports success.
pub open spec fn is_success(status: u16) -> bool {
    200 <= status < 300
}

pub open spec fn send_mail_url_text() -> Seq<char> {
    "https://graph.microsoft.com/v1.0/me/sendMail"@
}

/// The mail-send endpoint of the signed-in user.
pub fn send_mail_url() -> (r: &'static str)
    ensures
        r@ == send_mail_url_text(),
{
    "https://graph.microsoft.com/v1.0/me/sendMail"
}

/// Whether the gateway's status reports a delivery: any 2xx.
pub fn delivery_accepted(status: u16) -> (r: bool)
    ensures
        r == is_success(status),
{
    200 <= status && status < 300
}

/// Sends e-books to a fixed list of e-reader addresses.
pub struct KindleService<'a> {
    pub emails: &'a [String],
}

impl<'a> KindleService<'a> {
    pub fn new(emails: &'a [String]) -> (r: Self)
        ensures
            r.emails == emails,
    {
        KindleService { emails }
    }

    /// The message that carries the file read from `file_path`, whose bytes
    /// are `content`. Fails where the path has no file name after its last `/`.
    pub fn build_email(&self, file_path: &str, content: &[u8]) -> (r: Result<Email, KindleError>)
        requires
            content@.len() <= usize::MAX / 2,
        ensures
            r is Err <==> last_segment(file_path@).len() == 0,
            r matches Ok(e) ==> email_ok(e, self.emails@, last_segment(file_path@), content@),
            r matches Err(e) ==> e.message@ == "Failed to get filename from file path"@,
    {
        let name = file_name_of(file_path);
        if name.as_str().unicode_len() == 0 {
            return Err(KindleError::plain("Failed to get filename from file path"));
        }
        let content_bytes = encode_base64(content);
        let mut to_recipients: Vec<Recipient> = Vec::new();
        let mut i: usize = 0;
        while i < self.emails.len()
            invariant
                i <= self.emails@.len(),
                to_recipients@.len() == i,
                forall|j: int|
                    0 <= j < i ==> #[trigger] to_recipients@[j].email_address.address@
                        == self.emails@[j]@,
            decreases self.emails@.len() - i,
        {
            let address = self.emails[i].clone();
            to_recipients.push(Recipient { email_address: EmailAddress { address } });
            i = i + 1;
        }
        let attachment = Attachment {
            odata_type: String::from_str("#microsoft.graph.fileAttachment"),
            name,
            content_type: String::from_str("application/octet-stream"),
            content_bytes,
        };
        let mut attachments: Vec<Attachment> = Vec::new();
        attachments.push(attachment);
        let message = Message {
            subject: String::from_str("Your Kindle File"),
            body: Body { content_type: String::from_str("Text"), content: String::new() },
            to_recipients,
            attachments,
        };
        Ok(Email { message, save_to_sent_items: true })
    }

    /// Reads the gateway's answer: any 2xx status is a delivery; any other is
    /// an error that carries the status and the response body as they came.
    pub fn check_response(&self, status: u16, body: &str) -> (r: Result<(), KindleError>)
        ensures
            r is Ok <==> is_success(status),
            r matches Err(e) ==> e.message@ == "Failed to send email: "@ + decimal(status as nat)
                + " "@ + body@,
    {
        if delivery_accepted(status) {
            Ok(())
        } else {
            let mut message = String::from_str("Failed to send email: ");
            push_decimal(&mut message, status as u64);
            message.append(" ");
            message.append(body);
            Err(KindleError { message })
        }
    }
}

} // verus!
