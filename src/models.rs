//! Wire models of the email API, the message and attachment builders, and
//! lenient parsing of operation statuses.

use crate::codec::{base64_of, encode_base64, sniff_mime, sniffed_mime};
use vstd::prelude::*;
use vstd::string::*;

verus! {

/// Status of a long-running send operation. Unrecognised wire values map to
/// `Unknown`.
#[derive(Debug, Clone, Copy, PartialEq, Eq, Structural)]
pub enum EmailSendStatusType {
    Unknown,
    Canceled,
    Failed,
    NotStarted,
    Running,
    Succeeded,
}

/// Wire name of each status.
pub open spec fn status_name(t: EmailSendStatusType) -> Seq<char> {
    match t {
        EmailSendStatusType::Unknown => "Unknown"@,
        EmailSendStatusType::Canceled => "Canceled"@,
        EmailSendStatusType::Failed => "Failed"@,
        EmailSendStatusType::NotStarted => "NotStarted"@,
        EmailSendStatusType::Running => "Running"@,
        EmailSendStatusType::Succeeded => "Succeeded"@,
    }
}

/// The status that a wire string denotes; anything unrecognised is `Unknown`.
pub open spec fn status_of(s: Seq<char>) -> EmailSendStatusType {
    if s == "Canceled"@ {
        EmailSendStatusType::Canceled
    } else if s == "Failed"@ {
        EmailSendStatusType::Failed
    } else if s == "NotStarted"@ {
        EmailSendStatusType::NotStarted
    } else if s == "Running"@ {
        EmailSendStatusType::Running
    } else if s == "Succeeded"@ {
        EmailSendStatusType::Succeeded
    } else {
        EmailSendStatusType::Unknown
    }
}

/// Terminal statuses never change once reached.
pub open spec fn is_terminal_spec(t: EmailSendStatusType) -> bool {
    t is Succeeded || t is Failed || t is Canceled
}

/// Each status's wire name parses back to that status.
pub proof fn lemma_status_name_round_trip(t: EmailSendStatusType)
    ensures
        status_of(status_name(t)) == t,
{
    reveal_strlit("Unknown");
    reveal_strlit("Canceled");
    reveal_strlit("Failed");
    reveal_strlit("NotStarted");
    reveal_strlit("Running");
    reveal_strlit("Succeeded");
    let u = "Unknown"@;
    assert(u.len() == 7);
    assert(u != "Canceled"@ && u != "Failed"@ && u != "NotStarted"@ && u != "Succeeded"@);
    assert(u[0] != "Running"@[0]);
    assert(u != "Running"@);
    assert("Canceled"@.len() == 8 && "Failed"@.len() == 6 && "NotStarted"@.len() == 10);
    assert("Running"@.len() == 7 && "Succeeded"@.len() == 9);
    assert("Failed"@ != "Canceled"@);
    assert("NotStarted"@ != "Canceled"@ && "NotStarted"@ != "Failed"@);
    assert("Running"@ != "Canceled"@ && "Running"@ != "Failed"@ && "Running"@ != "NotStarted"@);
    assert("Succeeded"@ != "Canceled"@ && "Succeeded"@ != "Failed"@ && "Succeeded"@
        != "NotStarted"@ && "Succeeded"@ != "Running"@);
}

/// Character-wise equality of two strings.
pub fn str_equal(a: &str, b: &str) -> (r: bool)
    ensures
        r == (a@ == b@),
{
    let n = a.unicode_len();
    if n != b.unicode_len() {
        return false;
    }
    let mut i: usize = 0;
    while i < n
        invariant
            n == a@.len(),
            n == b@.len(),
            i <= n,
            forall|j: int| 0 <= j < i ==> a@[j] == b@[j],
        decreases n - i,
    {
        if a.get_char(i) != b.get_char(i) {
            return false;
        }
        i += 1;
    }
    assert(a@ =~= b@);
    true
}

impl EmailSendStatusType {
    /// Parses a wire status leniently: unrecognised text yields `Unknown`.
    pub fn parse(s: &str) -> (r: EmailSendStatusType)
        ensures
            r == status_of(s@),
    {
        if str_equal(s, "Canceled") {
            EmailSendStatusType::Canceled
        } else if str_equal(s, "Failed") {
            EmailSendStatusType::Failed
        } else if str_equal(s, "NotStarted") {
            EmailSendStatusType::NotStarted
        } else if str_equal(s, "Running") {
            EmailSendStatusType::Running
        } else if str_equal(s, "Succeeded") {
            EmailSendStatusType::Succeeded
        } else {
            EmailSendStatusType::Unknown
        }
    }

    /// Wire name of the status.
    pub fn as_str(&self) -> (r: &'static str)
        ensures
            r@ == status_name(*self),
    {
        match self {
            EmailSendStatusType::Unknown => "Unknown",
            EmailSendStatusType::Canceled => "Canceled",
            EmailSendStatusType::Failed => "Failed",
            EmailSendStatusType::NotStarted => "NotStarted",
            EmailSendStatusType::Running => "Running",
            EmailSendStatusType::Succeeded => "Succeeded",
        }
    }

    /// Wire name of the status, as an owned string.
    pub fn to_string(&self) -> (r: String)
        ensures
            r@ == status_name(*self),
    {
        self.as_str().to_owned()
    }

    /// Whether the status is terminal (`Succeeded`, `Failed` or `Canceled`).
    pub fn is_terminal(&self) -> (r: bool)
        ensures
            r == is_terminal_spec(*self),
    {
        match self {
            EmailSendStatusType::Succeeded => true,
            EmailSendStatusType::Failed => true,
            EmailSendStatusType::Canceled => true,
            _ => false,
        }
    }
}

impl std::str::FromStr for EmailSendStatusType {
    type Err = ();

    /// Lenient: never fails, unrecognised text yields `Unknown`.
    fn from_str(s: &str) -> (r: Result<EmailSendStatusType, ()>)
        ensures
            r == Ok::<EmailSendStatusType, ()>(status_of(s@)),
    {
        Ok(EmailSendStatusType::parse(s))
    }
}

/// The status of an email send operation, as carried on the wire.
#[derive(Debug, Clone, Copy, PartialEq, Eq, Structural)]
pub struct EmailSendStatus(pub EmailSendStatusType);

impl EmailSendStatus {
    /// The underlying status value.
    pub fn to_type(self) -> (r: EmailSendStatusType)
        ensures
            r == self.0,
    {
        self.0
    }

    /// Wire name of the status.
    pub fn to_string(&self) -> (r: String)
        ensures
            r@ == status_name(self.0),
    {
        self.0.to_string()
    }
}

/// Response to a submission or a status poll.
#[derive(Debug)]
pub struct SentEmailResponse {
    pub id: Option<String>,
    pub status: Option<EmailSendStatus>,
    pub error: Option<ErrorDetail>,
}

/// Error payload of the remote service, passed through unchanged.
#[derive(Debug, Clone, Default)]
pub struct ErrorDetail {
    pub additional_info: Option<Vec<ErrorAdditionalInfo>>,
    pub code: Option<String>,
    pub message: Option<String>,
    pub target: Option<String>,
}

/// One entry of additional error information.
#[derive(Debug, Clone)]
pub struct ErrorAdditionalInfo {
    pub info: Option<String>,
    pub info_type: Option<String>,
}

/// A validated email, ready to be serialised and submitted.
#[derive(Debug)]
pub struct SentEmail {
    pub headers: Option<HeaderSet>,
    pub sender: String,
    pub content: EmailContent,
    pub recipients: Recipients,
    pub attachments: Option<Vec<EmailAttachment>>,
    pub reply_to: Option<Vec<EmailAddress>>,
    pub user_engagement_tracking_disabled: Option<bool>,
}

/// Collects the parts of a `SentEmail`; `build` checks the required ones.
#[derive(Debug)]
pub struct SentEmailBuilder {
    pub headers: Option<HeaderSet>,
    pub sender: Option<String>,
    pub content: Option<EmailContent>,
    pub recipients: Option<Recipients>,
    pub attachments: Option<Vec<EmailAttachment>>,
    pub reply_to: Option<Vec<EmailAddress>>,
    pub user_engagement_tracking_disabled: Option<bool>,
}

impl SentEmailBuilder {
    /// A builder with no part set.
    pub fn new() -> (r: Self)
        ensures
            r.headers is None,
            r.sender is None,
            r.content is None,
            r.recipients is None,
            r.attachments is None,
            r.reply_to is None,
            r.user_engagement_tracking_disabled is None,
    {
        SentEmailBuilder {
            headers: None,
            sender: None,
            content: None,
            recipients: None,
            attachments: None,
            reply_to: None,
            user_engagement_tracking_disabled: None,
        }
    }

    /// Sets the custom headers.
    pub fn headers(self, headers: Vec<Header>) -> (r: Self)
        ensures
            r == (SentEmailBuilder { headers: Some(HeaderSet(headers)), ..self }),
    {
        SentEmailBuilder { headers: Some(HeaderSet(headers)), ..self }
    }

    /// Sets the sender address.
    pub fn sender(self, sender: String) -> (r: Self)
        ensures
            r == (SentEmailBuilder { sender: Some(sender), ..self }),
    {
        SentEmailBuilder { sender: Some(sender), ..self }
    }

    /// Sets the content.
    pub fn content(self, content: EmailContent) -> (r: Self)
        ensures
            r == (SentEmailBuilder { content: Some(content), ..self }),
    {
        SentEmailBuilder { content: Some(content), ..self }
    }

    /// Sets the recipients.
    pub fn recipients(self, recipients: Recipients) -> (r: Self)
        ensures
            r == (SentEmailBuilder { recipients: Some(recipients), ..self }),
    {
        SentEmailBuilder { recipients: Some(recipients), ..self }
    }

    /// Sets the attachments.
    pub fn attachments(self, attachments: Vec<EmailAttachment>) -> (r: Self)
        ensures
            r == (SentEmailBuilder { attachments: Some(attachments), ..self }),
    {
        SentEmailBuilder { attachments: Some(attachments), ..self }
    }

    /// Sets the reply-to addresses.
    pub fn reply_to(self, reply_to: Vec<EmailAddress>) -> (r: Self)
        ensures
            r == (SentEmailBuilder { reply_to: Some(reply_to), ..self }),
    {
        SentEmailBuilder { reply_to: Some(reply_to), ..self }
    }

    /// Sets whether user engagement tracking is disabled.
    pub fn user_engagement_tracking_disabled(self, user_engagement_tracking_disabled: bool) -> (r:
        Self)
        ensures
            r == (SentEmailBuilder {
                user_engagement_tracking_disabled: Some(user_engagement_tracking_disabled),
                ..self
            }),
    {
        SentEmailBuilder {
            user_engagement_tracking_disabled: Some(user_engagement_tracking_disabled),
            ..self
        }
    }

    /// Builds the email. The sender, the content and the recipients are
    /// required, checked in that order; the first missing one is reported.
    pub fn build(self) -> (r: Result<SentEmail, &'static str>)
        ensures
            self.sender is None ==> (r matches Err(e) && e@ == "Sender is required"@),
            self.sender is Some && self.content is None ==> (r matches Err(e) && e@
                == "Content is required"@),
            self.sender is Some && self.content is Some && self.recipients is None ==> (r matches Err(
                e,
            ) && e@ == "Recipients are required"@),
            r is Ok <==> (self.sender is Some && self.content is Some && self.recipients is Some),
            r matches Ok(m) ==> (m == SentEmail {
                headers: self.headers,
                sender: self.sender.unwrap(),
                content: self.content.unwrap(),
                recipients: self.recipients.unwrap(),
                attachments: self.attachments,
                reply_to: self.reply_to,
                user_engagement_tracking_disabled: self.user_engagement_tracking_disabled,
            }),
    {
        let sender = match self.sender {
            Some(s) => s,
            None => return Err("Sender is required"),
        };
        let content = match self.content {
            Some(c) => c,
            None => return Err("Content is required"),
        };
        let recipients = match self.recipients {
            Some(r) => r,
            None => return Err("Recipients are required"),
        };
        Ok(
            SentEmail {
                headers: self.headers,
                sender,
                content,
                recipients,
                attachments: self.attachments,
                reply_to: self.reply_to,
                user_engagement_tracking_disabled: self.user_engagement_tracking_disabled,
            },
        )
    }
}

/// An attachment as sent on the wire.
#[derive(Debug)]
pub struct EmailAttachment {
    pub name: Option<String>,
    pub attachment_type: Option<String>,
    pub content_bytes_base64: Option<String>,
}

/// What reading an attachment's file gave: the library decides on it, the
/// caller performs the reading.
#[derive(Debug)]
pub enum FileLoad {
    /// No file exists at the path.
    Missing,
    /// The path has no final file-name component.
    NoFileName,
    /// Opening failed; carries the failure's description.
    OpenFailed(String),
    /// Reading failed; carries the failure's description.
    ReadFailed(String),
    /// The file's name and its whole contents.
    Loaded { name: String, bytes: Vec<u8> },
}

/// MIME type given to a file attachment: the sniffed type, or
/// `application/octet-stream` when the contents are not recognised.
pub open spec fn content_type_of(b: Seq<u8>) -> Seq<char> {
    match sniffed_mime(b) {
        Some(m) => m,
        None => "application/octet-stream"@,
    }
}

/// Collects the parts of an `EmailAttachment`: either encoded content given
/// directly, or a file whose contents are encoded at build time.
#[derive(Debug)]
pub struct EmailAttachmentBuilder {
    pub name: Option<String>,
    pub attachment_type: Option<String>,
    pub content_bytes_base64: Option<String>,
    pub file_path: Option<String>,
}

impl EmailAttachmentBuilder {
    /// A builder with no part set.
    pub fn new() -> (r: Self)
        ensures
            r.name is None,
            r.attachment_type is None,
            r.content_bytes_base64 is None,
            r.file_path is None,
    {
        EmailAttachmentBuilder {
            name: None,
            attachment_type: None,
            content_bytes_base64: None,
            file_path: None,
        }
    }

    /// Sets the name, the content type and the already encoded content.
    pub fn content_bytes_base64(
        self,
        name: String,
        content_type: String,
        content_bytes_base64: String,
    ) -> (r: Self)
        ensures
            r == (EmailAttachmentBuilder {
                name: Some(name),
                attachment_type: Some(content_type),
                content_bytes_base64: Some(content_bytes_base64),
                ..self
            }),
    {
        EmailAttachmentBuilder {
            name: Some(name),
            attachment_type: Some(content_type),
            content_bytes_base64: Some(content_bytes_base64),
            ..self
        }
    }

    /// Sets the path of a file whose contents become the attachment.
    pub fn file_to_base64(self, file_path: &str) -> (r: Self)
        ensures
            r.file_path matches Some(p) && p@ == file_path@,
            r.name == self.name,
            r.attachment_type == self.attachment_type,
            r.content_bytes_base64 == self.content_bytes_base64,
    {
        EmailAttachmentBuilder { file_path: Some(file_path.to_owned()), ..self }
    }

    /// Builds the attachment. With a file path set, `load` is what reading
    /// that file gave; the name comes from the file, the content type is
    /// sniffed from its bytes and the content is their base64 text. Without a
    /// file path, the encoded content set earlier is required.
    pub fn build(self, load: Option<FileLoad>) -> (r: Result<EmailAttachment, String>)
        requires
            self.file_path is Some <==> load is Some,
        ensures
            match load {
                Some(FileLoad::Missing) => r matches Err(e) && e@ == "File does not exist"@,
                Some(FileLoad::NoFileName) => r matches Err(e) && e@ == "File name is required"@,
                Some(FileLoad::OpenFailed(d)) => r matches Err(e) && e@ == "Failed to open file "@
                    + d@,
                Some(FileLoad::ReadFailed(d)) => r matches Err(e) && e@ == "Failed to read file "@
                    + d@,
                Some(FileLoad::Loaded { name, bytes }) => r matches Ok(a) && a.name == Some(name)
                    && a.attachment_type is Some && a.attachment_type.unwrap()@ == content_type_of(
                    bytes@,
                ) && a.content_bytes_base64 is Some && a.content_bytes_base64.unwrap()@
                    == base64_of(bytes@),
                None => match self.content_bytes_base64 {
                    Some(c) => r matches Ok(a) && a == (EmailAttachment {
                        name: self.name,
                        attachment_type: self.attachment_type,
                        content_bytes_base64: Some(c),
                    }),
                    None => r matches Err(e) && e@ == "Content is required"@,
                },
            },
    {
        match load {
            Some(FileLoad::Missing) => Err("File does not exist".to_owned()),
            Some(FileLoad::NoFileName) => Err("File name is required".to_owned()),
            Some(FileLoad::OpenFailed(d)) => {
                let mut m = "Failed to open file ".to_owned();
                m.append(d.as_str());
                Err(m)
            },
            Some(FileLoad::ReadFailed(d)) => {
                let mut m = "Failed to read file ".to_owned();
                m.append(d.as_str());
                Err(m)
            },
            Some(FileLoad::Loaded { name, bytes }) => {
                let content_type = match sniff_mime(bytes.as_slice()) {
                    Some(m) => m,
                    None => "application/octet-stream".to_owned(),
                };
                let encoded = encode_base64(bytes.as_slice());
                Ok(
                    EmailAttachment {
                        name: Some(name),
                        attachment_type: Some(content_type),
                        content_bytes_base64: Some(encoded),
                    },
                )
            },
            None => match self.content_bytes_base64 {
                Some(c) => Ok(
                    EmailAttachment {
                        name: self.name,
                        attachment_type: self.attachment_type,
                        content_bytes_base64: Some(c),
                    },
                ),
                None => Err("Content is required".to_owned()),
            },
        }
    }
}

/// Subject and bodies of an email.
#[derive(Debug, Clone)]
pub struct EmailContent {
    pub subject: Option<String>,
    pub plain_text: Option<String>,
    pub html: Option<String>,
}

/// Custom headers of an email; on the wire, an object from name to value.
#[derive(Debug, Clone)]
pub struct HeaderSet(pub Vec<Header>);

/// One custom header.
#[derive(Debug, Clone)]
pub struct Header {
    pub name: Option<String>,
    pub value: Option<String>,
}

/// The wire object of a header list: each complete header sets its name to
/// its value, so a later header of the same name overrides an earlier one.
pub open spec fn header_map(h: Seq<Header>) -> Map<Seq<char>, Seq<char>>
    decreases h.len(),
{
    if h.len() == 0 {
        map![]
    } else {
        let prev = header_map(h.drop_last());
        match (h.last().name, h.last().value) {
            (Some(n), Some(v)) => prev.insert(n@, v@),
            _ => prev,
        }
    }
}

/// Name-value pairs whose names are distinct and which give exactly the map `m`.
pub open spec fn pairs_match_map(p: Seq<(String, String)>, m: Map<Seq<char>, Seq<char>>) -> bool {
    &&& forall|i: int, j: int| 0 <= i < j < p.len() ==> p[i].0@ != p[j].0@
    &&& forall|i: int|
        0 <= i < p.len() ==> m.contains_key(#[trigger] p[i].0@) && m[p[i].0@] == p[i].1@
    &&& forall|k: Seq<char>| #[trigger] m.contains_key(k) ==> exists|i: int| 0 <= i < p.len() && p[i].0@ == k
}

impl HeaderSet {
    /// The wire object of the headers as name-value pairs: one pair per
    /// distinct name among the complete headers, with the value of the last
    /// header of that name, in order of each name's first appearance.
    pub fn wire_pairs(&self) -> (r: Vec<(String, String)>)
        ensures
            pairs_match_map(r@, header_map(self.0@)),
    {
        let mut r: Vec<(String, String)> = Vec::new();
        let mut i: usize = 0;
        while i < self.0.len()
            invariant
                i <= self.0@.len(),
                pairs_match_map(r@, header_map(self.0@.subrange(0, i as int))),
            decreases self.0@.len() - i,
        {
            let ghost before = r@;
            let ghost m0 = header_map(self.0@.subrange(0, i as int));
            proof {
                assert(self.0@.subrange(0, i + 1).drop_last() =~= self.0@.subrange(0, i as int));
            }
            let h = &self.0[i];
            match (&h.name, &h.value) {
                (Some(n), Some(v)) => {
                    let mut j: usize = 0;
                    let mut found = false;
                    while j < r.len() && !found
                        invariant
                            r@ == before,
                            j <= r@.len(),
                            forall|k: int| 0 <= k < j ==> r@[k].0@ != n@,
                            found ==> j < r@.len() && r@[j as int].0@ == n@,
                        decreases r@.len() - j + (if found {
                            0int
                        } else {
                            1int
                        }),
                    {
                        if str_equal(r[j].0.as_str(), n.as_str()) {
                            found = true;
                        } else {
                            j += 1;
                        }
                    }
                    let ghost m1 = m0.insert(n@, v@);
                    if found {
                        let name = r[j].0.clone();
                        r.set(j, (name, v.clone()));
                        assert forall|k: Seq<char>| #[trigger] m1.contains_key(k) implies exists|
                            x: int,
                        | 0 <= x < r@.len() && r@[x].0@ == k by {
                            if k != n@ {
                                let x = choose|x: int| 0 <= x < before.len() && before[x].0@ == k;
                                assert(r@[x].0@ == k);
                            } else {
                                assert(r@[j as int].0@ == k);
                            }
                        }
                    } else {
                        r.push((n.clone(), v.clone()));
                        assert forall|k: Seq<char>| #[trigger] m1.contains_key(k) implies exists|
                            x: int,
                        | 0 <= x < r@.len() && r@[x].0@ == k by {
                            if k != n@ {
                                let x = choose|x: int| 0 <= x < before.len() && before[x].0@ == k;
                                assert(r@[x].0@ == k);
                            } else {
                                assert(r@[before.len() as int].0@ == k);
                            }
                        }
                    }
                    assert(pairs_match_map(r@, m1));
                },
                _ => {},
            }
            i += 1;
        }
        assert(self.0@.subrange(0, self.0@.len() as int) =~= self.0@);
        r
    }
}

/// Recipients of an email.
#[derive(Debug, Clone)]
pub struct Recipients {
    pub to: Option<Vec<EmailAddress>>,
    pub cc: Option<Vec<EmailAddress>>,
    pub b_cc: Option<Vec<EmailAddress>>,
}

/// An address with an optional display name.
#[derive(Debug, Clone)]
pub struct EmailAddress {
    pub email: Option<String>,
    pub display_name: Option<String>,
}

/// Body of a failed response.
#[derive(Debug)]
pub struct ErrorResponse {
    pub error: Option<ErrorDetail>,
}

/// Host and access key of the service endpoint.
#[derive(Debug)]
pub struct EndPointParams {
    pub host_name: String,
    pub access_key: String,
}

} // verus!
