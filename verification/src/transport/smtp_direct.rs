//! Mail straight to the recipient's mail exchangers: the message that is
//! sent, and the checks of its addresses.
use vstd::prelude::*;

verus! {

/// What `lettre` says of `s` read as a mailbox (an address, with or without
/// a display name): nothing when it accepts it, else the text of its error.
pub uninterp spec fn mailbox_error(s: Seq<char>) -> Option<Seq<char>>;

/// An optional string as optional text.
pub open spec fn opt_text(o: Option<String>) -> Option<Seq<char>> {
    match o {
        Some(m) => Some(m@),
        None => None,
    }
}

/// `s.parse::<lettre::message::Mailbox>()`, with its error written out by
/// `to_string`: `None` when `lettre` accepts `s` as a mailbox, else the text
/// of the error. The outcome is a function of `s` alone, named
/// `mailbox_error`; nothing more of it is claimed here.
#[verifier::external_body]
fn check_mailbox(s: &str) -> (r: Option<String>)
    ensures
        opt_text(r) == mailbox_error(s@),
{
    match s.parse::<lettre::message::Mailbox>() {
        Ok(_) => None,
        Err(e) => Some(e.to_string()),
    }
}

/// What `{:?}` writes for a text: the text in double quotes, with the
/// characters that need it escaped.
pub uninterp spec fn debug_text(s: Seq<char>) -> Seq<char>;

/// `format!("{:?}", s)`: the debug form of `s`. It is a function of `s`
/// alone, named `debug_text`; nothing more of it is claimed here.
#[verifier::external_body]
fn debug_string(s: &str) -> (r: String)
    ensures
        r@ == debug_text(s@),
{
    format!("{:?}", s)
}

/// Texts as `{:?}` writes a list of them: each in its debug form, separated
/// by a comma and a space, in square brackets.
pub open spec fn debug_list(items: Seq<Seq<char>>) -> Seq<char> {
    seq!['['] + debug_items(items) + seq![']']
}

/// The debug forms of `items`, separated by a comma and a space.
pub open spec fn debug_items(items: Seq<Seq<char>>) -> Seq<char>
    decreases items.len(),
{
    if items.len() == 0 {
        Seq::empty()
    } else if items.len() == 1 {
        debug_text(items[0])
    } else {
        debug_items(items.drop_last()) + seq![',', ' '] + debug_text(items.last())
    }
}

/// The port on which mail exchangers are spoken to.
pub const SMTP_PORT: u16 = 25;

/// A lower-case hexadecimal digit.
pub open spec fn is_lower_hex(c: char) -> bool {
    ('0' <= c && c <= '9') || ('a' <= c && c <= 'f')
}

/// The hyphenated lower-case text of a random (version 4) UUID:
/// `xxxxxxxx-xxxx-4xxx-xxxx-xxxxxxxxxxxx`.
pub open spec fn is_uuid_v4_text(u: Seq<char>) -> bool {
    &&& u.len() == 36
    &&& forall|k: int|
        0 <= k < 36 ==> (if k == 8 || k == 13 || k == 18 || k == 23 {
            #[trigger] u[k] == '-'
        } else {
            is_lower_hex(u[k])
        })
    &&& u[14] == '4'
}

/// `uuid::Uuid::new_v4().to_string()`: a fresh random UUID in its hyphenated
/// lower-case form. Each call may give another value; only its form is
/// claimed.
#[verifier::external_body]
fn new_uuid() -> (r: String)
    ensures
        is_uuid_v4_text(r@),
{
    uuid::Uuid::new_v4().to_string()
}

/// The text of a message id: the unique part, an at sign and the host, in
/// angle brackets.
pub open spec fn message_id_text(unique: Seq<char>, host: Seq<char>) -> Seq<char> {
    seq!['<'] + unique + seq!['@'] + host + seq!['>']
}

/// The message id for the unique part `unique` and the host `host`.
pub fn message_id(unique: &str, host: &str) -> (r: String)
    ensures
        r@ == message_id_text(unique@, host@),
{
    let mut s = String::new();
    crate::text::push_char(&mut s, '<');
    s.append(unique);
    crate::text::push_char(&mut s, '@');
    s.append(host);
    crate::text::push_char(&mut s, '>');
    assert(s@ =~= message_id_text(unique@, host@));
    s
}

/// A transport that delivers mail to the mail exchangers of the recipient's
/// domain.
pub struct SmtpDirect {
    recipient_email: String,
    sender: String,
    hostname: String,
}

/// The plain-text mail that carries one notification.
pub struct OutgoingMail {
    pub from: String,
    pub to: String,
    pub message_id: String,
    pub subject: String,
    pub body: String,
    /// The port of the mail exchanger to deliver to.
    pub port: u16,
}

/// Why mail could not be sent.
pub enum SmtpError {
    /// `lettre` does not read the sender as a mailbox; this is its error.
    InvalidSender(String),
    /// `lettre` does not read the recipient as a mailbox; this is its error.
    InvalidRecipient(String),
    /// The recipient's domain has no mail exchanger; this is the recipient.
    NoMxRecords(String),
    /// Each mail exchanger refused the mail.
    AllMxFailed { recipient: String, exchanges: Vec<String> },
    /// There is no relay server to hand the mail to.
    NoRelayServer,
}

/// Texts as a sequence of text.
pub open spec fn texts(v: Seq<String>) -> Seq<Seq<char>> {
    v.map_values(|s: String| s@)
}

fn debug_list_string(items: &Vec<String>) -> (r: String)
    ensures
        r@ == debug_list(texts(items@)),
{
    let mut s = String::new();
    crate::text::push_char(&mut s, '[');
    let mut i: usize = 0;
    while i < items.len()
        invariant
            i <= items@.len(),
            s@ == seq!['['] + debug_items(texts(items@).take(i as int)),
        decreases items@.len() - i,
    {
        let ghost before = s@;
        if i > 0 {
            crate::text::push_char(&mut s, ',');
            crate::text::push_char(&mut s, ' ');
        }
        let d = debug_string(items[i].as_str());
        s.append(d.as_str());
        let ghost t = texts(items@).take((i + 1) as int);
        assert(t.drop_last() =~= texts(items@).take(i as int));
        assert(t.last() == items@[i as int]@);
        if i == 0 {
            assert(t.len() == 1);
            assert(texts(items@).take(0) =~= Seq::<Seq<char>>::empty());
            assert(s@ =~= seq!['['] + debug_items(t));
        } else {
            assert(s@ =~= seq!['['] + debug_items(t));
        }
        i = i + 1;
    }
    assert(texts(items@).take(i as int) =~= texts(items@));
    crate::text::push_char(&mut s, ']');
    assert(s@ =~= debug_list(texts(items@)));
    s
}

impl SmtpError {
    /// The text that describes the error.
    pub fn message(&self) -> (r: String)
        ensures
            self matches SmtpError::InvalidSender(m) ==> r@ == m@,
            self matches SmtpError::InvalidRecipient(m) ==> r@ == m@,
            self matches SmtpError::NoMxRecords(e) ==> r@
                == "No MX records found for domain of recipient email: "@ + e@,
            self matches SmtpError::AllMxFailed { recipient, exchanges } ==> r@ == "Failed to send email to "@
                + recipient@ + " via all MX records: "@ + debug_list(texts(exchanges@)),
            self is NoRelayServer ==> r@ == "No relay server is configured"@,
    {
        match self {
            SmtpError::InvalidSender(m) => m.clone(),
            SmtpError::InvalidRecipient(m) => m.clone(),
            SmtpError::NoMxRecords(e) => {
                let mut s = "No MX records found for domain of recipient email: ".to_owned();
                s.append(e.as_str());
                s
            },
            SmtpError::AllMxFailed { recipient, exchanges } => {
                let mut s = "Failed to send email to ".to_owned();
                s.append(recipient.as_str());
                s.append(" via all MX records: ");
                let list = debug_list_string(exchanges);
                s.append(list.as_str());
                s
            },
            SmtpError::NoRelayServer => "No relay server is configured".to_owned(),
        }
    }
}

impl SmtpDirect {
    /// A transport from `sender` to `recipient_email` whose message ids name
    /// `hostname`.
    pub fn new(recipient_email: String, sender: String, hostname: String) -> (r: SmtpDirect)
        ensures
            r.recipient()@ == recipient_email@,
            r.sender()@ == sender@,
            r.hostname()@ == hostname@,
    {
        SmtpDirect { recipient_email, sender, hostname }
    }

    /// The recipient's address.
    pub closed spec fn recipient(&self) -> String {
        self.recipient_email
    }

    /// The sender's address.
    pub closed spec fn sender(&self) -> String {
        self.sender
    }

    /// The host named in message ids.
    pub closed spec fn hostname(&self) -> String {
        self.hostname
    }

    /// The recipient's address.
    pub fn recipient_email(&self) -> (r: &str)
        ensures
            r@ == self.recipient()@,
    {
        self.recipient_email.as_str()
    }

    /// The error for a recipient whose domain has no mail exchanger.
    pub fn no_mx_records(&self) -> (r: SmtpError)
        ensures
            r matches SmtpError::NoMxRecords(e) && e@ == self.recipient()@,
    {
        SmtpError::NoMxRecords(self.recipient_email.clone())
    }

    /// The error for a recipient all of whose mail exchangers, these, refused
    /// the mail.
    pub fn all_mx_failed(&self, exchanges: Vec<String>) -> (r: SmtpError)
        ensures
            r matches SmtpError::AllMxFailed { recipient, exchanges: x } && recipient@
                == self.recipient()@ && texts(x@) == texts(exchanges@),
    {
        SmtpError::AllMxFailed { recipient: self.recipient_email.clone(), exchanges }
    }

    /// The mail that carries a notification with `title` and `body`, under a
    /// fresh message id, for the port `SMTP_PORT`; an error when `lettre`
    /// reads the sender, or else the recipient, as no mailbox.
    pub fn compose(&self, title: &str, body: &str) -> (r: Result<OutgoingMail, SmtpError>)
        ensures
            mailbox_error(self.sender()@) matches Some(e) ==> (r matches Err(
                SmtpError::InvalidSender(m),
            ) && m@ == e),
            mailbox_error(self.sender()@) is None ==> (mailbox_error(self.recipient()@) matches Some(e)
                ==> (r matches Err(SmtpError::InvalidRecipient(m)) && m@ == e)),
            mailbox_error(self.sender()@) is None && mailbox_error(self.recipient()@) is None ==> (r matches Ok(
                m,
            ) && m.from@ == self.sender()@ && m.to@ == self.recipient()@ && m.subject@ == title@
                && m.body@ == body@ && m.port == SMTP_PORT && exists|u: Seq<char>|
                is_uuid_v4_text(u) && m.message_id@ == message_id_text(u, self.hostname()@)),
    {
        let unique = new_uuid();
        let id = message_id(unique.as_str(), self.hostname.as_str());
        if let Some(e) = check_mailbox(self.sender.as_str()) {
            return Err(SmtpError::InvalidSender(e));
        }
        if let Some(e) = check_mailbox(self.recipient_email.as_str()) {
            return Err(SmtpError::InvalidRecipient(e));
        }
        Ok(
            OutgoingMail {
                from: self.sender.clone(),
                to: self.recipient_email.clone(),
                message_id: id,
                subject: title.to_owned(),
                body: body.to_owned(),
                port: SMTP_PORT,
            },
        )
    }
}

} // verus!
