use vstd::prelude::*;
use lettre::message::header::ContentType;
use lettre::message::Mailbox;
use crate::config::AppConfig;
use crate::text::{concat, to_owned_string};

verus! {

/// The SMTP envelope of a message: who sends it and who receives it
/// (`lettre::address::Envelope`).
#[verifier::external_type_specification]
#[verifier::external_body]
pub struct ExEnvelope(lettre::address::Envelope);

/// Whether lettre's mailbox grammar accepts a text (`<Mailbox as FromStr>::from_str`).
pub uninterp spec fn mailbox_accepts(text: Seq<char>) -> bool;

/// The message, as lettre formats it for SMTP (`Message::formatted`), that the builder
/// makes of a sender mailbox, a recipient mailbox, a subject, an HTML body and a date
/// given in seconds since the Unix epoch (`Message::builder().from(..).to(..)
/// .subject(..).header(ContentType::TEXT_HTML).date(..).body(..)`).
pub uninterp spec fn html_message_text(
    from: Seq<char>,
    to: Seq<char>,
    subject: Seq<char>,
    body: Seq<char>,
    date_secs: u64,
) -> Seq<u8>;

/// The last second, counted from the Unix epoch, that a message's `Date` header can
/// carry: 9999-12-31 23:59:59 UTC (httpdate panics on later times).
pub const LATEST_DATE_SECS: u64 = 253402300799;

/// A message ready for the SMTP transport: its envelope and its text.
pub struct OutgoingMessage {
    pub envelope: lettre::address::Envelope,
    pub text: Vec<u8>,
}

/// Which part of a message could not be made.
#[derive(Debug, Clone, Copy, PartialEq, Eq, Structural)]
pub enum MessageFailure {
    /// The sender is no mailbox.
    Sender,
    /// The recipient is no mailbox.
    Recipient,
    /// The builder refused the message.
    Assembly,
}

/// Parses the sender and the recipient as mailboxes (`<Mailbox as FromStr>::from_str`),
/// then builds the HTML message from one to the other with the subject, the body and
/// the date, and returns its envelope and its text (`Message::envelope`,
/// `Message::formatted`).
///
/// Claimed of lettre: the sender is parsed first; with both mailboxes accepted the
/// builder succeeds, since it fails only without a `From`, with several `From`s and no
/// `Sender`, or without a recipient; the text is a function of the five values, as the
/// builder inserts no `Message-ID` and takes the given date. The envelope is the one
/// lettre derives from the `From` and `To` headers; nothing is claimed of it.
#[verifier::external_body]
fn build_html_message(from: &str, to: &str, subject: &str, body: &str, date_secs: u64) -> (r: Result<OutgoingMessage, MessageFailure>)
    requires
        date_secs <= LATEST_DATE_SECS,
    ensures
        r matches Err(f) ==> (f == MessageFailure::Sender <==> !mailbox_accepts(from@)),
        r matches Err(f) ==> (f == MessageFailure::Recipient <==> (mailbox_accepts(from@)
            && !mailbox_accepts(to@))),
        r is Ok <==> (mailbox_accepts(from@) && mailbox_accepts(to@)),
        r matches Ok(m) ==> m.text@ == html_message_text(from@, to@, subject@, body@, date_secs),
{
    let from = from.parse::<Mailbox>().map_err(|_| MessageFailure::Sender)?;
    let to = to.parse::<Mailbox>().map_err(|_| MessageFailure::Recipient)?;
    let date = std::time::UNIX_EPOCH + std::time::Duration::from_secs(date_secs);
    let message = lettre::Message::builder().from(from).to(to).subject(subject).header(
        ContentType::TEXT_HTML,
    ).date(date).body(body.to_string()).map_err(|_| MessageFailure::Assembly)?;
    Ok(OutgoingMessage { envelope: message.envelope().clone(), text: message.formatted() })
}

/// Port of the SMTP server when the configuration names none.
pub const DEFAULT_SMTP_PORT: u16 = 465;

/// Message of a sender address that lettre rejects.
pub const INVALID_SENDER_ERROR: &'static str = "Невалидный формат адреса отправителя: ";

/// Message of a recipient address that lettre rejects.
pub const INVALID_RECIPIENT_ERROR: &'static str = "Невалидный формат адреса получателя: ";

/// Message of a message that could not be assembled.
pub const MESSAGE_BUILD_ERROR: &'static str = "Не удалось собрать письмо";

/// An HTML e-mail to one recipient, sent from the configured account.
pub struct EmailSender<'a> {
    cfg: &'a AppConfig,
    recipient_email: &'a str,
    subject: String,
    body: String,
}

impl<'a> EmailSender<'a> {
    pub fn new(cfg: &'a AppConfig, recipient_email: &'a str, subject: String, body: String) -> (r:
        Self)
        ensures
            r.config() == cfg,
            r.recipient()@ == recipient_email@,
            r.subject_text()@ == subject@,
            r.body_text()@ == body@,
    {
        Self { cfg, recipient_email, subject, body }
    }

    pub closed spec fn config(&self) -> &'a AppConfig {
        self.cfg
    }

    pub closed spec fn recipient(&self) -> &'a str {
        self.recipient_email
    }

    pub closed spec fn subject_text(&self) -> String {
        self.subject
    }

    pub closed spec fn body_text(&self) -> String {
        self.body
    }

    /// The configuration the e-mail is sent with.
    pub fn cfg(&self) -> (r: &'a AppConfig)
        ensures
            r == self.config(),
    {
        self.cfg
    }

    /// The recipient's address.
    pub fn recipient_email(&self) -> (r: &'a str)
        ensures
            r@ == self.recipient()@,
    {
        self.recipient_email
    }

    /// The subject line.
    pub fn subject(&self) -> (r: &String)
        ensures
            r@ == self.subject_text()@,
    {
        &self.subject
    }

    /// The HTML body.
    pub fn body(&self) -> (r: &String)
        ensures
            r@ == self.body_text()@,
    {
        &self.body
    }

    /// The SMTP port: the configured one, else 465.
    pub fn smtp_port(&self) -> (r: u16)
        ensures
            r == match self.config().email_smtp_port {
                Some(p) => p,
                None => DEFAULT_SMTP_PORT,
            },
    {
        match self.cfg.email_smtp_port {
            Some(p) => p,
            None => DEFAULT_SMTP_PORT,
        }
    }

    /// The message to hand to the SMTP transport, dated `date_secs` seconds after the
    /// Unix epoch: from the configured sender to the recipient, with the subject and the
    /// HTML body, as its envelope and its text. Fails, with the offending address, when
    /// lettre rejects the sender or else the recipient.
    pub fn prepare_message(&self, date_secs: u64) -> (r: Result<OutgoingMessage, String>)
        requires
            date_secs <= LATEST_DATE_SECS,
        ensures
            !mailbox_accepts(self.config().email_sender@) ==> (r matches Err(m) && m@
                == INVALID_SENDER_ERROR@ + self.config().email_sender@),
            mailbox_accepts(self.config().email_sender@) && !mailbox_accepts(self.recipient()@)
                ==> (r matches Err(m) && m@ == INVALID_RECIPIENT_ERROR@ + self.recipient()@),
            mailbox_accepts(self.config().email_sender@) && mailbox_accepts(self.recipient()@)
                ==> (r matches Ok(m) && m.text@ == html_message_text(
                self.config().email_sender@,
                self.recipient()@,
                self.subject_text()@,
                self.body_text()@,
                date_secs,
            )),
    {
        let built = build_html_message(
            self.cfg.email_sender.as_str(),
            self.recipient_email,
            self.subject.as_str(),
            self.body.as_str(),
            date_secs,
        );
        match built {
            Ok(message) => Ok(message),
            Err(MessageFailure::Sender) => Err(
                concat(INVALID_SENDER_ERROR, self.cfg.email_sender.as_str()),
            ),
            Err(MessageFailure::Recipient) => Err(
                concat(INVALID_RECIPIENT_ERROR, self.recipient_email),
            ),
            Err(MessageFailure::Assembly) => Err(to_owned_string(MESSAGE_BUILD_ERROR)),
        }
    }
}

} // verus!
