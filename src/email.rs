//! Settings of the e-mail alert channel.

use vstd::prelude::*;
use lettre::address::AddressError;
use lettre::message::Mailbox;
use lettre::Message;
use crate::text::{chars_of, push_all, string_of};

verus! {

/// The value of a setting, empty where it is not set.
pub open spec fn setting_or_empty(v: Option<String>) -> Seq<char> {
    match v {
        Some(s) => s@,
        None => Seq::empty(),
    }
}

/// The SMTP account and the addresses alerts go between.
#[derive(Debug)]
pub struct Config {
    pub smtp_username: String,
    pub smtp_password: String,
    pub from_address: String,
    pub to_address: String,
    /// Whether any of the four settings was not set.
    pub missing_config: bool,
}

/// A setting's value, or an empty string where it is not set.
fn or_empty(v: Option<String>) -> (r: String)
    ensures
        r@ == setting_or_empty(v),
{
    match v {
        Some(s) => s,
        None => String::new(),
    }
}

impl Config {
    /// The settings from the values found for the sender address, the
    /// recipient address, the SMTP user name and its password. One that is
    /// not set is left empty and marks the settings as incomplete.
    pub fn new(
        from_address: Option<String>,
        to_address: Option<String>,
        smtp_username: Option<String>,
        smtp_password: Option<String>,
    ) -> (r: Result<Config, &'static str>)
        ensures
            r is Ok,
            r->Ok_0.from_address@ == setting_or_empty(from_address),
            r->Ok_0.to_address@ == setting_or_empty(to_address),
            r->Ok_0.smtp_username@ == setting_or_empty(smtp_username),
            r->Ok_0.smtp_password@ == setting_or_empty(smtp_password),
            r->Ok_0.missing_config == (from_address is None || to_address is None || smtp_username is None
                || smtp_password is None),
    {
        let missing_config = from_address.is_none() || to_address.is_none()
            || smtp_username.is_none() || smtp_password.is_none();
        Ok(
            Config {
                smtp_username: or_empty(smtp_username),
                smtp_password: or_empty(smtp_password),
                from_address: or_empty(from_address),
                to_address: or_empty(to_address),
                missing_config,
            },
        )
    }
}

/// Declares lettre's parsed mailbox, opaque to proofs.
#[verifier::external_type_specification]
#[verifier::external_body]
pub struct ExMailbox(lettre::message::Mailbox);

/// Declares lettre's address parse error, opaque to proofs.
#[verifier::external_type_specification]
#[verifier::external_body]
pub struct ExAddressError(lettre::address::AddressError);

/// Declares lettre's built e-mail message, opaque to proofs.
#[verifier::external_type_specification]
#[verifier::external_body]
pub struct ExMessage(lettre::Message);

/// Declares lettre's message building error, opaque to proofs.
#[verifier::external_type_specification]
#[verifier::external_body]
pub struct ExEmailError(lettre::error::Error);

/// Whether lettre reads `s` as a mailbox (`Name <user@domain>` or a bare
/// address).
pub uninterp spec fn mailbox_parses(s: Seq<char>) -> bool;

/// Relies on lettre's `FromStr for Mailbox`, a parser whose verdict
/// depends on the text alone.
#[verifier::external_body]
fn parse_mailbox(s: &str) -> (r: Result<Mailbox, AddressError>)
    ensures
        r is Ok <==> mailbox_parses(s@),
{
    s.parse::<Mailbox>()
}

/// Relies on `Display for AddressError`, for the error's text.
#[verifier::external_body]
fn address_error_text(e: &AddressError) -> String {
    e.to_string()
}

/// Relies on lettre's `MessageBuilder`: a message from `from` to `to` with
/// the subject and plain-text body.
#[verifier::external_body]
fn build_message(
    from: Mailbox,
    to: Mailbox,
    subject: &str,
    body: String,
) -> Result<Message, lettre::error::Error> {
    Message::builder().from(from).to(to).subject(subject).body(body)
}

/// Relies on `Display for lettre::error::Error`, for the error's text.
#[verifier::external_body]
fn email_error_text(e: &lettre::error::Error) -> String {
    e.to_string()
}

/// The start of the error for an address that does not parse; the
/// parser's own message follows it.
pub open spec fn address_failure(side: Seq<char>, text: Seq<char>) -> Seq<char> {
    "Could not convert email for '"@ + side + "' from text '"@ + text + "'. Error: "@
}

/// The start of the error for a message that could not be built.
pub open spec fn build_failure() -> Seq<char> {
    "Error when creating email: "@
}

/// `head` followed by `tail`, as a string that starts with `head`.
fn followed_by(head: Vec<char>, tail: &str) -> (r: String)
    ensures
        r@.len() >= head@.len(),
        r@.take(head@.len() as int) == head@,
{
    let mut cs = head;
    let ghost start = cs@;
    push_all(&mut cs, &chars_of(tail));
    assert(cs@.take(start.len() as int) =~= start);
    string_of(&cs)
}

/// The start of the error for an address that does not parse.
fn address_failure_text(side: &str, text: &str) -> (r: Vec<char>)
    ensures
        r@ == address_failure(side@, text@),
{
    let mut cs = chars_of("Could not convert email for '");
    push_all(&mut cs, &chars_of(side));
    push_all(&mut cs, &chars_of("' from text '"));
    push_all(&mut cs, &chars_of(text));
    push_all(&mut cs, &chars_of("'. Error: "));
    cs
}

/// The alert e-mail carrying `message`, from the configured sender to the
/// configured recipient. The sender address is checked first, then the
/// recipient address; each failure names the side and the text.
pub fn compose_alert(config: &Config, message: String) -> (r: Result<Message, String>)
    ensures
        !mailbox_parses(config.from_address@) ==> r is Err && r->Err_0@.len() >= address_failure(
            "from"@,
            config.from_address@,
        ).len() && r->Err_0@.take(address_failure("from"@, config.from_address@).len() as int)
            == address_failure("from"@, config.from_address@),
        mailbox_parses(config.from_address@) && !mailbox_parses(config.to_address@) ==> r is Err
            && r->Err_0@.len() >= address_failure("to"@, config.to_address@).len()
            && r->Err_0@.take(address_failure("to"@, config.to_address@).len() as int)
            == address_failure("to"@, config.to_address@),
        mailbox_parses(config.from_address@) && mailbox_parses(config.to_address@) ==> r is Ok || (
        r->Err_0@.len() >= build_failure().len() && r->Err_0@.take(build_failure().len() as int)
            == build_failure()),
        r is Ok ==> mailbox_parses(config.from_address@) && mailbox_parses(config.to_address@),
{
    let from = match parse_mailbox(config.from_address.as_str()) {
        Ok(m) => m,
        Err(e) => {
            let head = address_failure_text("from", config.from_address.as_str());
            return Err(followed_by(head, address_error_text(&e).as_str()));
        },
    };
    let to = match parse_mailbox(config.to_address.as_str()) {
        Ok(m) => m,
        Err(e) => {
            let head = address_failure_text("to", config.to_address.as_str());
            return Err(followed_by(head, address_error_text(&e).as_str()));
        },
    };
    match build_message(from, to, "ALERT: Api error", message) {
        Ok(m) => Ok(m),
        Err(e) => Err(followed_by(chars_of("Error when creating email: "), email_error_text(&e).as_str())),
    }
}

} // verus!
