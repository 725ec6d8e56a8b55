//! Outgoing e-mail: who sends it and to whom. Delivering it over SMTP happens around
//! this library, through an `EmailSender`.
use vstd::prelude::*;
use vstd::string::*;
use crate::text::{split_once, split_once_spec, string_of};

verus! {

/// Sends one message; the error is a message for the log. Implemented where the
/// messages leave the program (SMTP in production, a stand-in in tests).
pub trait EmailSender {
    fn send(&self, to: &str, subject: &str, body: &str) -> Result<(), String>;
}

#[verifier::external_type_specification]
#[verifier::external_body]
pub struct ExAddress(lettre::Address);

/// What `lettre::Address::new(user, domain)` says of an address: `None` where it accepts
/// it, else the text of its `AddressError`.
pub uninterp spec fn lettre_address_error(user: Seq<char>, domain: Seq<char>) -> Option<Seq<char>>;

/// An address that lettre accepted, with the user and the domain it was built from.
pub struct MailAddress {
    address: lettre::Address,
    user: String,
    domain: String,
}

impl MailAddress {
    /// The part before the `@`.
    pub closed spec fn spec_user(&self) -> Seq<char> {
        self.user@
    }

    /// The part after the `@`.
    pub closed spec fn spec_domain(&self) -> Seq<char> {
        self.domain@
    }

    /// The lettre address.
    pub fn address(&self) -> &lettre::Address {
        &self.address
    }

    /// The part before the `@`.
    pub fn user(&self) -> (r: &str)
        ensures
            r@ == self.spec_user(),
    {
        self.user.as_str()
    }

    /// The part after the `@`.
    pub fn domain(&self) -> (r: &str)
        ensures
            r@ == self.spec_domain(),
    {
        self.domain.as_str()
    }
}

/// `lettre::Address::new(user, domain)`, with its error as text; accepted or refused as
/// the named `lettre_address_error` says. An accepted address keeps the user and the
/// domain as given (`Address::user` and `Address::domain` give them back).
#[verifier::external_body]
fn address_new(user: &str, domain: &str) -> (r: Result<MailAddress, String>)
    ensures
        r is Ok <==> lettre_address_error(user@, domain@) is None,
        r matches Err(m) ==> lettre_address_error(user@, domain@) == Some(m@),
        r matches Ok(a) ==> a.spec_user() == user@ && a.spec_domain() == domain@,
{
    match lettre::Address::new(user, domain) {
        Ok(a) => Ok(MailAddress { user: a.user().to_string(), domain: a.domain().to_string(), address: a }),
        Err(e) => Err(e.to_string()),
    }
}

/// The sender and the recipient of a message, as lettre addresses.
pub struct Envelope {
    pub from_name: String,
    pub from: MailAddress,
    pub to: MailAddress,
}

/// The SMTP account that sends the service's mail.
pub struct Email {
    host: String,
    login: String,
    pass: String,
    from_email: String,
    from_name: String,
    timeout: core::time::Duration,
}

/// Why a message from `from_email` to `to` cannot be addressed, checked in this order: the
/// sender lacks `@`, lettre refuses the sender, the recipient lacks `@`, lettre refuses
/// the recipient. `None` where it can be addressed.
pub open spec fn envelope_error(from_email: Seq<char>, to: Seq<char>) -> Option<Seq<char>> {
    match split_once_spec(from_email, '@') {
        None => Some("invalid email: missing @ from 'from'"@),
        Some((fl, fd)) => match lettre_address_error(fl, fd) {
            Some(e) => Some("failed to create address from 'from': "@ + e),
            None => match split_once_spec(to, '@') {
                None => Some("invalid email: missing @ from 'to'"@),
                Some((tl, td)) => match lettre_address_error(tl, td) {
                    Some(e) => Some("failed to create address from 'to': "@ + e),
                    None => None,
                },
            },
        },
    }
}

impl Email {
    pub closed spec fn spec_host(&self) -> Seq<char> {
        self.host@
    }

    pub closed spec fn spec_login(&self) -> Seq<char> {
        self.login@
    }

    pub closed spec fn spec_pass(&self) -> Seq<char> {
        self.pass@
    }

    pub closed spec fn spec_timeout(&self) -> core::time::Duration {
        self.timeout
    }

    pub closed spec fn spec_from_email(&self) -> Seq<char> {
        self.from_email@
    }

    pub closed spec fn spec_from_name(&self) -> Seq<char> {
        self.from_name@
    }

    pub fn new(
        host: &str,
        login: &str,
        pass: &str,
        from_email: &str,
        from_name: &str,
        timeout: core::time::Duration,
    ) -> (r: Self)
        ensures
            r.spec_host() == host@,
            r.spec_login() == login@,
            r.spec_pass() == pass@,
            r.spec_from_email() == from_email@,
            r.spec_from_name() == from_name@,
            r.spec_timeout() == timeout,
    {
        Email {
            host: string_of(host),
            login: string_of(login),
            pass: string_of(pass),
            from_email: string_of(from_email),
            from_name: string_of(from_name),
            timeout,
        }
    }

    /// A copy of the account.
    pub fn clone(&self) -> (r: Self)
        ensures
            r.spec_host() == self.spec_host(),
            r.spec_login() == self.spec_login(),
            r.spec_pass() == self.spec_pass(),
            r.spec_from_email() == self.spec_from_email(),
            r.spec_from_name() == self.spec_from_name(),
            r.spec_timeout() == self.spec_timeout(),
    {
        Email {
            host: self.host.clone(),
            login: self.login.clone(),
            pass: self.pass.clone(),
            from_email: self.from_email.clone(),
            from_name: self.from_name.clone(),
            timeout: self.timeout,
        }
    }

    pub fn host(&self) -> (r: &str)
        ensures
            r@ == self.spec_host(),
    {
        self.host.as_str()
    }

    pub fn login(&self) -> (r: &str)
        ensures
            r@ == self.spec_login(),
    {
        self.login.as_str()
    }

    pub fn pass(&self) -> (r: &str)
        ensures
            r@ == self.spec_pass(),
    {
        self.pass.as_str()
    }

    pub fn timeout(&self) -> (r: core::time::Duration)
        ensures
            r == self.spec_timeout(),
    {
        self.timeout
    }

    /// The sender (with its display name) and the recipient of a message to `to`, or why
    /// there are none; the error texts are those `send` reports.
    pub fn envelope(&self, to: &str) -> (r: Result<Envelope, String>)
        ensures
            r is Ok <==> envelope_error(self.spec_from_email(), to@) is None,
            r matches Err(e) ==> envelope_error(self.spec_from_email(), to@) == Some(e@),
            r matches Ok(env) ==> {
                &&& env.from_name@ == self.spec_from_name()
                &&& split_once_spec(self.spec_from_email(), '@') == Some(
                    (env.from.spec_user(), env.from.spec_domain()),
                )
                &&& split_once_spec(to@, '@') == Some((env.to.spec_user(), env.to.spec_domain()))
            },
    {
        let (local_from, domain_from) = match split_once(self.from_email.as_str(), '@') {
            Some(p) => p,
            None => {
                return Err(String::from_str("invalid email: missing @ from 'from'"));
            },
        };
        let from = match address_new(local_from.as_str(), domain_from.as_str()) {
            Ok(a) => a,
            Err(e) => {
                let mut m = String::from_str("failed to create address from 'from': ");
                m.append(e.as_str());
                return Err(m);
            },
        };
        let (local_to, domain_to) = match split_once(to, '@') {
            Some(p) => p,
            None => {
                return Err(String::from_str("invalid email: missing @ from 'to'"));
            },
        };
        let to_address = match address_new(local_to.as_str(), domain_to.as_str()) {
            Ok(a) => a,
            Err(e) => {
                let mut m = String::from_str("failed to create address from 'to': ");
                m.append(e.as_str());
                return Err(m);
            },
        };
        Ok(Envelope { from_name: self.from_name.clone(), from, to: to_address })
    }
}

} // verus!
