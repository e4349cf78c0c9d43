//! The e-mail address that a session's result is sent to.

use vstd::prelude::*;

verus! {

/// What `email_address::EmailAddress::from_str` makes of a text: `None` where
/// it accepts the text as an address, else the message of its error.
pub uninterp spec fn email_address_refusal(text: Seq<char>) -> Option<Seq<char>>;

/// A refusal as the sequence of its characters.
pub open spec fn refusal_view(refusal: Option<String>) -> Option<Seq<char>> {
    match refusal {
        Some(message) => Some(message@),
        None => None,
    }
}

/// Asks `email_address::EmailAddress::from_str` whether a text is an address.
///
/// Trusted: the answer is the one named by `email_address_refusal`, the
/// message being the error as `Display` writes it. The parser reads the text
/// and nothing else.
#[verifier::external_body]
fn refusal_of(text: &str) -> (refusal: Option<String>)
    ensures
        refusal_view(refusal) == email_address_refusal(text@),
{
    match text.parse::<email_address::EmailAddress>() {
        Ok(_) => None,
        Err(error) => Some(error.to_string()),
    }
}

/// An e-mail address: a text that the parser has accepted.
#[derive(Debug)]
pub struct EmailAddress {
    address: String,
}

impl View for EmailAddress {
    type V = Seq<char>;

    closed spec fn view(&self) -> Seq<char> {
        self.address@
    }
}

impl Clone for EmailAddress {
    /// A second value of the same address.
    fn clone(&self) -> (copy: EmailAddress)
        ensures
            copy@ == self@,
    {
        proof {
            use_type_invariant(self);
        }
        EmailAddress { address: self.address.clone() }
    }
}

impl EmailAddress {
    #[verifier::type_invariant]
    spec fn accepted(self) -> bool {
        email_address_refusal(self.address@) is None
    }

    /// The address that `text` is, or the parser's reason why it is none.
    pub fn parse(text: &str) -> (address: Result<EmailAddress, String>)
        ensures
            match address {
                Ok(address) => email_address_refusal(text@) is None && address@ == text@,
                Err(reason) => email_address_refusal(text@) == Some(reason@),
            },
    {
        match refusal_of(text) {
            None => Ok(EmailAddress { address: text.to_owned() }),
            Some(reason) => Err(reason),
        }
    }

    /// The address as text. It is a text that the parser accepts.
    pub fn as_str(&self) -> (text: &str)
        ensures
            text@ == self@,
            email_address_refusal(text@) is None,
    {
        proof {
            use_type_invariant(self);
        }
        self.address.as_str()
    }
}

} // verus!
