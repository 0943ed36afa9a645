//! The messages the service sends by e-mail.

use crate::user::{User, UserView};
use vstd::prelude::*;

verus! {

/// A message to send by e-mail.
pub trait Email {
    /// Whether the text of the message has been written yet.
    spec fn is_written(&self) -> bool;

    /// The text of the message.
    spec fn content_text(&self) -> Seq<char>;

    /// The subject of the message.
    spec fn subject_text(&self) -> Seq<char>;

    /// Who gets the message.
    spec fn recipients(&self) -> Seq<UserView>;

    fn content(&self) -> (r: String)
        requires
            self.is_written(),
        ensures
            r@ == self.content_text(),
    ;

    fn subject(&self) -> (r: String)
        requires
            self.is_written(),
        ensures
            r@ == self.subject_text(),
    ;

    fn to(&self) -> (r: Vec<User>)
        ensures
            r@.len() == self.recipients().len(),
            forall|i: int| 0 <= i < r@.len() ==> (#[trigger] r@[i])@ == self.recipients()[i],
    ;
}

/// The messages of the service.
pub enum KolloquyEmail {
    /// Asks a user to confirm the address.
    EmailVerify(User),
    /// A test message.
    Test(User),
}

impl Email for KolloquyEmail {
    open spec fn is_written(&self) -> bool {
        self is Test
    }

    open spec fn content_text(&self) -> Seq<char> {
        "<b>test</b>"@
    }

    open spec fn subject_text(&self) -> Seq<char> {
        "Test"@
    }

    open spec fn recipients(&self) -> Seq<UserView> {
        match self {
            KolloquyEmail::EmailVerify(user) => seq![user@],
            KolloquyEmail::Test(user) => seq![user@],
        }
    }

    fn content(&self) -> (r: String) {
        "<b>test</b>".to_owned()
    }

    fn subject(&self) -> (r: String) {
        "Test".to_owned()
    }

    fn to(&self) -> (r: Vec<User>) {
        let mut r: Vec<User> = Vec::new();
        match self {
            KolloquyEmail::EmailVerify(user) => r.push(user.duplicate()),
            KolloquyEmail::Test(user) => r.push(user.duplicate()),
        }
        r
    }
}

/// A message ready for the mail server: who sends it, who gets it, and what
/// it says.
pub struct Outgoing {
    pub from_name: String,
    pub from_address: String,
    pub to_name: String,
    pub to_address: String,
    pub subject: String,
    pub body: String,
}

/// The sender of the service's messages: a name and an address.
pub struct KolloquyOutboundEmails {
    from: (String, String),
}

impl KolloquyOutboundEmails {
    /// A sender that writes as `from`, a name and an address.
    pub fn new(from: (String, String)) -> (r: KolloquyOutboundEmails)
        ensures
            r.sender() == (from.0@, from.1@),
    {
        KolloquyOutboundEmails { from }
    }

    /// The name and the address that messages are sent from.
    pub closed spec fn sender(&self) -> (Seq<char>, Seq<char>) {
        (self.from.0@, self.from.1@)
    }

    /// Addresses `email` to the first of its recipients, by handle and
    /// address, ready for the mail server. `None` exactly when it has no
    /// recipient.
    pub fn send<E: Email>(&self, email: &E) -> (r: Option<Outgoing>)
        requires
            email.is_written(),
        ensures
            r is Some <==> email.recipients().len() > 0,
            r matches Some(m) ==> m.from_name@ == self.sender().0 && m.from_address@
                == self.sender().1 && m.to_name@ == email.recipients()[0].handle && m.to_address@
                == email.recipients()[0].email && m.subject@ == email.subject_text() && m.body@
                == email.content_text(),
    {
        let to = email.to();
        if to.len() == 0 {
            return None;
        }
        Some(
            Outgoing {
                from_name: self.from.0.clone(),
                from_address: self.from.1.clone(),
                to_name: to[0].handle.clone(),
                to_address: to[0].email.clone(),
                subject: email.subject(),
                body: email.content(),
            },
        )
    }
}

impl KolloquyEmail {
    /// Whether the text of this message has been written yet: only the test
    /// message has one.
    pub fn written(&self) -> (r: bool)
        ensures
            r == self.is_written(),
    {
        match self {
            KolloquyEmail::EmailVerify(_) => false,
            KolloquyEmail::Test(_) => true,
        }
    }
}

} // verus!
