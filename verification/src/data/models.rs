//! Stored records and the validated names that they carry.

use crate::text::{chars_of, contains_char};
use vstd::prelude::*;
use vstd::std_specs::convert::TryFromSpecImpl;
use vstd::string::*;

verus! {

/// A user name: a text of at least three bytes.
#[derive(Debug)]
pub struct Username(String);

/// The message with which a text is refused as a user name.
pub open spec fn username_refusal(value: Seq<char>) -> Seq<char> {
    "Username ("@ + value + ") is too short"@
}

/// The message with which a text is refused as an e-mail address.
pub open spec fn email_refusal(value: Seq<char>) -> Seq<char> {
    "Email ("@ + value + ") is invalid"@
}

impl Username {
    /// The name as text.
    pub closed spec fn view(&self) -> Seq<char> {
        self.0@
    }

    /// The name as text.
    pub fn as_str(&self) -> (r: &str)
        ensures
            r@ == self@,
    {
        self.0.as_str()
    }
}

impl<'a> TryFromSpecImpl<&'a str> for Username {
    open spec fn obeys_try_from_spec() -> bool {
        false
    }

    open spec fn try_from_spec(v: &'a str) -> Result<Self, String> {
        arbitrary()
    }
}

impl<'a> TryFrom<&'a str> for Username {
    type Error = String;

    /// Accepts a text of three bytes or more (in UTF-8) as a user name, and
    /// refuses a shorter one with a message that quotes it.
    fn try_from(value: &'a str) -> (r: Result<Self, String>)
        ensures
            match r {
                Ok(name) => value.spec_bytes().len() >= 3 && name@ == value@,
                Err(message) => value.spec_bytes().len() < 3 && message@ == username_refusal(value@),
            },
    {
        if value.as_bytes().len() < 3 {
            let mut message = String::from_str("Username (");
            message.append(value);
            message.append(") is too short");
            return Err(message);
        }
        Ok(Username(value.to_owned()))
    }
}

/// An e-mail address: a text that holds an `@`.
#[derive(Debug)]
pub struct Email(String);

impl Email {
    /// The address as text.
    pub closed spec fn view(&self) -> Seq<char> {
        self.0@
    }

    /// The address as text.
    pub fn as_str(&self) -> (r: &str)
        ensures
            r@ == self@,
    {
        self.0.as_str()
    }
}

impl<'a> TryFromSpecImpl<&'a str> for Email {
    open spec fn obeys_try_from_spec() -> bool {
        false
    }

    open spec fn try_from_spec(v: &'a str) -> Result<Self, String> {
        arbitrary()
    }
}

impl<'a> TryFrom<&'a str> for Email {
    type Error = String;

    /// Accepts a text that holds an `@` as an e-mail address, and refuses any
    /// other with a message that quotes it.
    fn try_from(value: &'a str) -> (r: Result<Self, String>)
        ensures
            match r {
                Ok(address) => value@.contains('@') && address@ == value@,
                Err(message) => !value@.contains('@') && message@ == email_refusal(value@),
            },
    {
        let chars = chars_of(value);
        if !contains_char(&chars, '@') {
            let mut message = String::from_str("Email (");
            message.append(value);
            message.append(") is invalid");
            return Err(message);
        }
        Ok(Email(value.to_owned()))
    }
}

/// A livestream that was announced, as it is stored. `date` is the instant at
/// which it is scheduled to start and `updated` the instant of the feed entry
/// that brought it, both in milliseconds since the epoch.
#[derive(Debug)]
pub struct Livestream {
    pub author: String,
    pub url: String,
    pub date: i64,
    pub title: String,
    pub updated: i64,
}

/// The mathematical content of a `Livestream`.
pub struct LivestreamView {
    pub author: Seq<char>,
    pub url: Seq<char>,
    pub date: i64,
    pub title: Seq<char>,
    pub updated: i64,
}

impl View for Livestream {
    type V = LivestreamView;

    open spec fn view(&self) -> LivestreamView {
        LivestreamView {
            author: self.author@,
            url: self.url@,
            date: self.date,
            title: self.title@,
            updated: self.updated,
        }
    }
}

impl Clone for Livestream {
    /// A copy of the record, field by field.
    fn clone(&self) -> (r: Livestream)
        ensures
            r@ == self@,
    {
        Livestream {
            author: self.author.clone(),
            url: self.url.clone(),
            date: self.date,
            title: self.title.clone(),
            updated: self.updated,
        }
    }
}

/// A feed that the notifier follows: whose it is, and the topic to subscribe
/// to, a URL in its normal form.
#[derive(Debug)]
pub struct Feed {
    pub first_name: String,
    pub last_name: String,
    pub topic_url: String,
    pub group: String,
    pub generation: u8,
}

} // verus!
