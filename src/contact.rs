//! The contact form: the mail that a visitor's booking request becomes.

use vstd::string::*;
use vstd::prelude::*;

verus! {

/// What a visitor fills in to ask for a booking.
#[derive(Debug, Clone, PartialEq)]
pub struct BookMeRequest {
    pub name: String,
    pub email: String,
    pub message: String,
    pub phone: Option<String>,
    pub date: Option<String>,
    pub venue: Option<String>,
    pub city: Option<String>,
}

/// The new contact address a user sets.
#[derive(Debug, Clone, PartialEq)]
pub struct UpdateBookMeRequest {
    pub email: String,
}

pub const NOT_SPECIFIED: &'static str = "Not specified.";

pub const CONTACT_SUBJECT: &'static str = "Contact from Website";

pub const HTML_HEAD: &'static str = "\n                <!DOCTYPE html>\n                <html lang=\"en\">\n                  <head>\n                    <meta charset=\"utf-8\" />\n                    <title>Contact from Website</title>\n                  </head>\n                  <body>\n                    <p>\n                        <strong>Name:</strong>\n                        <span>";

pub const HTML_AFTER_NAME: &'static str = "</span>\n                    </p>\n                    <p>\n                        <strong>Email:</strong>\n                        <span>";

pub const HTML_AFTER_EMAIL: &'static str = "</span>\n                    </p>\n                    <p>\n                        <strong>Message:</strong>\n                        <span>";

pub const HTML_AFTER_MESSAGE: &'static str = "</span>\n                    </p>\n                    <hr />\n                    <p>\n                        <strong>Phone:</strong>\n                        <span>";

pub const HTML_AFTER_PHONE: &'static str = "</span>\n                    </p>\n                    <p>\n                        <strong>Date:</strong>\n                        <span>";

pub const HTML_AFTER_DATE: &'static str = "</span>\n                    </p>\n                    <p>\n                        <strong>Venue:</strong>\n                        <span>";

pub const HTML_AFTER_VENUE: &'static str = "</span>\n                    </p>\n                    <p>\n                        <strong>City:</strong>\n                        <span>";

pub const HTML_TAIL: &'static str = "</span>\n                    </p>\n                  </body>\n                </html>\n        ";

/// An optional answer as shown in the mail.
pub open spec fn or_not_specified(o: Option<String>) -> Seq<char> {
    match o {
        Some(s) => s@,
        None => NOT_SPECIFIED@,
    }
}

/// The HTML body of the mail.
pub open spec fn contact_html(r: BookMeRequest) -> Seq<char> {
    HTML_HEAD@ + r.name@ + HTML_AFTER_NAME@ + r.email@ + HTML_AFTER_EMAIL@ + r.message@
        + HTML_AFTER_MESSAGE@ + or_not_specified(r.phone) + HTML_AFTER_PHONE@
        + or_not_specified(r.date) + HTML_AFTER_DATE@ + or_not_specified(r.venue)
        + HTML_AFTER_VENUE@ + or_not_specified(r.city) + HTML_TAIL@
}

/// A mail to send through the mail relay.
#[derive(Debug, Clone, PartialEq)]
pub struct ContactMail {
    pub from: String,
    pub to: String,
    pub subject: String,
    pub html: String,
}

fn push_or_not_specified(s: &mut String, o: &Option<String>)
    ensures
        final(s)@ == old(s)@ + or_not_specified(*o),
{
    match o {
        Some(v) => s.append(v.as_str()),
        None => s.append(NOT_SPECIFIED),
    }
}

/// The mail that a booking request becomes: sent from the website's address
/// at `domain` to `to`, the user's contact address.
pub fn contact_mail(request: &BookMeRequest, domain: &str, to: &str) -> (r: ContactMail)
    ensures
        r.from@ == "Website <website@"@ + domain@ + seq!['>'],
        r.to@ == to@,
        r.subject@ == CONTACT_SUBJECT@,
        r.html@ == contact_html(*request),
{
    let mut from = String::from_str("Website <website@");
    from.append(domain);
    crate::text::push_char(&mut from, '>');
    assert(from@ =~= "Website <website@"@ + domain@ + seq!['>']);
    let mut html = String::from_str(HTML_HEAD);
    html.append(request.name.as_str());
    html.append(HTML_AFTER_NAME);
    html.append(request.email.as_str());
    html.append(HTML_AFTER_EMAIL);
    html.append(request.message.as_str());
    html.append(HTML_AFTER_MESSAGE);
    push_or_not_specified(&mut html, &request.phone);
    html.append(HTML_AFTER_PHONE);
    push_or_not_specified(&mut html, &request.date);
    html.append(HTML_AFTER_DATE);
    push_or_not_specified(&mut html, &request.venue);
    html.append(HTML_AFTER_VENUE);
    push_or_not_specified(&mut html, &request.city);
    html.append(HTML_TAIL);
    ContactMail {
        from,
        to: String::from_str(to),
        subject: String::from_str(CONTACT_SUBJECT),
        html,
    }
}

} // verus!
