//! The mail window: whether mail is new, and each mail's header and body.
use super::WindowClass;
use crate::text::{decimal, push_decimal};
use vstd::prelude::*;

verus! {

/// A mail in the mailbox.
#[derive(Debug, Clone)]
pub struct MailEntry {
    pub sender_name: String,
    pub title: String,
    pub body: String,
    pub read: bool,
    pub zeny: u32,
    pub has_item: bool,
}

/// The header line of `mail`: unread mail is marked new.
pub open spec fn mail_header(mail: MailEntry) -> Seq<char> {
    (if mail.read {
        ""@
    } else {
        "[NEW] "@
    }) + "From: "@ + mail.sender_name@ + " - "@ + mail.title@
}

/// The body of `mail`, followed by the zeny it carries and a note of its
/// attached item, where it has them.
pub open spec fn mail_body(mail: MailEntry) -> Seq<char> {
    mail.body@ + (if mail.zeny > 0 {
        "\nZeny: "@ + decimal(mail.zeny as nat)
    } else {
        ""@
    }) + (if mail.has_item {
        "\n[Has attached item]"@
    } else {
        ""@
    })
}

/// A window with the mail state and the mails that the paths point to.
pub struct MailWindow<A, B> {
    pub has_new_mail_path: A,
    pub mail_entries_path: B,
}

impl<A, B> MailWindow<A, B> {
    pub fn new(has_new_mail_path: A, mail_entries_path: B) -> (window: Self)
        ensures
            window.has_new_mail_path == has_new_mail_path,
            window.mail_entries_path == mail_entries_path,
    {
        Self { has_new_mail_path, mail_entries_path }
    }

    pub fn window_class() -> (class: Option<WindowClass>)
        ensures
            class == Some(WindowClass::Mail),
    {
        Some(WindowClass::Mail)
    }

    /// The line that says whether there is new mail.
    pub fn status_text(has_new: bool) -> (text: String)
        ensures
            text@ == (if has_new {
                "You have new mail!"@
            } else {
                "No new mail."@
            }),
    {
        if has_new {
            String::from_str("You have new mail!")
        } else {
            String::from_str("No new mail.")
        }
    }

    /// The header line of `mail`.
    pub fn header_text(mail: &MailEntry) -> (text: String)
        ensures
            text@ == mail_header(*mail),
    {
        let mut text = if mail.read {
            String::new()
        } else {
            String::from_str("[NEW] ")
        };
        text.append("From: ");
        text.append(mail.sender_name.as_str());
        text.append(" - ");
        text.append(mail.title.as_str());
        proof {
            reveal_strlit("");
        }
        assert(text@ =~= mail_header(*mail));
        text
    }

    /// The body text of `mail`.
    pub fn body_text(mail: &MailEntry) -> (text: String)
        ensures
            text@ == mail_body(*mail),
    {
        let mut text = mail.body.clone();
        if mail.zeny > 0 {
            text.append("\nZeny: ");
            push_decimal(&mut text, mail.zeny as u64);
        }
        if mail.has_item {
            text.append("\n[Has attached item]");
        }
        proof {
            reveal_strlit("");
        }
        assert(text@ =~= mail_body(*mail));
        text
    }
}

} // verus!
