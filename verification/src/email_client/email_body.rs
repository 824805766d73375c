//! The payload of one notification, as the e-mail provider expects it.

use crate::domain::subscriber_email::is_valid_email;
use crate::domain::subscriber_email::valid_email;
use crate::domain::subscriber_email::SubscriberEmail;
use crate::domain::subscriber_name::find_name_defect;
use crate::domain::subscriber_name::grapheme_count;
use crate::domain::subscriber_name::name_defect;
use crate::domain::subscriber_name::valid_name;
use crate::domain::subscriber_name::SubscriberName;
use crate::domain::validation::Defect;
use crate::domain::validation::ValidationError;
use crate::email_client::json::json_quote;
use crate::email_client::json::quote;
use vstd::prelude::*;

verus! {

/// An address that has passed validation.
pub type ParsedEmail = SubscriberEmail;

/// A name that has passed validation.
pub type ParsedName = SubscriberName;

/// What an identity is: an address and a display name.
pub struct Identity {
    pub address: Seq<char>,
    pub name: Seq<char>,
}

/// What a payload is.
pub struct Payload {
    pub from: Identity,
    pub to: Seq<Identity>,
    pub cc: Option<Seq<Identity>>,
    pub reply_to: Option<Identity>,
    pub subject: Seq<char>,
    pub html_body: Seq<char>,
}

/// A sender or recipient: a valid address paired with a valid display name.
pub struct NameAndEmail<'a> {
    address: &'a str,
    name: &'a str,
}

impl<'a> View for NameAndEmail<'a> {
    type V = Identity;

    closed spec fn view(&self) -> Identity {
        Identity { address: self.address@, name: self.name@ }
    }
}

impl<'a> NameAndEmail<'a> {
    #[verifier::type_invariant]
    spec fn well_formed(self) -> bool {
        valid_email(self.address@) && valid_name(self.name@)
    }

    /// Pairs `email` with `name` if both are valid. Otherwise the error holds
    /// the one that is not, the address if neither is.
    pub fn new(email: &'a str, name: &'a str) -> (result: Result<Self, ValidationError>)
        ensures
            match result {
                Ok(identity) => {
                    &&& valid_email(email@)
                    &&& valid_name(name@)
                    &&& identity@.address == email@
                    &&& identity@.name == name@
                },
                Err(error) => if !valid_email(email@) {
                    error.input@ == email@ && error.defect == Defect::MalformedEmail
                } else {
                    error.input@ == name@ && name_defect(name@, grapheme_count(name@)) == Some(
                        error.defect,
                    )
                },
            },
    {
        if !is_valid_email(email) {
            return Err(ValidationError { input: email.to_owned(), defect: Defect::MalformedEmail });
        }
        match find_name_defect(name) {
            Some(defect) => Err(ValidationError { input: name.to_owned(), defect }),
            None => Ok(NameAndEmail { address: email, name }),
        }
    }

    /// Pairs an address and a name that have both been validated already.
    pub fn from_validated(email: &'a ParsedEmail, name: &'a ParsedName) -> (identity: Self)
        ensures
            identity@.address == email@,
            identity@.name == name@,
    {
        NameAndEmail { address: email.as_ref(), name: name.as_ref() }
    }

    /// The address.
    pub fn address(&self) -> (text: &'a str)
        ensures
            text@ == self@.address,
            valid_email(text@),
    {
        proof {
            use_type_invariant(self);
        }
        self.address
    }

    /// The display name.
    pub fn name(&self) -> (text: &'a str)
        ensures
            text@ == self@.name,
            valid_name(text@),
    {
        proof {
            use_type_invariant(self);
        }
        self.name
    }
}

/// One entry of a list of recipients.
pub struct EmailAddress<'a> {
    email_address: NameAndEmail<'a>,
}

impl<'a> View for EmailAddress<'a> {
    type V = Identity;

    closed spec fn view(&self) -> Identity {
        self.email_address@
    }
}

impl<'a> EmailAddress<'a> {
    /// The entry for `identity`.
    pub fn new(identity: NameAndEmail<'a>) -> (entry: Self)
        ensures
            entry@ == identity@,
    {
        EmailAddress { email_address: identity }
    }

    /// The identity of the entry.
    pub fn email_address(&self) -> (identity: &NameAndEmail<'a>)
        ensures
            identity@ == self@,
    {
        &self.email_address
    }
}

/// What a list of entries is: the identity of each, in order.
pub open spec fn identities<'a>(list: Seq<EmailAddress<'a>>) -> Seq<Identity> {
    Seq::new(list.len(), |i: int| list[i]@)
}

/// The payload with the one recipient `to`, nobody in copy and no address to
/// reply to.
pub open spec fn single_recipient_payload(
    from: Identity,
    to: Identity,
    subject: Seq<char>,
    html_body: Seq<char>,
) -> Payload {
    Payload { from, to: seq![to], cc: None, reply_to: None, subject, html_body }
}

/// An identity on the wire: an object with its `address` and its `name`.
pub open spec fn identity_json(identity: Identity) -> Seq<char> {
    "{\"address\":"@ + json_quote(identity.address) + ",\"name\":"@ + json_quote(identity.name)
        + "}"@
}

/// A recipient on the wire: an object that holds the identity as
/// `email_address`.
pub open spec fn recipient_json(identity: Identity) -> Seq<char> {
    "{\"email_address\":"@ + identity_json(identity) + "}"@
}

/// The recipients of `list` on the wire, each with a comma before it.
pub open spec fn more_recipients_json(list: Seq<Identity>) -> Seq<char>
    decreases list.len(),
{
    if list.len() == 0 {
        Seq::empty()
    } else {
        ","@ + recipient_json(list[0]) + more_recipients_json(list.drop_first())
    }
}

/// The recipients of `list` on the wire, one after the other with a comma
/// between two of them.
pub open spec fn recipient_items_json(list: Seq<Identity>) -> Seq<char> {
    if list.len() == 0 {
        Seq::empty()
    } else {
        recipient_json(list[0]) + more_recipients_json(list.drop_first())
    }
}

/// A list of recipients on the wire: an array.
pub open spec fn recipients_json(list: Seq<Identity>) -> Seq<char> {
    "["@ + recipient_items_json(list) + "]"@
}

/// The list of recipients in copy on the wire: `null` if there is none.
pub open spec fn cc_json(cc: Option<Seq<Identity>>) -> Seq<char> {
    match cc {
        Some(list) => recipients_json(list),
        None => "null"@,
    }
}

/// The identity to reply to on the wire: `null` if there is none.
pub open spec fn reply_to_json(reply_to: Option<Identity>) -> Seq<char> {
    match reply_to {
        Some(identity) => identity_json(identity),
        None => "null"@,
    }
}

/// A payload on the wire: one JSON object without white space, its members
/// in the order `from`, `to`, `cc`, `reply_to`, `subject`, `html_body`.
pub open spec fn payload_json(payload: Payload) -> Seq<char> {
    "{\"from\":"@ + identity_json(payload.from) + ",\"to\":"@ + recipients_json(payload.to)
        + ",\"cc\":"@ + cc_json(payload.cc) + ",\"reply_to\":"@ + reply_to_json(
        payload.reply_to,
    ) + ",\"subject\":"@ + json_quote(payload.subject) + ",\"html_body\":"@ + json_quote(
        payload.html_body,
    ) + "}"@
}

/// One more recipient at the end of a list adds a comma and that recipient
/// to what stands for the list.
proof fn lemma_more_recipients_push(list: Seq<Identity>, last: Identity)
    ensures
        more_recipients_json(list.push(last)) == more_recipients_json(list) + ","@
            + recipient_json(last),
    decreases list.len(),
{
    let longer = list.push(last);
    if list.len() == 0 {
        assert(longer.drop_first() =~= list);
        assert(longer[0] == last);
        assert(more_recipients_json(longer) == ","@ + recipient_json(last)
            + more_recipients_json(list));
        assert(more_recipients_json(list) =~= Seq::<char>::empty());
        assert(more_recipients_json(longer) =~= more_recipients_json(list) + ","@
            + recipient_json(last));
    } else {
        assert(longer.drop_first() =~= list.drop_first().push(last));
        lemma_more_recipients_push(list.drop_first(), last);
        assert(longer[0] == list[0]);
        assert(more_recipients_json(longer) == ","@ + recipient_json(list[0])
            + more_recipients_json(longer.drop_first()));
        assert(more_recipients_json(list) == ","@ + recipient_json(list[0])
            + more_recipients_json(list.drop_first()));
        assert(more_recipients_json(longer) =~= more_recipients_json(list) + ","@
            + recipient_json(last));
    }
}

/// One more recipient at the end of a list adds that recipient to what
/// stands for the list, after a comma unless it is the first.
proof fn lemma_recipient_items_push(list: Seq<Identity>, last: Identity)
    ensures
        recipient_items_json(list.push(last)) == if list.len() == 0 {
            recipient_json(last)
        } else {
            recipient_items_json(list) + ","@ + recipient_json(last)
        },
{
    let longer = list.push(last);
    if list.len() == 0 {
        assert(longer.drop_first() =~= list);
        assert(longer[0] == last);
        assert(more_recipients_json(list) =~= Seq::<char>::empty());
        assert(recipient_items_json(longer) =~= recipient_json(last));
    } else {
        assert(longer.drop_first() =~= list.drop_first().push(last));
        lemma_more_recipients_push(list.drop_first(), last);
        assert(longer[0] == list[0]);
        assert(recipient_items_json(longer) =~= recipient_items_json(list) + ","@
            + recipient_json(last));
    }
}

/// Appends `identity` as it stands on the wire.
fn write_identity(out: &mut String, identity: &NameAndEmail<'_>)
    ensures
        final(out)@ == old(out)@ + identity_json(identity@),
{
    let address = quote(identity.address());
    let name = quote(identity.name());
    out.append("{\"address\":");
    out.append(address.as_str());
    out.append(",\"name\":");
    out.append(name.as_str());
    out.append("}");
    assert(out@ =~= old(out)@ + identity_json(identity@));
}

/// Appends `list` as it stands on the wire.
fn write_recipients(out: &mut String, list: &Vec<EmailAddress<'_>>)
    ensures
        final(out)@ == old(out)@ + recipients_json(identities(list@)),
{
    let ghost all = identities(list@);
    out.append("[");
    let mut i: usize = 0;
    while i < list.len()
        invariant
            i <= list.len(),
            all == identities(list@),
            out@ == old(out)@ + "["@ + recipient_items_json(all.take(i as int)),
        decreases list.len() - i,
    {
        let ghost before = out@;
        let ghost done = all.take(i as int);
        let ghost next = all.take(i + 1);
        if i > 0 {
            out.append(",");
        }
        out.append("{\"email_address\":");
        write_identity(out, list[i].email_address());
        out.append("}");
        proof {
            assert(next =~= done.push(list@[i as int]@));
            lemma_recipient_items_push(done, list@[i as int]@);
            if i > 0 {
                assert(out@ =~= before + (","@ + recipient_json(next.last())));
                assert(out@ =~= old(out)@ + "["@ + (recipient_items_json(done) + ","@
                    + recipient_json(next.last())));
            } else {
                assert(recipient_items_json(done) =~= Seq::<char>::empty());
                assert(out@ =~= old(out)@ + "["@ + recipient_json(next.last()));
            }
        }
        i += 1;
    }
    out.append("]");
    proof {
        assert(all.take(list.len() as int) =~= all);
        assert(out@ =~= old(out)@ + recipients_json(all));
    }
}

/// One notification: who sends it, who receives it, its subject and its
/// body as HTML. It always has at least one recipient.
pub struct EmailBody<'a> {
    from: NameAndEmail<'a>,
    to: Vec<EmailAddress<'a>>,
    cc: Option<Vec<EmailAddress<'a>>>,
    reply_to: Option<NameAndEmail<'a>>,
    subject: &'a str,
    html_body: &'a str,
}

impl<'a> View for EmailBody<'a> {
    type V = Payload;

    closed spec fn view(&self) -> Payload {
        Payload {
            from: self.from@,
            to: identities(self.to@),
            cc: match self.cc {
                Some(list) => Some(identities(list@)),
                None => None,
            },
            reply_to: match self.reply_to {
                Some(identity) => Some(identity@),
                None => None,
            },
            subject: self.subject@,
            html_body: self.html_body@,
        }
    }
}

impl<'a> EmailBody<'a> {
    #[verifier::type_invariant]
    spec fn well_formed(self) -> bool {
        self.to@.len() >= 1
    }

    /// The notification from `from` to the one recipient `to`, with nobody
    /// in copy and no address to reply to.
    pub fn new(
        from: NameAndEmail<'a>,
        to: NameAndEmail<'a>,
        subject: &'a str,
        html_body: &'a str,
    ) -> (body: Self)
        ensures
            body@ == single_recipient_payload(from@, to@, subject@, html_body@),
    {
        let body = EmailBody {
            from,
            to: vec![EmailAddress { email_address: to }],
            cc: None,
            reply_to: None,
            subject,
            html_body,
        };
        assert(body@.to =~= seq![to@]);
        body
    }

    /// The same notification with `to` as one more recipient, after those it
    /// has.
    pub fn with_recipient(self, to: NameAndEmail<'a>) -> (body: Self)
        ensures
            body@ == (Payload { to: self@.to.push(to@), ..self@ }),
    {
        proof {
            use_type_invariant(&self);
        }
        let EmailBody { from, to: mut list, cc, reply_to, subject, html_body } = self;
        list.push(EmailAddress { email_address: to });
        let body = EmailBody { from, to: list, cc, reply_to, subject, html_body };
        assert(body@.to =~= self@.to.push(to@));
        body
    }

    /// The same notification with `cc` as one more recipient in copy, after
    /// those it has.
    pub fn with_cc(self, cc: NameAndEmail<'a>) -> (body: Self)
        ensures
            body@ == (Payload {
                cc: Some(
                    match self@.cc {
                        Some(list) => list.push(cc@),
                        None => seq![cc@],
                    },
                ),
                ..self@
            }),
    {
        proof {
            use_type_invariant(&self);
        }
        let EmailBody { from, to, cc: copies, reply_to, subject, html_body } = self;
        let mut list = match copies {
            Some(list) => list,
            None => Vec::new(),
        };
        list.push(EmailAddress { email_address: cc });
        let body = EmailBody { from, to, cc: Some(list), reply_to, subject, html_body };
        assert(body@.cc->0 =~= match self@.cc {
            Some(list) => list.push(cc@),
            None => seq![cc@],
        });
        body
    }

    /// The same notification with `reply_to` as the identity to reply to.
    pub fn with_reply_to(self, reply_to: NameAndEmail<'a>) -> (body: Self)
        ensures
            body@ == (Payload { reply_to: Some(reply_to@), ..self@ }),
    {
        proof {
            use_type_invariant(&self);
        }
        let EmailBody { from, to, cc, reply_to: _, subject, html_body } = self;
        EmailBody { from, to, cc, reply_to: Some(reply_to), subject, html_body }
    }

    /// The payload as the JSON text that the provider expects.
    pub fn to_json(&self) -> (json: String)
        ensures
            json@ == payload_json(self@),
    {
        let subject = quote(self.subject);
        let html_body = quote(self.html_body);
        let mut json = String::new();
        json.append("{\"from\":");
        write_identity(&mut json, &self.from);
        json.append(",\"to\":");
        write_recipients(&mut json, &self.to);
        json.append(",\"cc\":");
        match &self.cc {
            Some(list) => write_recipients(&mut json, list),
            None => json.append("null"),
        }
        json.append(",\"reply_to\":");
        match &self.reply_to {
            Some(identity) => write_identity(&mut json, identity),
            None => json.append("null"),
        }
        json.append(",\"subject\":");
        json.append(subject.as_str());
        json.append(",\"html_body\":");
        json.append(html_body.as_str());
        json.append("}");
        assert(json@ =~= payload_json(self@));
        json
    }

    /// The sender.
    pub fn from(&self) -> (identity: &NameAndEmail<'a>)
        ensures
            identity@ == self@.from,
    {
        &self.from
    }

    /// The recipients.
    pub fn to(&self) -> (list: &Vec<EmailAddress<'a>>)
        ensures
            identities(list@) == self@.to,
            list@.len() >= 1,
    {
        proof {
            use_type_invariant(self);
        }
        &self.to
    }

    /// The recipients in copy, if there are any.
    pub fn cc(&self) -> (copies: Option<&Vec<EmailAddress<'a>>>)
        ensures
            match copies {
                Some(list) => self@.cc == Some(identities(list@)),
                None => self@.cc is None,
            },
    {
        self.cc.as_ref()
    }

    /// The identity to reply to, if there is one.
    pub fn reply_to(&self) -> (identity: Option<&NameAndEmail<'a>>)
        ensures
            match identity {
                Some(identity) => self@.reply_to == Some(identity@),
                None => self@.reply_to is None,
            },
    {
        self.reply_to.as_ref()
    }

    /// The subject.
    pub fn subject(&self) -> (text: &'a str)
        ensures
            text@ == self@.subject,
    {
        self.subject
    }

    /// The body, as HTML.
    pub fn html_body(&self) -> (text: &'a str)
        ensures
            text@ == self@.html_body,
    {
        self.html_body
    }
}

} // verus!
