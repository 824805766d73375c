//! The wire text of a payload can be read back: it tells every field of the
//! payload it was written from. No two payloads share a wire text.

use crate::email_client::email_body::cc_json;
use crate::email_client::email_body::identity_json;
use crate::email_client::email_body::more_recipients_json;
use crate::email_client::email_body::payload_json;
use crate::email_client::email_body::recipient_items_json;
use crate::email_client::email_body::recipient_json;
use crate::email_client::email_body::recipients_json;
use crate::email_client::email_body::reply_to_json;
use crate::email_client::email_body::single_recipient_payload;
use crate::email_client::email_body::Identity;
use crate::email_client::email_body::Payload;
use crate::email_client::json::json_quote;
use crate::email_client::json::lemma_quote_tells_text;
use crate::email_client::json::lemma_same_start_same_rest;
use vstd::prelude::*;
use vstd::seq_lib::lemma_concat_associative;

verus! {

/// What follows the subject in a wire text.
pub open spec fn after_subject_json(html_body: Seq<char>) -> Seq<char> {
    ",\"html_body\":"@ + (json_quote(html_body) + "}"@)
}

/// What follows the identity to reply to in a wire text.
pub open spec fn after_reply_to_json(subject: Seq<char>, html_body: Seq<char>) -> Seq<char> {
    ",\"subject\":"@ + (json_quote(subject) + after_subject_json(html_body))
}

/// What follows the recipients in copy in a wire text.
pub open spec fn after_cc_json(payload: Payload) -> Seq<char> {
    ",\"reply_to\":"@ + (reply_to_json(payload.reply_to) + after_reply_to_json(
        payload.subject,
        payload.html_body,
    ))
}

/// What follows the recipients in a wire text.
pub open spec fn after_to_json(payload: Payload) -> Seq<char> {
    ",\"cc\":"@ + (cc_json(payload.cc) + after_cc_json(payload))
}

/// What follows the sender in a wire text.
pub open spec fn after_from_json(payload: Payload) -> Seq<char> {
    ",\"to\":"@ + (recipients_json(payload.to) + after_to_json(payload))
}

/// The wire text of a payload, grouped as it is read: each part followed by
/// all that comes after it.
pub open spec fn grouped_payload_json(payload: Payload) -> Seq<char> {
    "{\"from\":"@ + (identity_json(payload.from) + after_from_json(payload))
}

/// Grouping the parts of a wire text as they are read does not change it.
pub proof fn lemma_grouped_payload_json(payload: Payload)
    ensures
        payload_json(payload) == grouped_payload_json(payload),
{
    let s0 = "{\"from\":"@;
    let s1 = s0 + identity_json(payload.from);
    let s2 = s1 + ",\"to\":"@;
    let s3 = s2 + recipients_json(payload.to);
    let s4 = s3 + ",\"cc\":"@;
    let s5 = s4 + cc_json(payload.cc);
    let s6 = s5 + ",\"reply_to\":"@;
    let s7 = s6 + reply_to_json(payload.reply_to);
    let s8 = s7 + ",\"subject\":"@;
    let s9 = s8 + json_quote(payload.subject);
    let s10 = s9 + ",\"html_body\":"@;
    let s11 = s10 + json_quote(payload.html_body);
    assert(payload_json(payload) == s11 + "}"@);

    let t11 = json_quote(payload.html_body) + "}"@;
    let t10 = ",\"html_body\":"@ + t11;
    let t9 = json_quote(payload.subject) + t10;
    let t8 = ",\"subject\":"@ + t9;
    let t7 = reply_to_json(payload.reply_to) + t8;
    let t6 = ",\"reply_to\":"@ + t7;
    let t5 = cc_json(payload.cc) + t6;
    let t4 = ",\"cc\":"@ + t5;
    let t3 = recipients_json(payload.to) + t4;
    let t2 = ",\"to\":"@ + t3;
    lemma_concat_associative(s10, json_quote(payload.html_body), "}"@);
    lemma_concat_associative(s9, ",\"html_body\":"@, t11);
    lemma_concat_associative(s8, json_quote(payload.subject), t10);
    lemma_concat_associative(s7, ",\"subject\":"@, t9);
    lemma_concat_associative(s6, reply_to_json(payload.reply_to), t8);
    lemma_concat_associative(s5, ",\"reply_to\":"@, t7);
    lemma_concat_associative(s4, cc_json(payload.cc), t6);
    lemma_concat_associative(s3, ",\"cc\":"@, t5);
    lemma_concat_associative(s2, recipients_json(payload.to), t4);
    lemma_concat_associative(s1, ",\"to\":"@, t3);
    lemma_concat_associative(s0, identity_json(payload.from), t2);
    assert(t6 == after_cc_json(payload));
    assert(t2 == after_from_json(payload));
}

/// An identity on the wire tells which identity was written and where it
/// ends: if two texts are equal and each begins with an identity, the two
/// identities are the same and so is what follows them.
pub proof fn lemma_identity_json_tells_identity(
    a: Identity,
    b: Identity,
    x: Seq<char>,
    y: Seq<char>,
)
    requires
        identity_json(a) + x == identity_json(b) + y,
    ensures
        a == b,
        x == y,
{
    let open = "{\"address\":"@;
    let middle = ",\"name\":"@;
    let close = "}"@;
    let after_name_a = close + x;
    let after_name_b = close + y;
    let after_address_a = middle + (json_quote(a.name) + after_name_a);
    let after_address_b = middle + (json_quote(b.name) + after_name_b);
    assert(identity_json(a) + x =~= open + (json_quote(a.address) + after_address_a));
    assert(identity_json(b) + y =~= open + (json_quote(b.address) + after_address_b));
    lemma_same_start_same_rest(
        open,
        json_quote(a.address) + after_address_a,
        json_quote(b.address) + after_address_b,
    );
    lemma_quote_tells_text(a.address, b.address, after_address_a, after_address_b);
    lemma_same_start_same_rest(
        middle,
        json_quote(a.name) + after_name_a,
        json_quote(b.name) + after_name_b,
    );
    lemma_quote_tells_text(a.name, b.name, after_name_a, after_name_b);
    lemma_same_start_same_rest(close, x, y);
}

/// A recipient on the wire tells which identity was written and where the
/// recipient ends.
pub proof fn lemma_recipient_json_tells_identity(
    a: Identity,
    b: Identity,
    x: Seq<char>,
    y: Seq<char>,
)
    requires
        recipient_json(a) + x == recipient_json(b) + y,
    ensures
        a == b,
        x == y,
{
    let open = "{\"email_address\":"@;
    let close = "}"@;
    assert(recipient_json(a) + x =~= open + (identity_json(a) + (close + x)));
    assert(recipient_json(b) + y =~= open + (identity_json(b) + (close + y)));
    lemma_same_start_same_rest(open, identity_json(a) + (close + x), identity_json(b) + (close + y));
    lemma_identity_json_tells_identity(a, b, close + x, close + y);
    lemma_same_start_same_rest(close, x, y);
}

/// The further recipients of a list, up to the bracket that closes it, tell
/// which recipients were written and where the list ends.
pub proof fn lemma_more_recipients_tell_list(
    a: Seq<Identity>,
    b: Seq<Identity>,
    x: Seq<char>,
    y: Seq<char>,
)
    requires
        more_recipients_json(a) + "]"@ + x == more_recipients_json(b) + "]"@ + y,
    ensures
        a == b,
        x == y,
    decreases a.len(),
{
    reveal_strlit("]");
    reveal_strlit(",");
    let left = more_recipients_json(a) + "]"@ + x;
    let right = more_recipients_json(b) + "]"@ + y;
    if a.len() == 0 && b.len() == 0 {
        assert(a =~= b);
        assert(left =~= "]"@ + x);
        assert(right =~= "]"@ + y);
        lemma_same_start_same_rest("]"@, x, y);
    } else if a.len() == 0 {
        assert(left[0] == ']');
        assert(right[0] == ',');
        assert(false);
    } else if b.len() == 0 {
        assert(left[0] == ',');
        assert(right[0] == ']');
        assert(false);
    } else {
        let rest_a = more_recipients_json(a.drop_first()) + "]"@ + x;
        let rest_b = more_recipients_json(b.drop_first()) + "]"@ + y;
        assert(left =~= ","@ + (recipient_json(a[0]) + rest_a));
        assert(right =~= ","@ + (recipient_json(b[0]) + rest_b));
        lemma_same_start_same_rest(
            ","@,
            recipient_json(a[0]) + rest_a,
            recipient_json(b[0]) + rest_b,
        );
        lemma_recipient_json_tells_identity(a[0], b[0], rest_a, rest_b);
        lemma_more_recipients_tell_list(a.drop_first(), b.drop_first(), x, y);
        assert(a =~= seq![a[0]] + a.drop_first());
        assert(b =~= seq![b[0]] + b.drop_first());
    }
}

/// A list of recipients on the wire tells which recipients were written and
/// where the list ends.
pub proof fn lemma_recipients_json_tells_list(
    a: Seq<Identity>,
    b: Seq<Identity>,
    x: Seq<char>,
    y: Seq<char>,
)
    requires
        recipients_json(a) + x == recipients_json(b) + y,
    ensures
        a == b,
        x == y,
{
    reveal_strlit("]");
    reveal_strlit("{\"email_address\":");
    let inside_a = recipient_items_json(a) + "]"@ + x;
    let inside_b = recipient_items_json(b) + "]"@ + y;
    assert(recipients_json(a) + x =~= "["@ + inside_a);
    assert(recipients_json(b) + y =~= "["@ + inside_b);
    lemma_same_start_same_rest("["@, inside_a, inside_b);
    if a.len() == 0 && b.len() == 0 {
        assert(a =~= b);
        assert(inside_a =~= "]"@ + x);
        assert(inside_b =~= "]"@ + y);
        lemma_same_start_same_rest("]"@, x, y);
    } else if a.len() == 0 {
        assert(inside_a[0] == ']');
        assert(recipient_json(b[0])[0] == '{');
        assert(inside_b[0] == '{');
        assert(false);
    } else if b.len() == 0 {
        assert(inside_b[0] == ']');
        assert(recipient_json(a[0])[0] == '{');
        assert(inside_a[0] == '{');
        assert(false);
    } else {
        let rest_a = more_recipients_json(a.drop_first()) + "]"@ + x;
        let rest_b = more_recipients_json(b.drop_first()) + "]"@ + y;
        assert(inside_a =~= recipient_json(a[0]) + rest_a);
        assert(inside_b =~= recipient_json(b[0]) + rest_b);
        lemma_recipient_json_tells_identity(a[0], b[0], rest_a, rest_b);
        lemma_more_recipients_tell_list(a.drop_first(), b.drop_first(), x, y);
        assert(a =~= seq![a[0]] + a.drop_first());
        assert(b =~= seq![b[0]] + b.drop_first());
    }
}

/// The recipients in copy on the wire tell whether there are any, which
/// they are, and where they end.
pub proof fn lemma_cc_json_tells_cc(
    a: Option<Seq<Identity>>,
    b: Option<Seq<Identity>>,
    x: Seq<char>,
    y: Seq<char>,
)
    requires
        cc_json(a) + x == cc_json(b) + y,
    ensures
        a == b,
        x == y,
{
    reveal_strlit("null");
    reveal_strlit("[");
    let left = cc_json(a) + x;
    let right = cc_json(b) + y;
    match (a, b) {
        (None, None) => {
            lemma_same_start_same_rest("null"@, x, y);
        },
        (Some(list_a), Some(list_b)) => {
            lemma_recipients_json_tells_list(list_a, list_b, x, y);
        },
        (None, Some(list_b)) => {
            assert(left[0] == 'n');
            assert(recipients_json(list_b)[0] == '[');
            assert(right[0] == '[');
            assert(false);
        },
        (Some(list_a), None) => {
            assert(right[0] == 'n');
            assert(recipients_json(list_a)[0] == '[');
            assert(left[0] == '[');
            assert(false);
        },
    }
}

/// The identity to reply to on the wire tells whether there is one, which
/// it is, and where it ends.
pub proof fn lemma_reply_to_json_tells_reply_to(
    a: Option<Identity>,
    b: Option<Identity>,
    x: Seq<char>,
    y: Seq<char>,
)
    requires
        reply_to_json(a) + x == reply_to_json(b) + y,
    ensures
        a == b,
        x == y,
{
    reveal_strlit("null");
    reveal_strlit("{\"address\":");
    let left = reply_to_json(a) + x;
    let right = reply_to_json(b) + y;
    match (a, b) {
        (None, None) => {
            lemma_same_start_same_rest("null"@, x, y);
        },
        (Some(identity_a), Some(identity_b)) => {
            lemma_identity_json_tells_identity(identity_a, identity_b, x, y);
        },
        (None, Some(identity_b)) => {
            assert(left[0] == 'n');
            assert(identity_json(identity_b)[0] == '{');
            assert(right[0] == '{');
            assert(false);
        },
        (Some(identity_a), None) => {
            assert(right[0] == 'n');
            assert(identity_json(identity_a)[0] == '{');
            assert(left[0] == '{');
            assert(false);
        },
    }
}

/// What follows the recipients in copy tells the identity to reply to, the
/// subject and the body.
proof fn lemma_after_cc_tells_rest(a: Payload, b: Payload)
    requires
        after_cc_json(a) == after_cc_json(b),
    ensures
        a.reply_to == b.reply_to,
        a.subject == b.subject,
        a.html_body == b.html_body,
{
    let after_reply_to_a = after_reply_to_json(a.subject, a.html_body);
    let after_reply_to_b = after_reply_to_json(b.subject, b.html_body);
    lemma_same_start_same_rest(
        ",\"reply_to\":"@,
        reply_to_json(a.reply_to) + after_reply_to_a,
        reply_to_json(b.reply_to) + after_reply_to_b,
    );
    lemma_reply_to_json_tells_reply_to(a.reply_to, b.reply_to, after_reply_to_a, after_reply_to_b);
    lemma_same_start_same_rest(
        ",\"subject\":"@,
        json_quote(a.subject) + after_subject_json(a.html_body),
        json_quote(b.subject) + after_subject_json(b.html_body),
    );
    lemma_quote_tells_text(
        a.subject,
        b.subject,
        after_subject_json(a.html_body),
        after_subject_json(b.html_body),
    );
    lemma_same_start_same_rest(
        ",\"html_body\":"@,
        json_quote(a.html_body) + "}"@,
        json_quote(b.html_body) + "}"@,
    );
    lemma_quote_tells_text(a.html_body, b.html_body, "}"@, "}"@);
}

/// The wire text tells the payload: two payloads with the same wire text
/// are the same payload, field by field. So whoever reads the text gets back
/// exactly what was written.
pub proof fn lemma_payload_json_tells_payload(a: Payload, b: Payload)
    requires
        payload_json(a) == payload_json(b),
    ensures
        a == b,
{
    lemma_grouped_payload_json(a);
    lemma_grouped_payload_json(b);
    lemma_same_start_same_rest(
        "{\"from\":"@,
        identity_json(a.from) + after_from_json(a),
        identity_json(b.from) + after_from_json(b),
    );
    lemma_identity_json_tells_identity(a.from, b.from, after_from_json(a), after_from_json(b));
    lemma_same_start_same_rest(
        ",\"to\":"@,
        recipients_json(a.to) + after_to_json(a),
        recipients_json(b.to) + after_to_json(b),
    );
    lemma_recipients_json_tells_list(a.to, b.to, after_to_json(a), after_to_json(b));
    lemma_same_start_same_rest(
        ",\"cc\":"@,
        cc_json(a.cc) + after_cc_json(a),
        cc_json(b.cc) + after_cc_json(b),
    );
    lemma_cc_json_tells_cc(a.cc, b.cc, after_cc_json(a), after_cc_json(b));
    lemma_after_cc_tells_rest(a, b);
}

/// The wire text of a notification to one recipient tells what it was
/// built from: two such notifications with the same wire text have the same
/// sender, the same recipient, the same subject and the same body.
pub proof fn lemma_wire_text_tells_fields(
    from_a: Identity,
    to_a: Identity,
    subject_a: Seq<char>,
    html_body_a: Seq<char>,
    from_b: Identity,
    to_b: Identity,
    subject_b: Seq<char>,
    html_body_b: Seq<char>,
)
    requires
        payload_json(single_recipient_payload(from_a, to_a, subject_a, html_body_a))
            == payload_json(single_recipient_payload(from_b, to_b, subject_b, html_body_b)),
    ensures
        from_a == from_b,
        to_a == to_b,
        subject_a == subject_b,
        html_body_a == html_body_b,
{
    let a = single_recipient_payload(from_a, to_a, subject_a, html_body_a);
    let b = single_recipient_payload(from_b, to_b, subject_b, html_body_b);
    lemma_payload_json_tells_payload(a, b);
    assert(a.to[0] == to_a);
    assert(b.to[0] == to_b);
}

} // verus!
