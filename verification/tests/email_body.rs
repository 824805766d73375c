use serde_json::Value;
use subscriber_intake::domain::subscriber_email::SubscriberEmail;
use subscriber_intake::domain::subscriber_name::SubscriberName;
use subscriber_intake::domain::validation::Defect;
use subscriber_intake::email_client::email_body::EmailAddress;
use subscriber_intake::email_client::email_body::EmailBody;
use subscriber_intake::email_client::email_body::NameAndEmail;

fn identity<'a>(email: &'a str, name: &'a str) -> NameAndEmail<'a> {
    match NameAndEmail::new(email, name) {
        Ok(identity) => identity,
        Err(error) => panic!("{}", error.message()),
    }
}

#[test]
fn an_identity_pairs_a_valid_address_with_a_valid_name() {
    let pair = identity("ursula@example.com", "Ursula Le Guin");
    assert_eq!(pair.address(), "ursula@example.com");
    assert_eq!(pair.name(), "Ursula Le Guin");
}

#[test]
fn an_identity_refuses_an_invalid_part() {
    let error = NameAndEmail::new("ursula", "Ursula Le Guin").err().unwrap();
    assert_eq!(error.input, "ursula");
    assert_eq!(error.defect, Defect::MalformedEmail);

    let error = NameAndEmail::new("ursula@example.com", "  ").err().unwrap();
    assert_eq!(error.input, "  ");
    assert_eq!(error.defect, Defect::BlankName);

    let error = NameAndEmail::new("ursula@example.com", "<Ursula>").err().unwrap();
    assert_eq!(error.input, "<Ursula>");
    assert_eq!(error.defect, Defect::ForbiddenCharacter);

    let long = "x".repeat(300);
    let error = NameAndEmail::new("ursula@example.com", &long).err().unwrap();
    assert_eq!(error.input, long);
    assert_eq!(error.defect, Defect::NameTooLong);

    // With both wrong, the address is the one reported.
    let error = NameAndEmail::new("", "").err().unwrap();
    assert_eq!(error.defect, Defect::MalformedEmail);
}

#[test]
fn an_identity_from_validated_parts_keeps_them() {
    let email = SubscriberEmail::parse("ursula@example.com".to_string()).ok().unwrap();
    let name = SubscriberName::parse("Ursula Le Guin".to_string()).ok().unwrap();
    let pair = NameAndEmail::from_validated(&email, &name);
    assert_eq!(pair.address(), "ursula@example.com");
    assert_eq!(pair.name(), "Ursula Le Guin");
    let entry = EmailAddress::new(pair);
    assert_eq!(entry.email_address().address(), "ursula@example.com");
    assert_eq!(entry.email_address().name(), "Ursula Le Guin");
}

#[test]
fn a_body_has_one_recipient_and_nothing_optional() {
    let from = identity("news@example.com", "The Newsletter");
    let to = identity("ursula@example.com", "Ursula Le Guin");
    let body = EmailBody::new(from, to, "Welcome", "<p>Hello</p>");
    assert_eq!(body.from().address(), "news@example.com");
    assert_eq!(body.from().name(), "The Newsletter");
    assert_eq!(body.to().len(), 1);
    assert_eq!(body.to()[0].email_address().address(), "ursula@example.com");
    assert_eq!(body.to()[0].email_address().name(), "Ursula Le Guin");
    assert_eq!(body.subject(), "Welcome");
    assert_eq!(body.html_body(), "<p>Hello</p>");
}

#[test]
fn the_wire_text_is_exactly_the_documented_object() {
    let from = identity("news@example.com", "The Newsletter");
    let to = identity("ursula@example.com", "Ursula Le Guin");
    let body = EmailBody::new(from, to, "Welcome", "<p>Hello</p>");
    assert_eq!(
        body.to_json(),
        "{\"from\":{\"address\":\"news@example.com\",\"name\":\"The Newsletter\"},\
         \"to\":[{\"email_address\":{\"address\":\"ursula@example.com\",\"name\":\"Ursula Le Guin\"}}],\
         \"cc\":null,\"reply_to\":null,\
         \"subject\":\"Welcome\",\"html_body\":\"<p>Hello</p>\"}"
    );
}

#[test]
fn the_wire_text_escapes_what_json_must_escape() {
    let from = identity("news@example.com", "The Newsletter");
    let to = identity("ursula@example.com", "Ursula Le Guin");
    let subject = "say \"hi\" \\ \u{8}\u{c}\n\r\t \u{0}\u{1f}\u{7f} é 🦀 /";
    let body = EmailBody::new(from, to, subject, "");
    let json = body.to_json();
    assert!(json.contains(
        "\"subject\":\"say \\\"hi\\\" \\\\ \\b\\f\\n\\r\\t \\u0000\\u001f\u{7f} é 🦀 /\",\"html_body\":\"\"}"
    ));
}

#[test]
fn a_payload_read_back_from_its_json_has_the_same_fields() {
    let from = identity("news@example.com", "The Newsletter's desk");
    let to = identity("ursula@example.com", "Ursula\u{a0}Le Guin ë");
    let subject = "Welcome, \"Ursula\"!\n";
    let html = "<p class=\"greeting\">Hello,\tUrsula</p>\r\n<!-- \u{1} -->";
    let body = EmailBody::new(from, to, subject, html);
    let json = body.to_json();

    let read: Value = serde_json::from_str(&json).expect("the wire text is JSON");
    let object = read.as_object().expect("the wire text is an object");
    assert_eq!(object.len(), 6);
    assert_eq!(read["from"]["address"].as_str(), Some("news@example.com"));
    assert_eq!(read["from"]["name"].as_str(), Some("The Newsletter's desk"));
    let recipients = read["to"].as_array().expect("the recipients are an array");
    assert_eq!(recipients.len(), 1);
    assert_eq!(recipients[0]["email_address"]["address"].as_str(), Some("ursula@example.com"));
    assert_eq!(recipients[0]["email_address"]["name"].as_str(), Some("Ursula\u{a0}Le Guin ë"));
    assert!(read["cc"].is_null());
    assert!(read["reply_to"].is_null());
    assert_eq!(read["subject"].as_str(), Some(subject));
    assert_eq!(read["html_body"].as_str(), Some(html));
}

#[test]
fn more_recipients_a_copy_and_a_reply_address_go_on_the_wire() {
    let from = identity("news@example.com", "The Newsletter");
    let to = identity("ursula@example.com", "Ursula Le Guin");
    let body = EmailBody::new(from, to, "Welcome", "<p>Hello</p>")
        .with_recipient(identity("octavia@example.com", "Octavia Butler"))
        .with_recipient(identity("n.k@example.com", "N. K. Jemisin"))
        .with_cc(identity("desk@example.com", "The Desk"))
        .with_cc(identity("archive@example.com", "Archive"))
        .with_reply_to(identity("answers@example.com", "Answers"));

    assert_eq!(body.to().len(), 3);
    assert_eq!(body.to()[1].email_address().address(), "octavia@example.com");
    assert_eq!(body.to()[2].email_address().name(), "N. K. Jemisin");
    assert_eq!(body.cc().map(|list| list.len()), Some(2));
    assert_eq!(body.reply_to().map(|identity| identity.address()), Some("answers@example.com"));

    assert_eq!(
        body.to_json(),
        "{\"from\":{\"address\":\"news@example.com\",\"name\":\"The Newsletter\"},\
         \"to\":[{\"email_address\":{\"address\":\"ursula@example.com\",\"name\":\"Ursula Le Guin\"}},\
         {\"email_address\":{\"address\":\"octavia@example.com\",\"name\":\"Octavia Butler\"}},\
         {\"email_address\":{\"address\":\"n.k@example.com\",\"name\":\"N. K. Jemisin\"}}],\
         \"cc\":[{\"email_address\":{\"address\":\"desk@example.com\",\"name\":\"The Desk\"}},\
         {\"email_address\":{\"address\":\"archive@example.com\",\"name\":\"Archive\"}}],\
         \"reply_to\":{\"address\":\"answers@example.com\",\"name\":\"Answers\"},\
         \"subject\":\"Welcome\",\"html_body\":\"<p>Hello</p>\"}"
    );

    let read: Value = serde_json::from_str(&body.to_json()).expect("the wire text is JSON");
    assert_eq!(read["to"].as_array().map(|list| list.len()), Some(3));
    assert_eq!(read["to"][2]["email_address"]["address"].as_str(), Some("n.k@example.com"));
    assert_eq!(read["cc"].as_array().map(|list| list.len()), Some(2));
    assert_eq!(read["cc"][1]["email_address"]["name"].as_str(), Some("Archive"));
    assert_eq!(read["reply_to"]["address"].as_str(), Some("answers@example.com"));
    assert_eq!(read["reply_to"]["name"].as_str(), Some("Answers"));
}

#[test]
fn a_new_body_has_no_copy_and_no_reply_address() {
    let from = identity("news@example.com", "The Newsletter");
    let to = identity("ursula@example.com", "Ursula Le Guin");
    let body = EmailBody::new(from, to, "Welcome", "<p>Hello</p>");
    assert!(body.cc().is_none());
    assert!(body.reply_to().is_none());
    let replaced = body
        .with_reply_to(identity("first@example.com", "First"))
        .with_reply_to(identity("second@example.com", "Second"));
    assert_eq!(replaced.reply_to().map(|identity| identity.name()), Some("Second"));
    assert_eq!(replaced.to().len(), 1);
    assert!(replaced.cc().is_none());
}
