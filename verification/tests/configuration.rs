use subscriber_intake::configuration::DatabaseSettings;
use subscriber_intake::configuration::Settings;
use subscriber_intake::secret::Secret;
use subscriber_intake::text::chars_of;
use subscriber_intake::text::decimal_string;

fn settings(port: u16) -> Settings {
    Settings {
        database: DatabaseSettings {
            username: "postgres".to_string(),
            password: Secret::new("p@ss:word/1".to_string()),
            port,
            host: "127.0.0.1".to_string(),
            database_name: "newsletter".to_string(),
        },
        application_port: 8000,
    }
}

#[test]
fn the_connection_string_names_every_part() {
    let settings = settings(5432);
    assert_eq!(settings.application_port, 8000);
    let address = settings.database.connection_string();
    assert_eq!(
        address.expose_secret(),
        "postgres://postgres:p@ss:word/1@127.0.0.1:5432/newsletter"
    );
}

#[test]
fn the_port_is_written_in_decimal() {
    assert_eq!(
        settings(0).database.connection_string().expose_secret(),
        "postgres://postgres:p@ss:word/1@127.0.0.1:0/newsletter"
    );
    assert_eq!(
        settings(65535).database.connection_string().expose_secret(),
        "postgres://postgres:p@ss:word/1@127.0.0.1:65535/newsletter"
    );
}

#[test]
fn decimal_is_what_the_standard_library_prints() {
    let mut n: u16 = 0;
    loop {
        assert_eq!(decimal_string(n), n.to_string());
        if n == u16::MAX {
            break;
        }
        n += 1;
    }
    assert_eq!(decimal_string(7), "7");
    assert_eq!(decimal_string(10), "10");
    assert_eq!(decimal_string(1009), "1009");
}

#[test]
fn a_secret_gives_back_its_text() {
    let secret = Secret::new("hunter2".to_string());
    assert_eq!(secret.expose_secret(), "hunter2");
    assert_eq!(Secret::new(String::new()).expose_secret(), "");
}

#[test]
fn the_characters_of_a_text_come_in_order() {
    assert_eq!(chars_of("aë🦀"), vec!['a', 'ë', '🦀']);
    assert_eq!(chars_of(""), Vec::<char>::new());
}
