use dmx_adapter::database::Database;
use dmx_adapter::messages::{IncomingPayloadMessage, PayloadMessage, TypeMessage};

#[test]
fn database_file_is_under_the_profile_directory() {
    let db = Database::new(String::from("/home/user/.webthings"), String::from("dmx-adapter"));
    assert_eq!(db.path(), "/home/user/.webthings/db.sqlite3");
}

#[test]
fn config_key_is_derived_from_the_plugin_id() {
    let db = Database::new(String::from("/tmp/profile"), String::from("dmx-adapter"));
    assert_eq!(db.key(), "addons.config.dmx-adapter");
}

#[test]
fn message_shapes_carry_type_and_payload() {
    let t = TypeMessage { message_type: 9 };
    assert_eq!(t.message_type, 9);
    let payload = String::from("data");
    let out = PayloadMessage { message_type: 2, data: &payload };
    assert_eq!(out.message_type, 2);
    assert_eq!(out.data, "data");
    let incoming = IncomingPayloadMessage { message_type: 3, data: 17u8 };
    assert_eq!(incoming.message_type, 3);
    assert_eq!(incoming.data, 17);
}
