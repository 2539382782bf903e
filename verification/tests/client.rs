use sensor_client::client::Client;

#[test]
fn disconnected_sends_are_no_ops() {
    // A failed connection attempt yields a disconnected client; every later
    // send produces nothing at all, however often it is called.
    let client = Client::new(false);
    for _ in 0..100 {
        assert_eq!(client.send("OSU|1"), None);
        assert_eq!(client.send(""), None);
        assert_eq!(client.send("MOUSE|0;0;0;0"), None);
    }
}

#[test]
fn connected_send_appends_newline() {
    let client = Client::new(true);
    assert_eq!(client.send("OSU|1"), Some("OSU|1\n".to_string()));
    assert_eq!(client.send(""), Some("\n".to_string()));
    assert_eq!(
        client.send("KEYBOARD|1024"),
        Some("KEYBOARD|1024\n".to_string())
    );
}
