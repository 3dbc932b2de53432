use linechat::endpoint::ConnectionRole;

#[test]
fn server_listens_and_the_rest_dial() {
    assert_eq!(ConnectionRole::from_mode("server"), ConnectionRole::Listener);
    assert_eq!(ConnectionRole::from_mode("client"), ConnectionRole::Dialer);
    assert_eq!(ConnectionRole::from_mode("Server"), ConnectionRole::Dialer);
    assert_eq!(ConnectionRole::from_mode("server "), ConnectionRole::Dialer);
    assert_eq!(ConnectionRole::from_mode(""), ConnectionRole::Dialer);
}

#[test]
fn listener_notices() {
    let role = ConnectionRole::Listener;
    assert_eq!(
        role.starting_notice("127.0.0.1:9000"),
        "Starting server on 127.0.0.1:9000 - waiting for one connection..."
    );
    assert_eq!(role.connected_notice("127.0.0.1:50412"), "Client connected: 127.0.0.1:50412");
    assert_eq!(role.connected_line("127.0.0.1:50412"), "--- Connected: 127.0.0.1:50412 ---");
    assert_eq!(role.failure_notice("address in use"), "server error: address in use");
}

#[test]
fn dialer_notices() {
    let role = ConnectionRole::Dialer;
    assert_eq!(role.starting_notice("127.0.0.1:9000"), "Connecting to 127.0.0.1:9000...");
    assert_eq!(role.connected_notice("127.0.0.1:9000"), "Connected to server");
    assert_eq!(role.connected_line("127.0.0.1:9000"), "--- Connected to server ---");
    assert_eq!(role.failure_notice("connection refused"), "client error: connection refused");
}
