use bar_autohost::config::AutohostConfig;
use bar_autohost::session::{ChannelState, Request, ServerError, Step, TeiServer};
use bar_autohost::transport::{HttpClientError, WebsocketClient, WebsocketError};

fn fake_config() -> AutohostConfig {
    AutohostConfig {
        spring_relative_path: "fake_string_relative_path".to_string(),
        start_script_relative_path: "fake_start_script_relative_path".to_string(),
        write_dir_relative_path: "fake_write_dir_relative_path".to_string(),
        server_domain: "fake_string_server_domain".to_string(),
        server_login_email: "fake_string_server_login_email".to_string(),
        server_login_password: "fake_server_login_password".to_string(),
    }
}

struct FakeHttpClient {
    response: Option<String>,
    posted: Vec<(String, String)>,
}

impl FakeHttpClient {
    fn build_with_successful_response(response: String) -> Self {
        FakeHttpClient { response: Some(response), posted: Vec::new() }
    }

    fn build_with_failed_response() -> Self {
        FakeHttpClient { response: None, posted: Vec::new() }
    }

    fn post(&mut self, url: &str, body: &str) -> Result<String, HttpClientError> {
        self.posted.push((url.to_string(), body.to_string()));
        match &self.response {
            Some(response) => Ok(response.clone()),
            None => Err(HttpClientError::RequestFailed("Oh noes!".to_string())),
        }
    }
}

struct FakeWebsocketClient {
    should_connect: bool,
    urls: Vec<String>,
}

impl FakeWebsocketClient {
    fn build(should_connect: bool) -> Self {
        FakeWebsocketClient { should_connect, urls: Vec::new() }
    }
}

impl WebsocketClient for FakeWebsocketClient {
    fn connect(&mut self, server_url: &str) -> Result<(), WebsocketError> {
        self.urls.push(server_url.to_string());
        if self.should_connect {
            Ok(())
        } else {
            Err(WebsocketError::Connection("Something went wrong!".to_string()))
        }
    }
}

fn drive(
    server: &mut TeiServer,
    first: Step,
    http: &mut FakeHttpClient,
    socket: &mut FakeWebsocketClient,
) -> Result<(), ServerError> {
    let mut step = first;
    loop {
        step = match step {
            Step::Pending(Request::Post { url, body }) => {
                assert!(server.awaits_http_reply());
                let reply = http.post(&url, &body);
                server.on_http_reply(reply)
            }
            Step::Pending(Request::Connect { url }) => {
                assert!(server.awaits_connect_result());
                let result = socket.connect(&url);
                server.on_connect_result(result)
            }
            Step::Done(result) => return result,
        }
    }
}

fn start(
    server: &mut TeiServer,
    http: &mut FakeHttpClient,
    socket: &mut FakeWebsocketClient,
) -> Result<(), ServerError> {
    let first = server.start_session();
    drive(server, first, http, socket)
}

fn end(
    server: &mut TeiServer,
    http: &mut FakeHttpClient,
    socket: &mut FakeWebsocketClient,
) -> Result<(), ServerError> {
    let first = server.end_session();
    drive(server, first, http, socket)
}

fn successful_server_response() -> String {
    "{\"result\":\"fake_result\",\"token_value\":\"fake_token\"}".to_string()
}

#[test]
fn test_session_start_fails_when_http_client_returns_error() {
    let config = fake_config();
    let mut http_client = FakeHttpClient::build_with_failed_response();
    let mut websock_client = FakeWebsocketClient::build(false);
    let mut server = TeiServer::new(&config);

    let result = start(&mut server, &mut http_client, &mut websock_client);
    assert!(result.is_err());
}

#[test]
fn server_test_session_start_fails_when_http_client_returns_error() {
    let config = fake_config();
    let mut http_client = FakeHttpClient::build_with_failed_response();
    let mut websock_client = FakeWebsocketClient::build(true);
    let mut server = TeiServer::new(&config);

    let result = start(&mut server, &mut http_client, &mut websock_client);
    assert!(result.is_err());
}

#[test]
fn test_session_start_fails_when_websock_client_returns_error() {
    let config = fake_config();
    let mut http_client =
        FakeHttpClient::build_with_successful_response(successful_server_response());
    let mut websock_client = FakeWebsocketClient::build(false);
    let mut server = TeiServer::new(&config);

    let result = start(&mut server, &mut http_client, &mut websock_client);
    assert!(result.is_err());
}

#[test]
fn test_session_start_succeeds() {
    let config = fake_config();
    let mut http_client =
        FakeHttpClient::build_with_successful_response(successful_server_response());
    let mut websock_client = FakeWebsocketClient::build(true);
    let mut server = TeiServer::new(&config);

    let result = start(&mut server, &mut http_client, &mut websock_client);
    assert!(result.is_ok());
}

#[test]
fn server_test_session_start_succeeds() {
    let config = fake_config();
    let mut http_client =
        FakeHttpClient::build_with_successful_response(successful_server_response());
    let mut websock_client = FakeWebsocketClient::build(true);
    let mut server = TeiServer::new(&config);

    let result = start(&mut server, &mut http_client, &mut websock_client);
    assert!(result.is_ok());
    assert_eq!(server.token(), "fake_token");
    assert_eq!(server.channel_state(), ChannelState::Connected);
}

#[test]
fn start_without_token_fetches_once_then_connects_once() {
    let config = fake_config();
    let mut http_client =
        FakeHttpClient::build_with_successful_response(successful_server_response());
    let mut websock_client = FakeWebsocketClient::build(true);
    let mut server = TeiServer::new(&config);

    start(&mut server, &mut http_client, &mut websock_client).unwrap();
    assert_eq!(http_client.posted.len(), 1);
    assert_eq!(
        http_client.posted[0].0,
        "https://fake_string_server_domain/teiserver/api/request_token"
    );
    assert_eq!(
        http_client.posted[0].1,
        "{\"cmd\":\"c.auth.get_token\",\"email\":\"fake_string_server_login_email\",\
         \"password\":\"fake_server_login_password\",\"ttl\":\"86400\"}"
    );
    assert_eq!(
        websock_client.urls,
        vec!["wss://fake_string_server_domain/tachyon/websocket/?token=fake_token\
              &client_hash=ef37ced34460ba9db08eeacc323f07386ad68402&client_name=bar-autohost"
            .to_string()]
    );
}

#[test]
fn start_with_token_skips_fetch_and_reconnects() {
    let config = fake_config();
    let mut http_client =
        FakeHttpClient::build_with_successful_response(successful_server_response());
    let mut websock_client = FakeWebsocketClient::build(true);
    let mut server = TeiServer::new(&config);

    start(&mut server, &mut http_client, &mut websock_client).unwrap();
    start(&mut server, &mut http_client, &mut websock_client).unwrap();
    assert_eq!(http_client.posted.len(), 1);
    assert_eq!(websock_client.urls.len(), 2);
    assert_eq!(websock_client.urls[0], websock_client.urls[1]);
}

#[test]
fn failed_token_request_leaves_token_empty_and_can_be_retried() {
    let config = fake_config();
    let mut http_client = FakeHttpClient::build_with_failed_response();
    let mut websock_client = FakeWebsocketClient::build(true);
    let mut server = TeiServer::new(&config);

    let result = start(&mut server, &mut http_client, &mut websock_client);
    match result {
        Err(ServerError::TransportFailure(message)) => {
            assert_eq!(message, "Token request failed: Oh noes!")
        }
        _ => panic!("expected a transport failure"),
    }
    assert_eq!(server.token(), "");
    assert!(websock_client.urls.is_empty());
    assert!(server.is_idle());

    http_client.response = Some(successful_server_response());
    assert!(start(&mut server, &mut http_client, &mut websock_client).is_ok());
    assert_eq!(http_client.posted.len(), 2);
}

#[test]
fn error_shape_reply_is_rejected_with_its_detail() {
    let config = fake_config();
    let mut http_client =
        FakeHttpClient::build_with_successful_response("{\"detail\": \"X\"}".to_string());
    let mut websock_client = FakeWebsocketClient::build(true);
    let mut server = TeiServer::new(&config);

    let result = start(&mut server, &mut http_client, &mut websock_client);
    match result {
        Err(ServerError::AuthRejected(message)) => {
            assert!(message.contains("X"));
            assert_eq!(message, "Error received for token request: X");
        }
        _ => panic!("expected a rejection"),
    }
    assert!(websock_client.urls.is_empty());
    assert_eq!(server.token(), "");
}

#[test]
fn unknown_reply_is_rejected_with_the_body() {
    let config = fake_config();
    let mut http_client =
        FakeHttpClient::build_with_successful_response("Not Found".to_string());
    let mut websock_client = FakeWebsocketClient::build(true);
    let mut server = TeiServer::new(&config);

    let result = start(&mut server, &mut http_client, &mut websock_client);
    match result {
        Err(e) => {
            assert_eq!(e.message(), "Unknown response for token request: Not Found");
            assert!(matches!(e, ServerError::AuthRejected(_)));
        }
        Ok(()) => panic!("expected a rejection"),
    }
}

#[test]
fn success_shape_wins_over_error_shape() {
    let config = fake_config();
    let body = "{\"detail\":\"ignored\",\"result\":\"ok\",\"token_value\":\"T\"}".to_string();
    let mut http_client = FakeHttpClient::build_with_successful_response(body);
    let mut websock_client = FakeWebsocketClient::build(true);
    let mut server = TeiServer::new(&config);

    assert!(start(&mut server, &mut http_client, &mut websock_client).is_ok());
    assert_eq!(server.token(), "T");
}

#[test]
fn empty_granted_token_is_rejected() {
    let config = fake_config();
    let body = "{\"result\":\"ok\",\"token_value\":\"\"}".to_string();
    let mut http_client = FakeHttpClient::build_with_successful_response(body);
    let mut websock_client = FakeWebsocketClient::build(true);
    let mut server = TeiServer::new(&config);

    let result = start(&mut server, &mut http_client, &mut websock_client);
    assert!(matches!(result, Err(ServerError::AuthRejected(_))));
    assert!(websock_client.urls.is_empty());
}

#[test]
fn connect_url_carries_percent_encoded_token() {
    let config = fake_config();
    let body = "{\"result\":\"ok\",\"token_value\":\"a b/c&d\"}".to_string();
    let mut http_client = FakeHttpClient::build_with_successful_response(body);
    let mut websock_client = FakeWebsocketClient::build(true);
    let mut server = TeiServer::new(&config);

    start(&mut server, &mut http_client, &mut websock_client).unwrap();
    assert!(websock_client.urls[0].contains("?token=a%20b%2Fc%26d&"));
    assert_eq!(server.token(), "a b/c&d");
}

#[test]
fn failed_connect_leaves_session_idle_without_token() {
    let config = fake_config();
    let mut http_client =
        FakeHttpClient::build_with_successful_response(successful_server_response());
    let mut websock_client = FakeWebsocketClient::build(false);
    let mut server = TeiServer::new(&config);

    let result = start(&mut server, &mut http_client, &mut websock_client);
    match result {
        Err(ServerError::TransportFailure(message)) => {
            assert_eq!(message, "Channel connection failed: Something went wrong!")
        }
        _ => panic!("expected a transport failure"),
    }
    assert_eq!(server.token(), "");
    assert_eq!(server.channel_state(), ChannelState::Disconnected);
}

#[test]
fn end_without_token_is_a_no_op() {
    let config = fake_config();
    let mut server = TeiServer::new(&config);
    match server.end_session() {
        Step::Done(Ok(())) => {}
        _ => panic!("expected an immediate success"),
    }
    assert!(server.is_idle());
    assert_eq!(server.token(), "");
}

#[test]
fn end_posts_disconnect_and_clears_token() {
    let config = fake_config();
    let mut http_client =
        FakeHttpClient::build_with_successful_response(successful_server_response());
    let mut websock_client = FakeWebsocketClient::build(true);
    let mut server = TeiServer::new(&config);

    start(&mut server, &mut http_client, &mut websock_client).unwrap();
    http_client.response = Some("Not Found".to_string());
    assert!(end(&mut server, &mut http_client, &mut websock_client).is_ok());
    assert_eq!(http_client.posted.len(), 2);
    assert_eq!(
        http_client.posted[1].0,
        "https://fake_string_server_domain/teiserver/api/disconnect"
    );
    assert_eq!(http_client.posted[1].1, "{\"command\":\"disconnect\"}");
    assert_eq!(server.token(), "");
    assert_eq!(server.channel_state(), ChannelState::Disconnected);
}

#[test]
fn failed_disconnect_keeps_token() {
    let config = fake_config();
    let mut http_client =
        FakeHttpClient::build_with_successful_response(successful_server_response());
    let mut websock_client = FakeWebsocketClient::build(true);
    let mut server = TeiServer::new(&config);

    start(&mut server, &mut http_client, &mut websock_client).unwrap();
    http_client.response = None;
    let result = end(&mut server, &mut http_client, &mut websock_client);
    match result {
        Err(ServerError::TransportFailure(message)) => {
            assert_eq!(message, "Disconnect request failed: Oh noes!")
        }
        _ => panic!("expected a transport failure"),
    }
    assert_eq!(server.token(), "fake_token");
    assert_eq!(server.channel_state(), ChannelState::Connected);
}
