use lagon_deploy::error::DeployError;
use lagon_deploy::trpc::{
    decode_response, Config, Method, TrpcClient, TrpcError, TrpcErrorResult, TrpcResponse,
    TrpcResult,
};

fn config(token: Option<&str>) -> Config {
    Config {
        site_url: "https://dash.example.com".to_string(),
        token: token.map(|text| text.to_string()),
    }
}

fn read_url(body: &str) -> Option<TrpcResponse<String>> {
    let value: serde_json::Value = serde_json::from_str(body).ok()?;
    let url = value.get("result")?.get("data")?.get("url")?.as_str()?;
    Some(TrpcResponse { result: TrpcResult { data: url.to_string() } })
}

fn read_error(body: &str) -> Option<TrpcErrorResult> {
    let value: serde_json::Value = serde_json::from_str(body).ok()?;
    let message = value.get("error")?.get("message")?.as_str()?;
    Some(TrpcErrorResult { error: TrpcError { message: message.to_string() } })
}

fn decode(body: &str) -> Result<TrpcResponse<String>, DeployError> {
    decode_response(read_url(body), read_error(body), body.to_string())
}

#[test]
fn success_envelope_decodes_to_its_data() {
    let decoded = decode("{\"result\":{\"data\":{\"url\":\"https://x\"}}}");
    assert_eq!(decoded.unwrap().result.data, "https://x");
}

#[test]
fn error_envelope_yields_the_remote_message() {
    let error = decode("{\"error\":{\"message\":\"boom\"}}").unwrap_err();
    assert_eq!(error, DeployError::RemoteError("boom".to_string()));
    assert!(error.message().contains("boom"));
    assert_eq!(error.message(), "Error from API: boom");
}

#[test]
fn unparseable_body_is_a_protocol_error() {
    let error = decode("<html>502</html>").unwrap_err();
    assert_eq!(error, DeployError::ProtocolError("<html>502</html>".to_string()));
    assert_eq!(error.message(), "Could not parse error from response: <html>502</html>");
}

#[test]
fn result_wins_over_an_error_envelope() {
    let decoded = decode_response(
        Some(TrpcResponse { result: TrpcResult { data: 7u32 } }),
        Some(TrpcErrorResult { error: TrpcError { message: "ignored".to_string() } }),
        "raw".to_string(),
    );
    assert_eq!(decoded.unwrap().result.data, 7);
}

#[test]
fn query_without_input_is_a_plain_get() {
    let config = config(Some("secret"));
    let client = TrpcClient::new(&config);
    let request = client.query("functionsList", None).unwrap();
    assert_eq!(request.method, Method::Get);
    assert_eq!(request.uri, "https://dash.example.com/api/trpc/functionsList");
    assert!(request.body.is_none());
    assert_eq!(request.headers.len(), 2);
    assert_eq!(request.headers[0].name, "content-type");
    assert_eq!(request.headers[0].value, "application/json");
    assert_eq!(request.headers[1].name, "x-lagon-token");
    assert_eq!(request.headers[1].value, "secret");
}

#[test]
fn query_input_travels_percent_encoded() {
    let config = config(Some("secret"));
    let client = TrpcClient::new(&config);
    let request = client.query("functionGet", Some("{\"id\":\"a b\"}")).unwrap();
    assert_eq!(
        request.uri,
        "https://dash.example.com/api/trpc/functionGet?input=%7B%22id%22%3A%22a%20b%22%7D"
    );
    assert!(request.body.is_none());
}

#[test]
fn query_input_of_plain_characters_is_left_alone() {
    let config = config(Some("secret"));
    let client = TrpcClient::new(&config);
    let request = client.query("ping", Some("abc-_.~123")).unwrap();
    assert_eq!(request.uri, "https://dash.example.com/api/trpc/ping?input=abc-_.~123");
}

#[test]
fn mutation_sends_the_input_as_body() {
    let config = config(Some("secret"));
    let client = TrpcClient::new(&config);
    let request = client.mutation("deploymentCreate", "{\"functionId\":\"f\"}".to_string()).unwrap();
    assert_eq!(request.method, Method::Post);
    assert_eq!(request.uri, "https://dash.example.com/api/trpc/deploymentCreate");
    assert_eq!(request.body, Some("{\"functionId\":\"f\"}".to_string()));
    assert_eq!(request.headers[1].name, "x-lagon-token");
    assert_eq!(request.headers[1].value, "secret");
}

#[test]
fn call_without_a_token_is_refused() {
    let config = config(None);
    let client = TrpcClient::new(&config);
    assert_eq!(client.token(), Err(DeployError::MissingToken));
    assert_eq!(client.query("ping", None).err(), Some(DeployError::MissingToken));
    assert_eq!(
        client.mutation("ping", "{}".to_string()).err(),
        Some(DeployError::MissingToken)
    );
}

#[test]
fn call_with_an_empty_token_is_refused() {
    let config = config(Some(""));
    let client = TrpcClient::new(&config);
    assert_eq!(client.token(), Err(DeployError::MissingToken));
    assert_eq!(client.query("ping", Some("1")).err(), Some(DeployError::MissingToken));
    assert_eq!(
        client.mutation("ping", "{}".to_string()).err(),
        Some(DeployError::MissingToken)
    );
}

#[test]
fn token_is_handed_out_as_it_is() {
    let config = config(Some("t0k3n"));
    let client = TrpcClient::new(&config);
    assert_eq!(client.token(), Ok("t0k3n"));
}
