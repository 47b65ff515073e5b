use vault_client::env::{env_commands, env_exports, env_name, export_line, export_lines, format_export, string_entries};
use vault_client::error::ClientError;
use vault_client::json::Object;
use vault_client::rest::{get_api_endpoint, get_api_token, get_body, get_http_method, rest_request, HttpMethod};
use vault_client::vault::{parse_answer, read_secret_response, resolve_token, secret_data, secret_request, secret_url, APP_NAME};

fn object(text: &str) -> Object {
    serde_json::from_str(text).unwrap()
}

#[test]
fn env_token_wins_over_dotfiles() {
    let dotfiles = vec![Some("xyz\n".to_string()), Some("home".to_string())];
    assert_eq!(resolve_token(Some("abc".to_string()), &dotfiles), Ok("abc".to_string()));
    assert_eq!(resolve_token(Some("abc".to_string()), &vec![]), Ok("abc".to_string()));
}

#[test]
fn dotfile_in_working_directory_kept_exactly() {
    let dotfiles = vec![Some("xyz\n".to_string()), Some("home".to_string())];
    assert_eq!(resolve_token(None, &dotfiles), Ok("xyz\n".to_string()));
}

#[test]
fn dotfile_in_home_when_working_directory_has_none() {
    let dotfiles = vec![None, Some("home-token".to_string())];
    assert_eq!(resolve_token(None, &dotfiles), Ok("home-token".to_string()));
}

#[test]
fn empty_env_token_falls_back_to_dotfile() {
    let dotfiles = vec![None, Some("home-token".to_string())];
    assert_eq!(resolve_token(Some(String::new()), &dotfiles), Ok("home-token".to_string()));
}

#[test]
fn no_token_anywhere() {
    assert_eq!(resolve_token(None, &vec![None, None]), Err(ClientError::NoToken));
    assert_eq!(resolve_token(None, &vec![]), Err(ClientError::NoToken));
}

#[test]
fn secret_url_joins_endpoint_and_path() {
    assert_eq!(secret_url("https://vault.local:8200", "secret/app"), "https://vault.local:8200/v1/secret/app");
}

#[test]
fn secret_request_needs_endpoint_and_token() {
    assert_eq!(
        secret_request(None, Ok("t".to_string()), "secret/app").unwrap_err(),
        ClientError::MissingEndpoint
    );
    assert_eq!(
        secret_request(Some("https://v"), Err(ClientError::NoToken), "secret/app").unwrap_err(),
        ClientError::NoToken
    );
    let q = secret_request(Some("https://v"), Ok("t".to_string()), "secret/app").unwrap();
    assert_eq!(q.url, "https://v/v1/secret/app");
    assert_eq!(q.user_agent, APP_NAME);
    assert_eq!(q.token, "t");
}

#[test]
fn answer_with_errors_gives_no_exports() {
    let response = object(r#"{"errors": ["permission denied"]}"#);
    assert_eq!(
        env_commands(&response, None),
        Err(ClientError::Upstream("[\"permission denied\"]".to_string()))
    );
    let both = object(r#"{"errors": [], "data": {"a": "b"}}"#);
    assert_eq!(env_commands(&both, None), Err(ClientError::Upstream("[]".to_string())));
}

#[test]
fn data_that_is_no_object_is_a_shape_error() {
    for text in [r#"{"data": "text"}"#, r#"{"data": ["a", "b"]}"#, r#"{"data": 3}"#, r#"{}"#] {
        let response = object(text);
        assert_eq!(env_commands(&response, None), Err(ClientError::DataNotObject));
        assert_eq!(secret_data(&response).unwrap_err(), ClientError::DataNotObject);
    }
}

#[test]
fn exports_one_line_per_key() {
    let response = object(r#"{"data": {"db_pass": "s3cr3t", "greeting": "hello world"}}"#);
    let lines = env_commands(&response, Some("app")).unwrap();
    assert_eq!(lines.len(), 2);
    assert!(lines.contains(&"export APP_DB_PASS=s3cr3t;\n".to_string()));
    assert!(lines.contains(&"export APP_GREETING='hello world';\n".to_string()));
}

#[test]
fn exports_without_prefix() {
    let data = object(r#"{"user": "admin"}"#);
    assert_eq!(env_exports(&data, None), Ok(vec!["export USER=admin;\n".to_string()]));
}

#[test]
fn exports_of_empty_data() {
    let data = object(r#"{}"#);
    assert_eq!(env_exports(&data, Some("p")), Ok(vec![]));
}

#[test]
fn value_that_is_no_string() {
    let data = object(r#"{"port": 5432}"#);
    assert_eq!(env_exports(&data, None), Err(ClientError::NotAString("port".to_string())));
    assert_eq!(string_entries(&data), Err(ClientError::NotAString("port".to_string())));
}

#[test]
fn string_entries_keep_values() {
    let data = object(r#"{"k": "v w"}"#);
    assert_eq!(string_entries(&data), Ok(vec![("k".to_string(), "v w".to_string())]));
}

#[test]
fn quoting_of_shell_characters() {
    assert_eq!(export_line(None, "k", "it's!"), "export K='it'\\''s'\\!'';\n");
    assert_eq!(export_line(None, "k", ""), "export K='';\n");
    assert_eq!(export_line(None, "k", "a-b_c=d/e,f.g+h"), "export K=a-b_c=d/e,f.g+h;\n");
    assert_eq!(export_line(None, "k", "$HOME"), "export K='$HOME';\n");
}

#[test]
fn variable_names_are_upper_cased() {
    assert_eq!(env_name(Some("my"), "key"), "MY_KEY");
    assert_eq!(env_name(None, "mixed_Case"), "MIXED_CASE");
}

#[test]
fn export_text_shape() {
    assert_eq!(format_export("NAME", "'v'"), "export NAME='v';\n");
}

#[test]
fn export_lines_follow_pairs() {
    let pairs = vec![("b".to_string(), "1".to_string()), ("a".to_string(), "x y".to_string())];
    assert_eq!(
        export_lines(Some("p"), &pairs),
        vec!["export P_B=1;\n".to_string(), "export P_A='x y';\n".to_string()]
    );
}

#[test]
fn invalid_json_from_store() {
    assert_eq!(read_secret_response("not json").unwrap_err(), ClientError::InvalidJson);
    assert_eq!(read_secret_response("[1, 2]").unwrap_err(), ClientError::InvalidJson);
    assert!(read_secret_response(r#"{"data": {"a": "b"}}"#).is_ok());
}

#[test]
fn get_request_without_body() {
    let data = object(r#"{"url": "https://api.example.com", "token": "T"}"#);
    let q = rest_request(&data, "widgets", None, None, None).unwrap();
    assert_eq!(q.method, HttpMethod::Get);
    assert_eq!(q.url, "https://api.example.com/widgets");
    assert_eq!(q.api_key, "T");
    assert_eq!(q.body, None);
}

#[test]
fn literal_body_makes_a_post() {
    let data = object(r#"{"url": "https://api.example.com", "token": "T"}"#);
    let q = rest_request(&data, "widgets", None, Some("{\"a\": 1}".to_string()), None).unwrap();
    assert_eq!(q.method, HttpMethod::Post);
    assert_eq!(q.body, Some("{\"a\": 1}".to_string()));
}

#[test]
fn body_file_wins_over_literal_body() {
    assert_eq!(get_body(Some("lit".to_string()), Some("file".to_string())), Some("file".to_string()));
    assert_eq!(get_body(Some("lit".to_string()), None), Some("lit".to_string()));
    assert_eq!(get_body(None, None), None);
}

#[test]
fn explicit_method_wins() {
    assert_eq!(get_http_method(Some(HttpMethod::Head), true, false), HttpMethod::Head);
    assert_eq!(get_http_method(Some(HttpMethod::Get), true, true), HttpMethod::Get);
    assert_eq!(get_http_method(None, false, true), HttpMethod::Post);
    assert_eq!(get_http_method(None, false, false), HttpMethod::Get);
}

#[test]
fn missing_url_or_token() {
    let no_url = object(r#"{"token": "T"}"#);
    assert_eq!(get_api_endpoint(&no_url, "x"), Err(ClientError::NotAString("url".to_string())));
    assert_eq!(rest_request(&no_url, "x", None, None, None).unwrap_err(), ClientError::NotAString("url".to_string()));
    let no_token = object(r#"{"url": "https://a", "token": 7}"#);
    assert_eq!(get_api_token(&no_token), Err(ClientError::NotAString("token".to_string())));
    assert_eq!(rest_request(&no_token, "x", None, None, None).unwrap_err(), ClientError::NotAString("token".to_string()));
}

#[test]
fn error_messages() {
    assert_eq!(ClientError::NoToken.message(), "No token found");
    assert_eq!(ClientError::Upstream("[\"x\"]".to_string()).message(), "Errors from the secret store: [\"x\"].");
    assert_eq!(ClientError::NotAString("k".to_string()).message(), "Expected the value of 'k' to be a string.");
}

#[test]
fn exports_follow_the_key_order_of_data() {
    let data = object(r#"{"b": "2", "a": "1", "c": "x y"}"#);
    let first = env_exports(&data, None).unwrap();
    let second = env_exports(&data, None).unwrap();
    assert_eq!(
        first,
        vec!["export A=1;\n".to_string(), "export B=2;\n".to_string(), "export C='x y';\n".to_string()]
    );
    assert_eq!(first, second);
}

#[test]
fn data_object_is_returned_unchanged() {
    let expected = object(r#"{"Mixed_Key": "v", "other": "w"}"#);
    let response = object(r#"{"data": {"Mixed_Key": "v", "other": "w"}, "lease": 0}"#);
    assert_eq!(secret_data(&response), Ok(expected.clone()));
    let body = r#"{"data": {"Mixed_Key": "v", "other": "w"}}"#;
    assert_eq!(read_secret_response(body), Ok(expected));
}

#[test]
fn parse_answer_accepts_objects_only() {
    assert!(parse_answer(r#"{"a": 1}"#).is_ok());
    for text in ["", "[1]", "\"text\"", "3", "{\"a\": "] {
        assert_eq!(parse_answer(text).unwrap_err(), ClientError::InvalidJson);
    }
}
