use json_server_rs::routing::{route_request, Route};
use json_server_rs::server::{
    fetch_resource, handle_request, list_resources, normalize_data_dir, respond_after_read,
    ApiResponse, FetchStep, ServerConfig,
};
use serde_json::Value;

fn test_config() -> ServerConfig {
    ServerConfig::new(
        "/tmp/data",
        vec![
            "articles".to_string(),
            "starwars".to_string(),
            "nested".to_string(),
        ],
    )
}

fn articles_text() -> String {
    r#"{
        "data": [{"type": "articles", "id": "1"}],
        "links": {"self": "http://example.com/articles"},
        "included": []
    }"#
    .to_string()
}

fn starwars_text() -> String {
    r#"{"name": "Luke Skywalker", "height": "172", "mass": "77"}"#.to_string()
}

fn nested_text() -> String {
    r#"{
        "data": {
            "nested": {
                "value": 42
            },
            "array": [1, 2, 3]
        }
    }"#
    .to_string()
}

fn serve(cfg: &ServerConfig, path: &str, contents: Option<String>) -> ApiResponse {
    match handle_request(cfg, "GET", path) {
        FetchStep::Respond(resp) => resp,
        FetchStep::ReadFile(_) => respond_after_read(contents),
    }
}

#[test]
fn test_health_check() {
    assert!(matches!(route_request("GET", "/_health_check"), Route::HealthCheck));

    let resp = match handle_request(&test_config(), "GET", "/_health_check") {
        FetchStep::Respond(resp) => resp,
        FetchStep::ReadFile(_) => panic!("health check must not read a file"),
    };
    assert_eq!(resp.status_code(), 200);
    assert_eq!(resp.plain_body(), Some("ok".to_string()));
}

#[test]
fn test_list_apis() {
    let cfg = test_config();

    let resp = list_resources(&cfg);
    assert_eq!(resp.status_code(), 200);
    let names = match resp {
        ApiResponse::NameList(names) => names,
        _ => panic!("expected the name list"),
    };

    let json = Value::Array(names.iter().map(|n| Value::String(n.clone())).collect());
    assert!(json.is_array());
    let array = json.as_array().unwrap();
    assert_eq!(array.len(), 3);
    assert!(array.contains(&Value::String("articles".to_string())));
    assert!(array.contains(&Value::String("starwars".to_string())));
    assert!(array.contains(&Value::String("nested".to_string())));
}

#[test]
fn test_list_apis_empty() {
    let cfg = ServerConfig::new("/tmp/data", vec![]);

    let resp = list_resources(&cfg);
    assert_eq!(resp.status_code(), 404);
    assert_eq!(resp.error_message(), Some("not found".to_string()));
}

#[test]
fn test_serve_articles_json() {
    let cfg = test_config();

    let resp = serve(&cfg, "/api/articles", Some(articles_text()));
    assert_eq!(resp.status_code(), 200);

    let json = match resp {
        ApiResponse::Document(v) => v,
        _ => panic!("expected the parsed document"),
    };
    assert!(json.is_object());
    assert!(json.get("data").is_some());
    assert!(json.get("links").is_some());
    assert!(json.get("included").is_some());
}

#[test]
fn test_serve_starwars_json() {
    let cfg = test_config();

    let resp = serve(&cfg, "/api/starwars", Some(starwars_text()));
    assert_eq!(resp.status_code(), 200);

    let json = match resp {
        ApiResponse::Document(v) => v,
        _ => panic!("expected the parsed document"),
    };
    assert!(json.is_object());
    assert_eq!(
        json.get("name"),
        Some(&Value::String("Luke Skywalker".to_string()))
    );
    assert_eq!(json.get("height"), Some(&Value::String("172".to_string())));
    assert_eq!(json.get("mass"), Some(&Value::String("77".to_string())));
}

#[test]
fn test_serve_nested_json() {
    let cfg = test_config();

    let resp = serve(&cfg, "/api/nested", Some(nested_text()));
    assert_eq!(resp.status_code(), 200);

    let json = match resp {
        ApiResponse::Document(v) => v,
        _ => panic!("expected the parsed document"),
    };
    assert!(json.is_object());

    let data = json.get("data").unwrap();
    let nested = data.get("nested").unwrap();
    assert_eq!(nested.get("value"), Some(&Value::Number(42.into())));

    let array = data.get("array").unwrap();
    assert_eq!(
        array,
        &Value::Array(vec![
            Value::Number(1.into()),
            Value::Number(2.into()),
            Value::Number(3.into())
        ])
    );
}

#[test]
fn test_serve_nonexistent_file() {
    let cfg = test_config();

    let resp = match handle_request(&cfg, "GET", "/api/nonexistent") {
        FetchStep::Respond(resp) => resp,
        FetchStep::ReadFile(_) => panic!("an unindexed name must not reach the file system"),
    };
    assert_eq!(resp.status_code(), 404);
    assert_eq!(resp.error_message(), Some("file not found".to_string()));
}

#[test]
fn test_invalid_json_file() {
    let cfg = ServerConfig::new("/tmp/data", vec!["invalid".to_string()]);

    let resp = serve(&cfg, "/api/invalid", Some("{ invalid json }".to_string()));
    assert_eq!(resp.status_code(), 500);

    let message = resp.error_message().expect("the body must hold an error");
    assert!(!message.is_empty());
}

#[test]
fn test_large_json_file() {
    let numbers: Vec<i32> = (1..=1000).collect();
    let mut object = serde_json::Map::new();
    object.insert(
        "numbers".to_string(),
        Value::Array(numbers.iter().map(|n| Value::from(*n)).collect()),
    );
    let large_json = serde_json::to_string(&Value::Object(object))
        .expect("Failed to serialize large json");

    let cfg = ServerConfig::new("/tmp/data", vec!["large".to_string()]);
    let resp = serve(&cfg, "/api/large", Some(large_json));
    assert_eq!(resp.status_code(), 200);

    let json = match resp {
        ApiResponse::Document(v) => v,
        _ => panic!("expected the parsed document"),
    };
    let numbers_array = json.get("numbers").unwrap().as_array().unwrap();
    assert_eq!(numbers_array.len(), 1000);
    assert_eq!(numbers_array[0], Value::Number(1.into()));
    assert_eq!(numbers_array[999], Value::Number(1000.into()));
}

#[test]
fn test_unicode_in_json() {
    let mut nested = serde_json::Map::new();
    nested.insert("unicode".to_string(), Value::String("Привет".to_string()));
    let mut object = serde_json::Map::new();
    object.insert("name".to_string(), Value::String("测试".to_string()));
    object.insert("emoji".to_string(), Value::String("🦀".to_string()));
    object.insert("mixed".to_string(), Value::String("Hello 世界! 👋".to_string()));
    object.insert("nested".to_string(), Value::Object(nested));
    let text = serde_json::to_string(&Value::Object(object)).unwrap();

    let cfg = ServerConfig::new("/tmp/data", vec!["unicode".to_string()]);
    let resp = serve(&cfg, "/api/unicode", Some(text));
    assert_eq!(resp.status_code(), 200);

    let json = match resp {
        ApiResponse::Document(v) => v,
        _ => panic!("expected the parsed document"),
    };
    assert_eq!(json["name"], Value::String("测试".to_string()));
    assert_eq!(json["emoji"], Value::String("🦀".to_string()));
    assert_eq!(json["mixed"], Value::String("Hello 世界! 👋".to_string()));
    assert_eq!(json["nested"]["unicode"], Value::String("Привет".to_string()));
}

#[test]
fn test_root_greeting() {
    assert!(matches!(route_request("GET", "/"), Route::Root));

    let resp = ApiResponse::Greeting;
    assert_eq!(resp.status_code(), 200);
    assert_eq!(resp.plain_body(), Some("<h1>Hello, World!</h1>".to_string()));
}

#[test]
fn test_unknown_route_is_plain_text() {
    let cfg = test_config();

    let resp = match handle_request(&cfg, "GET", "/nothing/here") {
        FetchStep::Respond(resp) => resp,
        FetchStep::ReadFile(_) => panic!("an unknown route must not read a file"),
    };
    assert_eq!(resp.status_code(), 404);
    // The route miss stays plain text, unlike the structured resource miss.
    assert_eq!(resp.plain_body(), Some("nothing to see here".to_string()));
    assert_eq!(resp.error_message(), None);
}

#[test]
fn test_api_trailing_slash_alias() {
    assert!(matches!(route_request("GET", "/api"), Route::ListApis));
    assert!(matches!(route_request("GET", "/api/"), Route::ListApis));
}

#[test]
fn test_subsegment_path_is_no_route() {
    assert!(matches!(route_request("GET", "/api/x/y"), Route::NoRoute));
}

#[test]
fn test_non_get_is_no_route() {
    assert!(matches!(route_request("POST", "/api"), Route::NoRoute));
    assert!(matches!(route_request("DELETE", "/"), Route::NoRoute));
}

#[test]
fn test_resource_name_taken_verbatim() {
    let route = route_request("GET", "/api/Some.File-Name_7");
    match route {
        Route::FetchResource(name) => assert_eq!(name, "Some.File-Name_7"),
        _ => panic!("expected a resource route"),
    }
}

#[test]
fn test_fetch_names_exact_file() {
    let cfg = test_config();

    match fetch_resource(&cfg, "starwars") {
        FetchStep::ReadFile(path) => assert_eq!(path, "/tmp/data/starwars.json"),
        FetchStep::Respond(_) => panic!("an indexed name must name its file"),
    }
}

#[test]
fn test_trailing_slash_normalized() {
    assert_eq!(normalize_data_dir("./data/"), "./data".to_string());
    assert_eq!(normalize_data_dir("./data"), "./data".to_string());

    let cfg = ServerConfig::new("/tmp/data/", vec!["users".to_string()]);
    match fetch_resource(&cfg, "users") {
        FetchStep::ReadFile(path) => assert_eq!(path, "/tmp/data/users.json"),
        FetchStep::Respond(_) => panic!("an indexed name must name its file"),
    }
}

#[test]
fn test_read_fault_response() {
    let resp = respond_after_read(None);
    assert_eq!(resp.status_code(), 500);
    assert_eq!(resp.error_message(), Some("Failed to read file".to_string()));
}
