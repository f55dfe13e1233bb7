use actix_web_starter::api::AppError;
use actix_web_starter::api::ErrorKind;
use actix_web_starter::api::db_demo_model_call;
use actix_web_starter::api::db_demo_reply_at;
use actix_web_starter::api::health_reply;
use actix_web_starter::api::health_reply_at;
use actix_web_starter::db::DemoRecord;
use actix_web_starter::db::DemoStore;

#[test]
fn test_health_check_success() {
    let reply = health_reply_at(Ok(()), "2024-01-01T00:00:00+00:00");
    assert_eq!(reply.status, 200);
    let body: serde_json::Value = serde_json::from_str(&reply.body).unwrap();
    assert_eq!(body["status"], "All systems operational");
    assert!(body["timestamp"].is_string());
}

#[test]
fn test_db_demo_success() {
    let records = vec![DemoRecord { id: 1, name: "Demo Entry".to_string() }];
    let reply = db_demo_reply_at(Ok(()), Ok(records), "2024-01-01T00:00:00+00:00");
    assert_eq!(reply.status, 200);
    let body: serde_json::Value = serde_json::from_str(&reply.body).unwrap();
    assert_eq!(body["message"], "Database demo successful");
    assert!(body["records"].is_array());
    assert!(body["timestamp"].is_string());
    let listed = body["records"].as_array().unwrap();
    assert_eq!(listed.len(), 1);
    assert_eq!(listed[0][1], "Demo Entry");
}

#[test]
fn test_db_demo_multiple_inserts() {
    let mut store = DemoStore::new();
    for _ in 0..3 {
        let reply = db_demo_model_call(&mut store, "2024-01-01T00:00:00+00:00");
        assert_eq!(reply.status, 200);
    }
    let reply = db_demo_model_call(&mut store, "2024-01-01T00:00:00+00:00");
    let body: serde_json::Value = serde_json::from_str(&reply.body).unwrap();
    let listed = body["records"].as_array().unwrap();
    assert_eq!(listed.len(), 4);
}

#[test]
fn test_app_error_display() {
    let err = AppError::new(ErrorKind::Internal, "Test error message".to_string());
    assert_eq!(err.message(), "Test error message");
}

#[test]
fn test_app_error_from_report() {
    let report = color_eyre::eyre::Report::msg("Test error");
    let err = AppError::new(ErrorKind::Internal, report.to_string());
    assert_eq!(err.message(), "Test error");
}

#[test]
fn error_response_is_uniform_500() {
    let err = AppError::new(ErrorKind::Infrastructure, "store disconnected".to_string());
    let reply = err.error_response();
    assert_eq!(reply.status, 500);
    assert!(reply.body.contains("\"error\":\"Internal server error\""));
    assert_eq!(
        reply.body,
        "{\"error\":\"Internal server error\",\"message\":\"store disconnected\"}"
    );
}

#[test]
fn health_failure_surfaces_as_500() {
    let err = AppError::new(ErrorKind::Infrastructure, "no such file".to_string());
    let reply = health_reply_at(Err(err), "2024-01-01T00:00:00+00:00");
    assert_eq!(reply.status, 500);
    assert_eq!(
        reply.body,
        "{\"error\":\"Internal server error\",\"message\":\"Health check failed\"}"
    );
}

#[test]
fn demo_insert_failure_surfaces_as_500() {
    let err = AppError::new(ErrorKind::Infrastructure, "disk full".to_string());
    let reply = db_demo_reply_at(Err(err), Ok(Vec::new()), "t");
    assert_eq!(reply.status, 500);
    assert_eq!(
        reply.body,
        "{\"error\":\"Internal server error\",\"message\":\"Failed to insert demo record\"}"
    );
}

#[test]
fn demo_fetch_failure_surfaces_as_500() {
    let err = AppError::new(ErrorKind::Infrastructure, "store disconnected".to_string());
    let reply = db_demo_reply_at(Ok(()), Err(err), "t");
    assert_eq!(reply.status, 500);
    assert_eq!(
        reply.body,
        "{\"error\":\"Internal server error\",\"message\":\"Failed to fetch demo records\"}"
    );
}

#[test]
fn health_success_body_is_exact() {
    let reply = health_reply_at(Ok(()), "TS");
    assert_eq!(
        reply.body,
        "{\"status\":\"All systems operational\",\"timestamp\":\"TS\"}"
    );
}

#[test]
fn demo_success_body_is_exact() {
    let records = vec![
        DemoRecord { id: 2, name: "Demo Entry".to_string() },
        DemoRecord { id: 1, name: "Demo Entry".to_string() },
    ];
    let reply = db_demo_reply_at(Ok(()), Ok(records), "TS");
    assert_eq!(
        reply.body,
        "{\"message\":\"Database demo successful\",\"records\":[[2,\"Demo Entry\"],[1,\"Demo Entry\"]],\"timestamp\":\"TS\"}"
    );
}

#[test]
fn error_body_matches_reference_serializer() {
    let messages = [
        "plain",
        "with \"quotes\"",
        "back\\slash",
        "line\nbreak and tab\t",
        "control \u{1} and \u{1f}",
        "carriage\r form\u{c} bell\u{8}",
        "unicode caf\u{e9} \u{1f600}",
        "del \u{7f} stays",
        "",
    ];
    for msg in messages {
        let err = AppError::new(ErrorKind::Internal, msg.to_string());
        let body = err.error_response().body;
        let mut map = serde_json::Map::new();
        map.insert(
            "error".to_string(),
            serde_json::Value::String("Internal server error".to_string()),
        );
        map.insert("message".to_string(), serde_json::Value::String(msg.to_string()));
        let expected = serde_json::to_string(&serde_json::Value::Object(map)).unwrap();
        assert_eq!(body, expected);
    }
}

#[test]
fn health_timestamp_is_well_formed() {
    let reply = health_reply(Ok(()));
    assert_eq!(reply.status, 200);
    let body: serde_json::Value = serde_json::from_str(&reply.body).unwrap();
    let ts = body["timestamp"].as_str().unwrap();
    assert!(chrono::DateTime::parse_from_rfc3339(ts).is_ok());
}

#[test]
fn context_replaces_shown_message() {
    let err = AppError::new(ErrorKind::Infrastructure, "io error".to_string());
    let wrapped = err.context("Database connection failed");
    assert_eq!(wrapped.message(), "Database connection failed");
    assert_eq!(wrapped.kind, ErrorKind::Infrastructure);
}
