use caldav_server::config::{parse_port, Config};
use caldav_server::caldav::xml::properties::ensure_sync_token_uri;
use caldav_server::db::calendars::{calendar_not_found, can_delete_calendar, default_calendar_id, merged_settings, new_sync_token};
use caldav_server::db::crypto::{argon2_hash, argon2_verify};
use caldav_server::db::events::{change_kind, change_tokens, new_etag, object_fields, object_not_found, objects_by_uids_query};
use caldav_server::db::migrate::migration_statements;
use caldav_server::db::models::{Calendar, McpToken, Permission};
use caldav_server::db::shares::{permission_for, share_not_found, shared_calendar_list};
use caldav_server::db::tokens::{find_token_user, generate_raw_token, hash_token, token_not_found, verify_token};
use caldav_server::db::users::{hash_password, user_exists, verify_password};
use caldav_server::error::AppError;
use caldav_server::ical::parser::extract_fields;

fn stamp() -> chrono::NaiveDateTime {
    chrono::NaiveDate::from_ymd_opt(2026, 3, 1).unwrap().and_hms_opt(9, 0, 0).unwrap()
}

#[test]
fn test_not_found_maps_to_404() {
    let err = AppError::NotFound("thing".to_string());
    assert_eq!(err.status_code(), 404);
}

#[test]
fn test_unauthorized_maps_to_401() {
    let err = AppError::Unauthorized;
    assert_eq!(err.status_code(), 401);
}

#[test]
fn test_forbidden_maps_to_403() {
    let err = AppError::Forbidden("no access".to_string());
    assert_eq!(err.status_code(), 403);
}

#[test]
fn test_bad_request_maps_to_400() {
    let err = AppError::BadRequest("bad".to_string());
    assert_eq!(err.status_code(), 400);
}

#[test]
fn test_conflict_maps_to_409() {
    let err = AppError::Conflict("conflict".to_string());
    assert_eq!(err.status_code(), 409);
}

#[test]
fn test_precondition_failed_maps_to_412() {
    let err = AppError::PreconditionFailed("etag mismatch".to_string());
    assert_eq!(err.status_code(), 412);
}

#[test]
fn test_error_display_messages() {
    assert_eq!(AppError::Unauthorized.message(), "unauthorized");
    assert_eq!(AppError::NotFound("x".to_string()).message(), "not found: x");
    assert_eq!(AppError::Forbidden("y".to_string()).message(), "forbidden: y");
    assert_eq!(AppError::BadRequest("z".to_string()).message(), "bad request: z");
    assert_eq!(AppError::Conflict("w".to_string()).message(), "conflict: w");
    assert_eq!(AppError::PreconditionFailed("v".to_string()).message(), "precondition failed: v");
}

#[test]
fn server_errors_map_to_500() {
    assert_eq!(AppError::Database("row not found".to_string()).status_code(), 500);
    assert_eq!(AppError::Internal("internal failure".to_string()).status_code(), 500);
    assert!(AppError::Internal("x".to_string()).is_server_error());
    assert!(!AppError::NotFound("x".to_string()).is_server_error());
}

#[test]
fn permission_texts_round_trip() {
    for p in [Permission::Read, Permission::ReadWrite] {
        assert_eq!(Permission::from_str_value(p.as_str()), Some(p));
    }
    assert_eq!(Permission::from_str_value("admin"), None);
    assert!(Permission::ReadWrite.can_write());
    assert!(!Permission::Read.can_write());
}

#[test]
fn share_permissions() {
    assert_eq!(permission_for(true, None), Some(Permission::ReadWrite));
    assert_eq!(permission_for(true, Some("read")), Some(Permission::ReadWrite));
    assert_eq!(permission_for(false, Some("read")), Some(Permission::Read));
    assert_eq!(permission_for(false, Some("bogus")), None);
    assert_eq!(permission_for(false, None), None);
}

#[test]
fn config_defaults_and_ports() {
    let c = Config::from_values(None, None, None, None);
    assert_eq!((c.caldav_port, c.mcp_port), (5232, 5233));
    assert_eq!(c.database_url, "sqlite:data/caldav.db?mode=rwc");
    assert_eq!(c.tool_mode, "full");
    let c = Config::from_values(Some("8080"), Some("+9"), Some("sqlite::memory:"), Some("simple"));
    assert_eq!((c.caldav_port, c.mcp_port), (8080, 9));
    assert_eq!(parse_port("65535"), Some(65535));
    assert_eq!(parse_port("65536"), None);
    assert_eq!(parse_port(""), None);
    assert_eq!(parse_port("+"), None);
    assert_eq!(parse_port("12a"), None);
    assert_eq!(parse_port("0007"), Some(7));
}

#[test]
fn migration_script_statements() {
    let sql = "-- header comment\nCREATE TABLE a (x INT);\n\n-- only a comment;\n  ;\n-- note\nCREATE INDEX i ON a(x);  \n";
    let stmts = migration_statements(sql);
    assert_eq!(stmts, vec![
        "-- header comment\nCREATE TABLE a (x INT)".to_string(),
        "-- note\nCREATE INDEX i ON a(x)".to_string(),
    ]);
    assert!(migration_statements("").is_empty());
}

#[test]
fn identifiers_have_their_shapes() {
    let e = new_etag();
    assert!(e.starts_with('"') && e.ends_with('"') && e.len() == 38);
    assert_ne!(new_etag(), new_etag());
    assert!(new_sync_token().starts_with("sync-"));
    let (calendar_token, logged) = change_tokens();
    assert!(calendar_token.starts_with("sync-"));
    assert_eq!(calendar_token.len(), "sync-".len() + 36);
    assert_eq!(logged, format!("data:,{calendar_token}"));
    assert_eq!(ensure_sync_token_uri(&calendar_token), logged);
    let t = generate_raw_token();
    assert!(t.starts_with("mcp_"));
    assert_eq!(t.len(), 4 + 43);
}

#[test]
fn uids_query_placeholders() {
    assert_eq!(
        objects_by_uids_query(3),
        "SELECT * FROM calendar_objects WHERE calendar_id = ? AND uid IN (?, ?, ?) ORDER BY dtstart"
    );
    assert!(objects_by_uids_query(1).contains("IN (?)"));
}

#[test]
fn store_errors() {
    assert_eq!(object_not_found("u1").message(), "not found: Object with UID 'u1' not found in calendar");
    assert_eq!(calendar_not_found("c1").message(), "not found: Calendar c1 not found");
    assert_eq!(share_not_found().message(), "not found: Share not found");
    assert_eq!(token_not_found().message(), "not found: Token not found");
    assert_eq!(user_exists("alice").message(), "conflict: User 'alice' already exists");
    assert_eq!(change_kind(true), "created");
    assert_eq!(change_kind(false), "modified");
}

#[test]
fn hashing_round_trips() {
    let h = hash_password("secret").unwrap();
    assert!(h.starts_with("$argon2id$v=19$m=19456,t=2,p=1$"));
    assert_eq!(verify_password("secret", &h).unwrap(), true);
    assert_eq!(verify_password("wrong", &h).unwrap(), false);
    assert!(matches!(verify_password("secret", "not-a-hash"), Err(AppError::Internal(_))));
    let raw = generate_raw_token();
    let th = hash_token(&raw).unwrap();
    assert!(th.starts_with("$argon2id$v=19$m=19456,t=2,p=1$"));
    assert!(verify_token(&raw, &th).unwrap());
    let direct = argon2_hash("x").unwrap();
    assert_eq!(argon2_verify("x", &direct), Ok(true));
}

#[test]
fn token_search_finds_owner() {
    let raw = generate_raw_token();
    let other = hash_token("mcp_other").unwrap();
    let mine = hash_token(&raw).unwrap();
    let tok = |user: &str, hash: &str| McpToken {
        id: "t".to_string(),
        user_id: user.to_string(),
        token_hash: hash.to_string(),
        name: "n".to_string(),
        created_at: stamp(),
        expires_at: None,
    };
    let tokens = vec![tok("bob", &other), tok("alice", &mine)];
    assert_eq!(find_token_user(&raw, &tokens).unwrap().as_deref(), Some("alice"));
    assert_eq!(find_token_user("mcp_invalid_token", &tokens).unwrap(), None);
    let broken = vec![tok("eve", "garbage")];
    assert!(matches!(find_token_user(&raw, &broken), Err(AppError::Internal(_))));
}

#[test]
fn update_keeps_unset_settings() {
    let cal = Calendar {
        id: "c".to_string(),
        owner_id: "o".to_string(),
        name: "Work".to_string(),
        description: "d".to_string(),
        color: "#000".to_string(),
        timezone: "UTC".to_string(),
        ctag: "x".to_string(),
        sync_token: "y".to_string(),
        created_at: stamp(),
        updated_at: stamp(),
    };
    assert!(can_delete_calendar(&cal, "o"));
    assert!(!can_delete_calendar(&cal, "someone-else"));
    assert_eq!(default_calendar_id(&vec![]), None);
    let second = Calendar { id: "c2".to_string(), ..cal.clone() };
    assert_eq!(default_calendar_id(&vec![cal.clone(), second]), Some("c".to_string()));
    let s = merged_settings(&cal, Some("New"), None, Some("#FFF"), None);
    assert_eq!((s.name.as_str(), s.description.as_str(), s.color.as_str(), s.timezone.as_str()), ("New", "d", "#FFF", "UTC"));
}

#[test]
fn stored_fields_come_from_the_data() {
    let fields = extract_fields("BEGIN:VEVENT\r\nUID:u\r\nSUMMARY:S\r\nEND:VEVENT");
    let f = object_fields(&fields);
    assert_eq!(f.component_type, "VEVENT");
    assert_eq!(f.summary, Some("S"));
    assert_eq!(f.dtstart, None);
}

#[test]
fn shared_calendars_sorted_and_filtered() {
    let cal = |id: &str, name: &str| Calendar {
        id: id.to_string(),
        owner_id: "o".to_string(),
        name: name.to_string(),
        description: "".to_string(),
        color: "#000".to_string(),
        timezone: "UTC".to_string(),
        ctag: "x".to_string(),
        sync_token: "y".to_string(),
        created_at: stamp(),
        updated_at: stamp(),
    };
    let entries = vec![
        (Some(cal("1", "Work")), "read".to_string()),
        (None, "read".to_string()),
        (Some(cal("2", "Apple")), "read-write".to_string()),
        (Some(cal("3", "Zed")), "admin".to_string()),
        (Some(cal("4", "Work")), "read-write".to_string()),
        (Some(cal("5", "Ápple")), "read".to_string()),
    ];
    let out = shared_calendar_list(entries);
    let ids: Vec<&str> = out.iter().map(|(c, _)| c.id.as_str()).collect();
    assert_eq!(ids, vec!["2", "1", "4", "5"]);
    assert_eq!(out[0].1, Permission::ReadWrite);
}

#[test]
fn test_config_fields_exist() {
    let config = Config::from_values(None, None, None, None);
    assert!(config.caldav_port > 0);
    assert!(config.mcp_port > 0);
    assert!(!config.database_url.is_empty());
    assert!(
        config.tool_mode == "full" || config.tool_mode == "simple",
        "tool_mode should default to 'full'"
    );
}

#[test]
fn test_tool_mode_defaults_to_full() {
    let config = Config::from_values(None, None, None, None);
    assert_eq!(config.tool_mode, "full");
}
