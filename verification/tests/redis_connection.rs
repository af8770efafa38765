use vaultsync::error::Error;
use vaultsync::redis_conn::{
    client, init, is_enabled, manager, manager_connected, open, ManagerStep, RedisConn,
};

fn failure() -> redis::RedisError {
    redis::RedisError::from((redis::ErrorKind::IoError, "down"))
}

#[test]
fn without_an_address_there_is_no_redis() {
    let mut conn: RedisConn<u32> = RedisConn::new();
    assert!(init(&mut conn, None).is_ok());
    assert!(!is_enabled(&conn));
    assert!(client(&conn).is_none());
    assert!(matches!(manager(&conn), ManagerStep::Unset));
}

#[test]
fn malformed_address_is_an_error() {
    let mut conn: RedisConn<u32> = RedisConn::new();
    assert!(matches!(init(&mut conn, Some("not an address")), Err(Error::Redis(_))));
    assert!(!is_enabled(&conn));
    assert!(open("http://localhost").is_err());
    assert_eq!(open("x").err().unwrap().user_message(), "Redis error");
}

#[test]
fn address_is_read_without_connecting() {
    let mut conn: RedisConn<u32> = RedisConn::new();
    assert!(init(&mut conn, Some("redis://localhost:1/")).is_ok());
    assert!(is_enabled(&conn));
    let shared = client(&conn).unwrap();
    assert_eq!(
        shared.get_connection_info().addr,
        redis::ConnectionAddr::Tcp("localhost".to_owned(), 1)
    );
}

#[test]
fn tls_address_is_accepted() {
    assert!(open("rediss://localhost/").is_ok());
}

#[test]
fn first_client_is_kept() {
    let mut conn: RedisConn<u32> = RedisConn::new();
    assert!(init(&mut conn, Some("redis://localhost/")).is_ok());
    assert!(init(&mut conn, Some("redis://localhost:2/")).is_ok());
    assert_eq!(
        client(&conn).unwrap().get_connection_info().addr,
        redis::ConnectionAddr::Tcp("localhost".to_owned(), 6379)
    );
    assert!(init(&mut conn, None).is_ok());
    assert!(matches!(init(&mut conn, Some("not an address")), Err(Error::Redis(_))));
    assert!(is_enabled(&conn));
}

#[test]
fn connection_is_kept_and_failure_is_tried_again() {
    let mut conn: RedisConn<u32> = RedisConn::new();
    init(&mut conn, Some("redis://localhost/")).unwrap();
    assert!(matches!(manager(&conn), ManagerStep::Connect(_)));
    assert_eq!(manager_connected(&mut conn, Err(failure())), None);
    assert!(matches!(manager(&conn), ManagerStep::Connect(_)));
    assert_eq!(manager_connected(&mut conn, Ok(7)), Some(7));
    assert!(matches!(manager(&conn), ManagerStep::Ready(7)));
    assert_eq!(manager_connected(&mut conn, Err(failure())), None);
    assert!(matches!(manager(&conn), ManagerStep::Ready(7)));
}

#[test]
fn errors_have_a_message_for_users() {
    assert_eq!(Error::from(failure()).user_message(), "Redis error");
    assert_eq!(Error::status("no", 401).user_message(), "no");
    assert_eq!(Error::Message("text".to_owned()).user_message(), "text");
}
