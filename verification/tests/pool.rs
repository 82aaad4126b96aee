use friendship::error::{is_valid_status, Fault, INTERNAL_SERVER_ERROR, NOT_FOUND};
use friendship::{Error, KafkaManager, RedisManager};

#[test]
fn a_kafka_manager_keeps_its_hosts() {
    let manager = KafkaManager::new(vec!["localhost:12092".to_string(), "localhost:12093".to_string()]);
    assert_eq!(manager.hosts(), &vec!["localhost:12092".to_string(), "localhost:12093".to_string()]);
    assert!(!manager.has_broken());
    assert!(KafkaManager::new(Vec::new()).hosts().is_empty());
}

#[test]
fn a_redis_manager_opens_a_redis_url() {
    let manager = RedisManager::new("redis://localhost").unwrap();
    assert!(!manager.has_broken());
    assert_eq!(manager.client().get_connection_info().addr.to_string(), "localhost:6379");
}

#[test]
fn a_redis_manager_refuses_what_is_no_redis_url() {
    for uri in ["", "localhost", "http://localhost", "redis://"] {
        match RedisManager::new(uri) {
            Ok(_) => panic!("{:?} was accepted", uri),
            Err(error) => {
                assert_eq!(error.status_code(), 500);
                assert!(!error.message().is_empty());
            }
        }
    }
}

#[test]
fn from_opened_keeps_the_message_of_a_refusal() {
    match RedisManager::from_opened(Err("Redis URL did not parse".to_string())) {
        Ok(_) => panic!("a refusal became a manager"),
        Err(error) => {
            assert_eq!(error.message(), "Redis URL did not parse");
            assert_eq!(error.status_code(), INTERNAL_SERVER_ERROR);
        }
    }
}

#[test]
fn errors_carry_message_and_status() {
    let error = Error::new("teapot".to_string(), 418);
    assert_eq!(error.message(), "teapot");
    assert_eq!(error.status_code(), 418);
    assert_eq!(Error::new_404("no such person".to_string()).status_code(), 404);
    assert_eq!(Error::new_404("no such person".to_string()).message(), "no such person");
    assert_eq!(Error::new_500("store down".to_string()).status_code(), 500);
    assert_eq!(NOT_FOUND, 404);
    assert_eq!(INTERNAL_SERVER_ERROR, 500);
    assert_eq!(error.clone(), error);
}

#[test]
fn a_status_has_three_digits() {
    assert!(is_valid_status(100));
    assert!(is_valid_status(999));
    assert!(!is_valid_status(99));
    assert!(!is_valid_status(1000));
    assert!(!is_valid_status(0));
}

#[test]
fn a_fault_speaks_with_the_message_of_its_cause() {
    assert_eq!(Fault::Store(Error::new_500("a".to_string())).message(), "a");
    assert_eq!(Fault::Cache(Error::new_500("b".to_string())).message(), "b");
    assert_eq!(Fault::CacheRefreshFailed(Error::new_500("c".to_string())).message(), "c");
}
