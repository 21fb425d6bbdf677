use database_test::config::{Arguments, Configuration, ConfigurationError};
use database_test::dto::{TestSuite};
use database_test::error::ApplicationError;
use database_test::filter::{create_filter, Filter, SimpleFilter, EmptyFilter};
use database_test::read::{entry_action, extension_matches, is_extension_matches, path_action, EntryAction, PathAction, SuiteReader};

fn args() -> Arguments {
    Arguments {
        hostname: Some("localhost".to_string()),
        port: Some("5432".to_string()),
        database: Some("db".to_string()),
        username: Some("user".to_string()),
        password: Some("SECRET-REDACTED".to_string()),
        n_workers: Some("4".to_string()),
        recursive: true,
        extensions: Some(vec!["yaml".to_string()]),
        filter: Some("users,orders".to_string()),
        text_mode: false,
        suites: Some(vec!["suites".to_string()]),
    }
}

fn named(name: &str) -> TestSuite {
    TestSuite::new(name.to_string(), None, None, vec![])
}

#[test]
fn configuration_from_arguments() {
    let c = Configuration::from_arguments(args()).unwrap();
    assert_eq!(c.hostname(), "localhost");
    assert_eq!(c.port(), 5432);
    assert_eq!(c.database(), "db");
    assert_eq!(c.username(), "user");
    assert_eq!(c.password(), "SECRET-REDACTED");
    assert_eq!(c.n_workers(), 4);
    assert!(c.recursive());
    assert!(!c.text_mode());
    assert_eq!(c.extensions(), Some(&vec!["yaml".to_string()]));
    assert_eq!(c.filter().map(|f| f.as_str()), Some("users,orders"));
    assert_eq!(c.suites(), &vec!["suites".to_string()]);
}

#[test]
fn configuration_errors_in_order() {
    let check = |change: &dyn Fn(&mut Arguments), expected: ConfigurationError| {
        let mut a = args();
        change(&mut a);
        assert_eq!(Configuration::from_arguments(a).err(), Some(expected));
    };
    check(&|a| { a.hostname = None; a.port = None; }, ConfigurationError::EmptyHostname);
    check(&|a| a.port = None, ConfigurationError::EmptyPort);
    check(&|a| { a.port = Some("70000".to_string()); a.database = None; }, ConfigurationError::WrongPort);
    check(&|a| a.database = None, ConfigurationError::EmptyDatabase);
    check(&|a| a.username = None, ConfigurationError::EmptyUsername);
    check(&|a| a.password = None, ConfigurationError::EmptyPassword);
    check(&|a| a.n_workers = None, ConfigurationError::EmptyNWorkers);
    check(&|a| a.n_workers = Some("x".to_string()), ConfigurationError::WrongNWorkers);
    check(&|a| a.suites = None, ConfigurationError::EmptySuites);
    assert_eq!(ConfigurationError::wrong_port(), ConfigurationError::WrongPort);
    assert_eq!(ConfigurationError::wrong_n_workers(), ConfigurationError::WrongNWorkers);
    assert_eq!(ConfigurationError::EmptyHostname.message(), "Empty host name");
    assert_eq!(ConfigurationError::EmptySuites.message(), "Empty suites");
}

#[test]
fn application_errors() {
    assert_eq!(ApplicationError::suite_io_error("not found").message(), "IO error - not found");
    assert_eq!(ApplicationError::suite_yaml_error("bad").message(), "YAML error - bad");
    assert_eq!(ApplicationError::suite_is_directory("dir").message(), "Is directory - dir");
    assert_eq!(ApplicationError::directory_io_error("denied").message(), "IO error - denied");
    assert_eq!(ApplicationError::no_suites_found().message(), "No suites found");
    assert_eq!(ApplicationError::send_message_error().message(), "Send error, channel already closed");
    assert_eq!(ApplicationError::worker_error("refused").message(), "Worker error - refused");
    assert_eq!(ApplicationError::suite_is_directory("d").description(), "Suite is directory");
    assert_eq!(ApplicationError::send_message_error().description(), "Send message error");
}

#[test]
fn filters() {
    let f = SimpleFilter::create("users,,orders,");
    assert_eq!(f.filter, vec!["users".to_string(), "orders".to_string()]);
    assert!(f.start_suite(&named("all_users")));
    assert!(f.start_suite(&named("orders_2020")));
    assert!(!f.start_suite(&named("products")));
    let nothing = SimpleFilter::create("");
    assert!(!nothing.start_suite(&named("anything")));
    assert!(EmptyFilter::default().start_suite(&named("anything")));
    let config = Configuration::from_arguments(args()).unwrap();
    match create_filter(&config) {
        Filter::Simple(s) => assert_eq!(s.filter.len(), 2),
        Filter::Empty(_) => panic!("expected a simple filter"),
    }
    let mut a = args();
    a.filter = None;
    let config = Configuration::from_arguments(a).unwrap();
    assert!(matches!(create_filter(&config), Filter::Empty(_)));
}

#[test]
fn extensions() {
    let yaml = vec!["yaml".to_string(), "yml".to_string()];
    assert!(is_extension_matches("suites/users.yaml", Some(&yaml)));
    assert!(is_extension_matches("suites/users.yml", Some(&yaml)));
    assert!(!is_extension_matches("suites/users.txt", Some(&yaml)));
    assert!(!is_extension_matches("suites/users", Some(&yaml)));
    assert!(!is_extension_matches("suites/.yaml", Some(&yaml)));
    assert!(is_extension_matches("suites/users", None));
    assert!(extension_matches(Some("yml"), Some(&yaml)));
    assert!(!extension_matches(None, Some(&yaml)));
    assert!(extension_matches(None, None));
}

#[test]
fn path_decisions() {
    assert_eq!(path_action(true, false, false), PathAction::ReadFile);
    assert_eq!(path_action(false, true, true), PathAction::Search);
    assert_eq!(path_action(false, true, false), PathAction::Refuse);
    assert_eq!(path_action(false, false, true), PathAction::Refuse);
    assert_eq!(entry_action(true, false, true), EntryAction::ReadFile);
    assert_eq!(entry_action(true, false, false), EntryAction::Ignore);
    assert_eq!(entry_action(false, true, false), EntryAction::Search);
}

#[test]
fn reading_keeps_filtered_suites() {
    let config = Configuration::from_arguments(args()).unwrap();
    let mut reader = SuiteReader::new(&config);
    reader.add_suite(named("users"));
    reader.add_suite(named("products"));
    reader.add_suite(named("orders"));
    let suites = reader.finish().unwrap();
    assert_eq!(suites.iter().map(|s| s.name().clone()).collect::<Vec<_>>(), vec!["users".to_string(), "orders".to_string()]);
    let empty = SuiteReader::new(&config);
    assert_eq!(empty.finish().err(), Some(ApplicationError::NoSuitesFound));
}
