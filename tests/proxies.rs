use proxychecker::args::{parse_args, ArgError, ValueFlag};
use proxychecker::check::{begin_check, outcome_of, Attempt, CheckOutcome, CheckStep};
use proxychecker::config::{load_config, ConfigError, ConfigField};
use proxychecker::entry::parse_entry;
use proxychecker::run::{proxy_entries, start_run, RunError};
use proxychecker::tally::{tally_all, Tally};
use proxychecker::text::{contains_text, parse_count, same_text, split_lines};

const GOOD_CONFIG: &str =
    r#"{"main":{"settings":{"debug":{"Version":"1.0","Owner":"x","Link":"http://example.com"}}}}"#;

fn strings(v: &[&str]) -> Vec<String> {
    v.iter().map(|s| s.to_string()).collect()
}

#[test]
fn entry_with_one_colon_is_split() {
    let e = parse_entry("127.0.0.1:8080").unwrap();
    assert_eq!(e.host, "127.0.0.1");
    assert_eq!(e.port, "8080");
    assert_eq!(e.address(), "127.0.0.1:8080");
}

#[test]
fn entry_with_empty_parts_is_still_two_parts() {
    let e = parse_entry(":").unwrap();
    assert_eq!(e.host, "");
    assert_eq!(e.port, "");
}

#[test]
fn entry_without_colon_or_with_two_is_malformed() {
    assert!(parse_entry("badentry").is_none());
    assert!(parse_entry("a:b:c").is_none());
    assert!(parse_entry("").is_none());
}

#[test]
fn malformed_line_finishes_without_connecting() {
    match begin_check("badentry", 5) {
        CheckStep::Finish(o) => assert_eq!(o, CheckOutcome::Malformed),
        CheckStep::Connect { .. } => panic!("a malformed line must not be connected to"),
    }
}

#[test]
fn well_formed_line_is_connected_to() {
    match begin_check("203.0.113.5:8080", 42) {
        CheckStep::Connect { entry, started_ms } => {
            assert_eq!(entry.host, "203.0.113.5");
            assert_eq!(entry.port, "8080");
            assert_eq!(started_ms, 42);
        }
        CheckStep::Finish(_) => panic!("a well-formed line must be connected to"),
    }
}

#[test]
fn failed_connection_is_not_working() {
    assert_eq!(
        outcome_of(10, &Attempt::ConnectFailed),
        CheckOutcome::NotWorking { connection_failed: true }
    );
}

#[test]
fn reply_gives_latency_from_start() {
    assert_eq!(
        outcome_of(100, &Attempt::Received { at_ms: 350 }),
        CheckOutcome::Working { latency_ms: 250 }
    );
    assert_eq!(
        outcome_of(100, &Attempt::Received { at_ms: 100 }),
        CheckOutcome::Working { latency_ms: 0 }
    );
}

#[test]
fn authentication_error_requires_auth() {
    let a = Attempt::RequestFailed { message: "proxy authentication required".to_string() };
    assert_eq!(outcome_of(0, &a), CheckOutcome::RequiresAuth);
}

#[test]
fn other_request_error_is_not_working() {
    let a = Attempt::RequestFailed { message: "error sending request".to_string() };
    assert_eq!(outcome_of(0, &a), CheckOutcome::NotWorking { connection_failed: false });
    let b = Attempt::RequestFailed { message: "Authentication".to_string() };
    assert_eq!(outcome_of(0, &b), CheckOutcome::NotWorking { connection_failed: false });
}

#[test]
fn text_search_and_equality() {
    assert!(contains_text("needs authentication here", "authentication"));
    assert!(!contains_text("authenticatio", "authentication"));
    assert!(contains_text("abc", ""));
    assert!(same_text("-fast", "-fast"));
    assert!(!same_text("-fast", "-fas"));
}

#[test]
fn lines_are_split_and_empty_ones_dropped() {
    let lines = split_lines("a:1\r\n\nb:2\nc\n");
    assert_eq!(lines, strings(&["a:1", "b:2", "c"]));
    assert!(split_lines("").is_empty());
    assert_eq!(split_lines("x:9"), strings(&["x:9"]));
}

#[test]
fn counts_are_read_like_usize_parsing() {
    assert_eq!(parse_count("8"), Some(8));
    assert_eq!(parse_count("+12"), Some(12));
    assert_eq!(parse_count(""), None);
    assert_eq!(parse_count("+"), None);
    assert_eq!(parse_count("-3"), None);
    assert_eq!(parse_count("4x"), None);
    assert_eq!(parse_count("18446744073709551615"), Some(usize::MAX));
    assert_eq!(parse_count("18446744073709551616"), None);
    assert_eq!(parse_count("99999999999999999999x"), None);
}

#[test]
fn tally_counts_every_outcome_once() {
    let outcomes = vec![
        CheckOutcome::Working { latency_ms: 3 },
        CheckOutcome::Malformed,
        CheckOutcome::RequiresAuth,
        CheckOutcome::NotWorking { connection_failed: true },
    ];
    let t = tally_all(&outcomes);
    assert_eq!(t.completed(), 4);
    assert_eq!(t.working(), 1);
    let s = t.summary();
    assert_eq!((s.total, s.working, s.not_working), (4, 1, 3));
}

#[test]
fn empty_tally_is_zero() {
    let t = Tally::new();
    let s = t.summary();
    assert_eq!((s.total, s.working, s.not_working), (0, 0, 0));
}

#[test]
fn config_fields_are_read() {
    let c = load_config(GOOD_CONFIG).unwrap();
    assert_eq!(c.version, "1.0");
    assert_eq!(c.owner, "x");
    assert_eq!(c.link, "http://example.com");
}

#[test]
fn config_errors() {
    assert_eq!(load_config("{not json").err(), Some(ConfigError::Malformed));
    assert_eq!(
        load_config(r#"{"main":{"settings":{"debug":{"Owner":"x","Link":"l"}}}}"#).err(),
        Some(ConfigError::FieldMissing(ConfigField::Version))
    );
    assert_eq!(
        load_config(r#"{"main":{"settings":{"debug":{"Version":"1","Link":"l"}}}}"#).err(),
        Some(ConfigError::FieldMissing(ConfigField::Owner))
    );
    assert_eq!(
        load_config(r#"{"main":{"settings":{"debug":{"Version":"1","Owner":"x"}}}}"#).err(),
        Some(ConfigError::FieldMissing(ConfigField::Link))
    );
    assert_eq!(
        load_config(r#"{"main":{"settings":{"debug":{"Version":1,"Owner":"x","Link":"l"}}}}"#).err(),
        Some(ConfigError::FieldMissing(ConfigField::Version))
    );
    assert_eq!(load_config("[]").err(), Some(ConfigError::FieldMissing(ConfigField::Version)));
}

#[test]
fn arguments_are_read_in_any_order() {
    let o = parse_args(&strings(&["prog", "-proxy", "list.txt", "-fast", "-threads", "7"])).unwrap();
    assert_eq!(o.threads, 7);
    assert!(o.fast);
    assert_eq!(o.proxy_path, Some("list.txt".to_string()));
    let o = parse_args(&strings(&["prog", "-threads", "many", "-proxy", "p"])).unwrap();
    assert_eq!(o.threads, 1);
    assert!(!o.fast);
}

#[test]
fn argument_errors() {
    assert_eq!(parse_args(&strings(&["prog", "-fast"])).err(), Some(ArgError::Usage));
    assert_eq!(
        parse_args(&strings(&["prog", "-fast", "-threads"])).err(),
        Some(ArgError::MissingValue(ValueFlag::Threads))
    );
    assert_eq!(
        parse_args(&strings(&["prog", "-fast", "-proxy"])).err(),
        Some(ArgError::MissingValue(ValueFlag::Proxy))
    );
    assert_eq!(
        parse_args(&strings(&["prog", "-fast", "-x", "-proxy", "p"])).err(),
        Some(ArgError::UnknownArg(2))
    );
}

#[test]
fn missing_config_stops_before_the_proxy_file() {
    let args = strings(&["prog", "-threads", "2", "-proxy", "list.txt"]);
    assert_eq!(start_run(&args, None).err(), Some(RunError::Config(ConfigError::Missing)));
    let bad = strings(&["prog", "-bogus", "x"]);
    assert_eq!(start_run(&bad, None).err(), Some(RunError::Config(ConfigError::Missing)));
}

#[test]
fn run_setup_order_of_errors() {
    let short = strings(&["prog", "-fast"]);
    assert_eq!(start_run(&short, Some(GOOD_CONFIG)).err(), Some(RunError::Args(ArgError::Usage)));
    let bad = strings(&["prog", "-bogus", "x"]);
    assert_eq!(start_run(&bad, Some("nope")).err(), Some(RunError::Config(ConfigError::Malformed)));
    assert_eq!(start_run(&bad, Some(GOOD_CONFIG)).err(), Some(RunError::Args(ArgError::UnknownArg(1))));
    let no_file = strings(&["prog", "-threads", "2"]);
    assert_eq!(start_run(&no_file, Some(GOOD_CONFIG)).err(), Some(RunError::ProxyFileUnspecified));
    let ok = strings(&["prog", "-threads", "2", "-proxy", "list.txt"]);
    let s = start_run(&ok, Some(GOOD_CONFIG)).unwrap();
    assert_eq!(s.proxy_path, "list.txt");
    assert_eq!(s.config.link, "http://example.com");
    assert_eq!(s.options.threads, 2);
}

#[test]
fn missing_proxy_file_stops_the_run() {
    assert_eq!(proxy_entries(None).err(), Some(RunError::ProxyFileMissing));
    assert_eq!(proxy_entries(Some("a:1\nb:2\n")).unwrap(), strings(&["a:1", "b:2"]));
}

#[test]
fn three_line_run_accounts_for_every_entry() {
    let args = strings(&["prog", "-threads", "3", "-proxy", "proxies.txt"]);
    let setup = start_run(&args, Some(GOOD_CONFIG)).unwrap();
    assert_eq!(setup.config.link, "http://example.com");
    let entries = proxy_entries(Some("127.0.0.1:9\"\nbadentry\n203.0.113.5:8080\n")).unwrap();
    assert_eq!(entries.len(), 3);
    let mut tally = Tally::new();
    let mut connects = Vec::new();
    for line in &entries {
        let outcome = match begin_check(line, 0) {
            CheckStep::Finish(o) => o,
            CheckStep::Connect { entry, started_ms } => {
                connects.push(entry.address());
                outcome_of(started_ms, &Attempt::ConnectFailed)
            }
        };
        if line == "badentry" {
            assert_eq!(outcome, CheckOutcome::Malformed);
        }
        tally.record(outcome);
    }
    assert_eq!(connects, strings(&["127.0.0.1:9\"", "203.0.113.5:8080"]));
    let s = tally.summary();
    assert_eq!(s.total, 3);
    assert_eq!(s.working + s.not_working, 3);
}

#[test]
fn counts_do_not_depend_on_finishing_order() {
    let a = vec![
        CheckOutcome::Malformed,
        CheckOutcome::Working { latency_ms: 9 },
        CheckOutcome::NotWorking { connection_failed: false },
    ];
    let b = vec![a[2], a[0], a[1]];
    let (sa, sb) = (tally_all(&a).summary(), tally_all(&b).summary());
    assert_eq!(sa, sb);
    assert_eq!((sa.total, sa.working, sa.not_working), (3, 1, 2));
}
