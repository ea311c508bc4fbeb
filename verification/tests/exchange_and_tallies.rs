use neuro_runtime::adt::{CsrfCommand, CsrfEvent, CsrfExchange, CsrfStage};
use neuro_runtime::errors::AdtClientError;
use neuro_runtime::mcp::activation::activation_summary;
use neuro_runtime::mcp::grep::GrepTally;

#[test]
fn csrf_exchange_caches_the_fetched_token_and_resends_with_it() {
    let (exchange, command) = CsrfExchange::start(Some("old".to_string()));
    assert!(matches!(command, CsrfCommand::Send { csrf_token: Some(ref t) } if t == "old"));
    let (exchange, command) = exchange.step(CsrfEvent::Answered {
        status: 403,
        csrf_header: Some("Required".to_string()),
    });
    assert_eq!(exchange.stage, CsrfStage::Fetching);
    assert!(matches!(command, CsrfCommand::FetchToken));
    let (exchange, command) =
        exchange.step(CsrfEvent::Fetched { csrf_header: Some("fresh".to_string()) });
    assert_eq!(exchange.token.as_deref(), Some("fresh"));
    assert!(matches!(command, CsrfCommand::Resend { ref token } if token == "fresh"));
    let (exchange, command) = exchange.step(CsrfEvent::Answered {
        status: 403,
        csrf_header: Some("required".to_string()),
    });
    assert_eq!(exchange.stage, CsrfStage::Done);
    assert!(matches!(command, CsrfCommand::Deliver));
}

#[test]
fn csrf_exchange_delivers_an_accepted_first_answer() {
    let (exchange, command) = CsrfExchange::start(None);
    assert!(matches!(command, CsrfCommand::Send { csrf_token: None }));
    let (exchange, command) = exchange.step(CsrfEvent::Answered { status: 200, csrf_header: None });
    assert_eq!(exchange.stage, CsrfStage::Done);
    assert_eq!(exchange.token, None);
    assert!(matches!(command, CsrfCommand::Deliver));
}

#[test]
fn csrf_exchange_ends_when_the_fetch_gives_no_token() {
    let (exchange, _) = CsrfExchange::start(Some("old".to_string()));
    let (exchange, _) = exchange.step(CsrfEvent::Answered {
        status: 403,
        csrf_header: Some("required".to_string()),
    });
    let (exchange, command) = exchange.step(CsrfEvent::Fetched { csrf_header: Some(String::new()) });
    assert_eq!(exchange.stage, CsrfStage::Done);
    assert_eq!(exchange.token.as_deref(), Some("old"));
    assert!(matches!(command, CsrfCommand::Fail(AdtClientError::MissingCsrfToken)));
}

#[test]
fn csrf_exchange_passes_a_failure_on() {
    let (exchange, _) = CsrfExchange::start(None);
    let (exchange, command) =
        exchange.step(CsrfEvent::Failed(AdtClientError::Http { message: "down".to_string() }));
    assert_eq!(exchange.stage, CsrfStage::Done);
    assert!(matches!(command, CsrfCommand::Fail(AdtClientError::Http { ref message }) if message == "down"));
}

#[test]
fn activation_summary_counts_both_lists() {
    assert_eq!(activation_summary(3, 1), "Activated 3 objects, 1 failed");
    assert_eq!(activation_summary(0, 0), "Activated 0 objects, 0 failed");
}

#[test]
fn grep_tally_stops_at_the_limit() {
    let mut tally = GrepTally::new(2);
    assert_eq!(tally.per_package_limit(), 2);
    assert!(!tally.is_full());
    tally.keep(3);
    assert!(!tally.is_full());
    tally.keep(4);
    assert!(tally.is_full());
    assert_eq!(tally.kept, 2);
    assert_eq!(tally.total_matches, 7);

    let mut open = GrepTally::new(0);
    assert_eq!(open.per_package_limit(), 1000);
    for _ in 0..5 {
        open.keep(1);
    }
    assert!(!open.is_full());
    assert_eq!(open.total_matches, 5);
}
