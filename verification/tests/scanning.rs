use syntax_health::model::FileOutcome;
use syntax_health::scan::{error_query, scan_file, scan_text, ErrorQuery, ParsingResources};

fn resources() -> ParsingResources {
    ParsingResources::build().expect("the C grammar should load")
}

fn query() -> ErrorQuery {
    error_query().expect("the error query should compile")
}

const VALID_C: &str = "int twice(int x) { return x * 2; }\n";
const INVALID_C: &str = "int f() { return 0; }\n}\n";

#[test]
fn clean_file_is_clean() {
    let mut res = resources();
    let q = query();
    let outcome = scan_text(&mut res, &q, &VALID_C.as_bytes().to_vec());
    assert!(matches!(outcome, FileOutcome::Clean));
}

#[test]
fn errored_file_is_errored() {
    let mut res = resources();
    let q = query();
    let outcome = scan_text(&mut res, &q, &INVALID_C.as_bytes().to_vec());
    match outcome {
        FileOutcome::Errored(ranges) => {
            assert!(ranges.len() >= 1);
        }
        other => panic!("expected Errored, got {:?}", other),
    }
}

#[test]
fn error_range_locates_the_error() {
    let mut res = resources();
    let q = query();
    let text = INVALID_C.as_bytes().to_vec();
    let outcome = scan_text(&mut res, &q, &text);
    match outcome {
        FileOutcome::Errored(ranges) => {
            assert_eq!(ranges.len(), 1);
            let r = ranges[0];
            // The stray closing brace sits alone on the second line.
            assert!(r.start_byte < r.end_byte);
            assert!(r.end_byte <= text.len());
            assert_eq!(r.start_row, 1);
            assert_eq!(r.start_column, 0);
        }
        other => panic!("expected Errored, got {:?}", other),
    }
}

#[test]
fn scanning_twice_is_idempotent() {
    let mut res = resources();
    let q = query();
    let text = INVALID_C.as_bytes().to_vec();
    let first = scan_text(&mut res, &q, &text);
    let second = scan_text(&mut res, &q, &text);
    match (first, second) {
        (FileOutcome::Errored(a), FileOutcome::Errored(b)) => {
            assert_eq!(a.len(), b.len());
            for i in 0..a.len() {
                assert_eq!(a[i], b[i]);
            }
        }
        _ => panic!("both scans should be Errored"),
    }
    let c1 = scan_text(&mut res, &q, &VALID_C.as_bytes().to_vec());
    let c2 = scan_text(&mut res, &q, &VALID_C.as_bytes().to_vec());
    assert!(matches!(c1, FileOutcome::Clean));
    assert!(matches!(c2, FileOutcome::Clean));
}

#[test]
fn identical_contents_identical_classification_across_workers() {
    // Two separate resource sets stand for two worker threads: reuse of one
    // worker's parser must not leak state that changes another's outcome.
    let mut res_a = resources();
    let mut res_b = resources();
    let q = query();
    let text = INVALID_C.as_bytes().to_vec();
    // res_a has parsed other files first; res_b is fresh.
    let _ = scan_text(&mut res_a, &q, &VALID_C.as_bytes().to_vec());
    let a = scan_text(&mut res_a, &q, &text);
    let b = scan_text(&mut res_b, &q, &text);
    match (a, b) {
        (FileOutcome::Errored(ra), FileOutcome::Errored(rb)) => {
            assert_eq!(ra.len(), rb.len());
            for i in 0..ra.len() {
                assert_eq!(ra[i], rb[i]);
            }
        }
        _ => panic!("both scans should be Errored"),
    }
}

#[test]
fn unreadable_file_is_skipped_not_errored() {
    let mut res = resources();
    let q = query();
    let outcome = scan_file(&mut res, &q, None);
    assert!(matches!(outcome, FileOutcome::Unreadable));
}

#[test]
fn readable_file_is_classified() {
    let mut res = resources();
    let q = query();
    let outcome = scan_file(&mut res, &q, Some(VALID_C.as_bytes().to_vec()));
    assert!(matches!(outcome, FileOutcome::Clean));
}
