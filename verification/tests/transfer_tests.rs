use driver_staging::transfer::{is_success_status, ProgressEvent, Transfer, TransferError};

#[test]
fn non_success_status_is_a_failure_carrying_the_code() {
    match Transfer::begin(404, Some(100)) {
        Err(TransferError::ServerStatus(code)) => assert_eq!(code, 404),
        _ => panic!("a non-2xx status must fail with its code"),
    }
    assert!(matches!(
        Transfer::begin(500, None),
        Err(TransferError::ServerStatus(500))
    ));
    assert!(matches!(
        Transfer::begin(199, Some(1)),
        Err(TransferError::ServerStatus(199))
    ));
    assert!(matches!(
        Transfer::begin(300, Some(1)),
        Err(TransferError::ServerStatus(300))
    ));
}

#[test]
fn success_status_starts_with_declared_total_and_zero_written() {
    let t = Transfer::begin(200, Some(100)).unwrap();
    assert_eq!(t.total, 100);
    assert_eq!(t.written, 0);
    let t = Transfer::begin(299, None).unwrap();
    assert_eq!(t.total, 0);
    assert_eq!(t.written, 0);
}

#[test]
fn status_class_boundaries() {
    assert!(!is_success_status(199));
    assert!(is_success_status(200));
    assert!(is_success_status(299));
    assert!(!is_success_status(300));
}

#[test]
fn progress_is_monotonic_and_reaches_exactly_one_thousand() {
    let mut t = Transfer::begin(200, Some(100)).unwrap();
    let chunks = [30u64, 30, 40];
    let mut last: u128 = 0;
    let mut events = Vec::new();
    for c in chunks {
        let p = t.on_chunk(c).expect("a known total must emit one event per chunk");
        events.push(p);
        let pm = p.per_mille();
        assert!(pm >= last);
        last = pm;
    }
    assert_eq!(t.written, 100);
    assert_eq!(events[0], ProgressEvent { written: 30, total: 100 });
    assert_eq!(events[0].per_mille(), 300);
    assert_eq!(events[1].per_mille(), 600);
    assert_eq!(events[2].per_mille(), 1000);
}

#[test]
fn unknown_total_emits_no_progress_events() {
    let mut t = Transfer::begin(200, None).unwrap();
    assert!(t.on_chunk(10).is_none());
    assert!(t.on_chunk(990).is_none());
    assert_eq!(t.written, 1000);
}

#[test]
fn per_mille_rounds_down() {
    let p = ProgressEvent { written: 1, total: 3 };
    assert_eq!(p.per_mille(), 333);
    let p = ProgressEvent { written: 0, total: 7 };
    assert_eq!(p.per_mille(), 0);
}

#[test]
fn per_mille_is_not_capped_on_over_delivery() {
    let p = ProgressEvent { written: 150, total: 100 };
    assert_eq!(p.per_mille(), 1500);
}

#[test]
fn io_error_carries_its_cause() {
    let e = TransferError::Io("connection reset".to_string());
    assert_eq!(e, TransferError::Io("connection reset".to_string()));
    assert_ne!(e, TransferError::ServerStatus(500));
}
