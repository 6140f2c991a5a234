use libzfs::{status_to_result, BatchAction, BatchRun, Libzfs, ZfsError};

#[test]
fn zero_status_is_success() {
    assert_eq!(status_to_result(0), Ok(()));
}

#[test]
fn nonzero_status_keeps_its_code() {
    assert_eq!(status_to_result(2), Err(ZfsError::Io(2)));
    assert_eq!(status_to_result(-1), Err(ZfsError::Io(-1)));
}

#[test]
fn import_of_empty_discovery_succeeds() {
    let mut z = Libzfs::new();
    let run = z.import_all(0);
    assert_eq!(run.next_action(), BatchAction::Finished);
    assert_eq!(run.finish(), Ok(()));
}

#[test]
fn export_of_empty_slice_succeeds() {
    let mut z = Libzfs::new();
    let run = z.export_all(0);
    assert_eq!(run.next_action(), BatchAction::Finished);
    assert_eq!(run.finish(), Ok(()));
}

#[test]
fn export_continues_after_failed_quiesce() {
    let mut z = Libzfs::new();
    let mut run = z.export_all(2);
    let mut committed = vec![];
    assert_eq!(run.next_action(), BatchAction::Prepare(0));
    run.prepared(Err(ZfsError::Io(16)));
    // the export of the first pool is skipped
    assert_eq!(run.next_action(), BatchAction::Prepare(1));
    run.prepared(Ok(()));
    if let BatchAction::Commit(i) = run.next_action() {
        committed.push(i);
        run.committed(Ok(()));
    }
    assert_eq!(committed, vec![1]);
    assert_eq!(run.next_action(), BatchAction::Finished);
    assert_eq!(run.finish(), Err(vec![(0, ZfsError::Io(16))]));
}

/// Drives an import over entries whose extraction and import results are
/// given: `None` for a malformed entry, `Some(code)` for the import status.
fn drive_import(steps: &[Option<i32>]) -> (Result<(), Vec<(usize, ZfsError)>>, Vec<usize>) {
    let mut z = Libzfs::new();
    let mut run = z.import_all(steps.len());
    let mut imported = vec![];
    loop {
        match run.next_action() {
            BatchAction::Prepare(i) => match steps[i] {
                Some(_) => run.prepared(Ok(())),
                None => run.prepared(Err(ZfsError::Malformed)),
            },
            BatchAction::Commit(i) => {
                imported.push(i);
                run.committed(status_to_result(steps[i].unwrap()));
            }
            BatchAction::Finished => break,
        }
    }
    (run.finish(), imported)
}

#[test]
fn import_reports_every_failure_in_order() {
    let (r, imported) = drive_import(&[Some(0), None, Some(19), Some(0), Some(5)]);
    assert_eq!(imported, vec![0, 2, 3, 4]);
    assert_eq!(
        r,
        Err(vec![(1, ZfsError::Malformed), (2, ZfsError::Io(19)), (4, ZfsError::Io(5))])
    );
}

#[test]
fn import_with_no_failures_succeeds() {
    let (r, imported) = drive_import(&[Some(0), Some(0)]);
    assert_eq!(imported, vec![0, 1]);
    assert_eq!(r, Ok(()));
}

#[test]
fn first_failure_does_not_stop_the_batch() {
    let (r, imported) = drive_import(&[Some(6), Some(0), Some(0)]);
    assert_eq!(imported, vec![0, 1, 2]);
    assert_eq!(r, Err(vec![(0, ZfsError::Io(6))]));
}

#[test]
fn new_batch_asks_for_first_preparation() {
    let run = BatchRun::new(1);
    assert_eq!(run.next_action(), BatchAction::Prepare(0));
}
