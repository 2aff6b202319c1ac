use treats::Permit;
use std::io::{self, ErrorKind, Write};

#[derive(Debug, Clone, Copy, PartialEq, Eq)]
enum Kind {
    AlreadyExists,
    PermissionDenied,
    DiskFull,
}

#[test]
fn permit_an_error_and_succeed() {
    assert! {
        io::stdout()
            .flush()
            .permit(|e| e.kind() == ErrorKind::FileTooLarge)
            .is_ok()
    }
}

#[test]
fn permit_keeps_a_success_unchanged() {
    let ok: Result<(), Kind> = Ok(());
    assert_eq!(ok.permit(|_| panic!("predicate ran on a success")), Ok(()));
    let ok: Result<(), Kind> = Ok(());
    assert_eq!(ok.permit_if(false), Ok(()));
    let ok: Result<(), Kind> = Ok(());
    assert_eq!(ok.permit_all(), Ok(()));
}

#[test]
fn permit_matching_failure_becomes_success() {
    let failed: Result<(), Kind> = Err(Kind::AlreadyExists);
    assert_eq!(failed.permit(|e| *e == Kind::AlreadyExists), Ok(()));
}

#[test]
fn permit_unmatched_failure_is_returned_unchanged() {
    let failed: Result<(), Kind> = Err(Kind::DiskFull);
    assert_eq!(
        failed.permit(|e| *e == Kind::AlreadyExists),
        Err(Kind::DiskFull)
    );
}

#[test]
fn permit_if_true_allows_and_false_keeps_the_failure() {
    let failed: Result<(), Kind> = Err(Kind::PermissionDenied);
    assert_eq!(failed.permit_if(true), Ok(()));
    let failed: Result<(), Kind> = Err(Kind::PermissionDenied);
    assert_eq!(failed.permit_if(false), Err(Kind::PermissionDenied));
}

#[test]
fn permit_all_allows_any_failure() {
    let failed: Result<(), Kind> = Err(Kind::DiskFull);
    assert_eq!(failed.permit_all(), Ok(()));
}

#[test]
fn chained_permits_allow_either_matching_kind() {
    let failed: Result<(), Kind> = Err(Kind::AlreadyExists);
    let chained = failed
        .permit(|e| *e == Kind::AlreadyExists)
        .permit(|e| *e == Kind::PermissionDenied);
    assert_eq!(chained, Ok(()));

    let failed: Result<(), Kind> = Err(Kind::PermissionDenied);
    let chained = failed
        .permit(|e| *e == Kind::AlreadyExists)
        .permit(|e| *e == Kind::PermissionDenied);
    assert_eq!(chained, Ok(()));
}

#[test]
fn chained_permits_keep_an_unmatched_failure() {
    let failed: Result<(), Kind> = Err(Kind::DiskFull);
    let chained = failed
        .permit(|e| *e == Kind::AlreadyExists)
        .permit(|e| *e == Kind::PermissionDenied);
    assert_eq!(chained, Err(Kind::DiskFull));
}

#[test]
fn permit_evaluates_the_predicate_at_most_once() {
    let mut calls = 0u32;
    let failed: Result<(), Kind> = Err(Kind::DiskFull);
    let kept = failed.permit(|e| {
        calls += 1;
        *e == Kind::AlreadyExists
    });
    assert_eq!(calls, 1);
    assert_eq!(kept, Err(Kind::DiskFull));

    let mut calls = 0u32;
    let ok: Result<(), Kind> = Ok(());
    let kept = ok.permit(|_| {
        calls += 1;
        true
    });
    assert_eq!(calls, 0);
    assert_eq!(kept, Ok(()));
}
