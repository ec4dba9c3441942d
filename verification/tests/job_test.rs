use npio::cancellable::{checkpoint, Cancellable};
use npio::error::IOErrorEnum;
use npio::file_info::{FileAttributeType, FileInfo};
use npio::job::{
    copy_total, destination_mode, move_after_rename, move_precheck, CopyFlags, CopyPump,
    DestinationMode, MoveNext, PumpStep, RenameOutcome, COPY_CHUNK_SIZE,
};

fn overwrite() -> CopyFlags {
    CopyFlags::from_bits_truncate(1)
}

#[test]
fn test_flags() {
    assert_eq!(CopyFlags::none().bits(), 0);
    let all = CopyFlags { overwrite: true, backup: true, no_fallback_for_move: true, target_default_perms: true };
    assert_eq!(all.bits(), 15);
    assert_eq!(CopyFlags::from_bits_truncate(4), CopyFlags { overwrite: false, backup: false, no_fallback_for_move: true, target_default_perms: false });
    assert_eq!(CopyFlags::from_bits_truncate(10), CopyFlags { overwrite: false, backup: true, no_fallback_for_move: false, target_default_perms: true });
    assert_eq!(CopyFlags::from_bits_truncate(16), CopyFlags::none());
    assert_eq!(CopyFlags::from_bits_truncate(u32::MAX), all);
    for bits in 0..16 {
        assert_eq!(CopyFlags::from_bits_truncate(bits).bits(), bits);
    }
    assert!(all.contains(overwrite()));
    assert!(all.contains(CopyFlags::none()));
    assert!(!CopyFlags::none().contains(overwrite()));
    assert!(!overwrite().contains(all));
    assert!(CopyFlags::none().contains(CopyFlags::none()));
}

#[test]
fn test_destination_mode() {
    assert_eq!(destination_mode(CopyFlags::none()), DestinationMode::CreateNew);
    assert_eq!(destination_mode(overwrite()), DestinationMode::Replace);
    assert_eq!(destination_mode(CopyFlags::from_bits_truncate(14)), DestinationMode::CreateNew);
}

#[test]
fn test_copy_total() {
    let mut info = FileInfo::new();
    assert_eq!(copy_total(None), 0);
    assert_eq!(copy_total(Some(&info)), 0);
    info.set_size(10240);
    assert_eq!(copy_total(Some(&info)), 10240);
    info.set_attribute("standard::size", FileAttributeType::Int64(-1));
    assert_eq!(copy_total(Some(&info)), u64::MAX);
}

#[test]
fn test_local_copy_with_progress() {
    assert_eq!(COPY_CHUNK_SIZE, 8192);
    let source = vec![b'a'; 10240];
    let mut destination: Vec<u8> = Vec::new();
    let mut reports: Vec<(u64, u64)> = Vec::new();
    let mut pump = CopyPump::new(10240);
    let mut at = 0;
    loop {
        let n = std::cmp::min(COPY_CHUNK_SIZE, source.len() - at);
        match pump.step(None, n).expect("the copy is not cancelled") {
            PumpStep::Write { current, total } => {
                destination.extend_from_slice(&source[at..at + n]);
                at += n;
                reports.push((current, total));
            }
            PumpStep::Finish => break,
        }
    }
    assert_eq!(destination.len(), 10240);
    assert_eq!(destination, source);
    assert_eq!(reports, vec![(8192, 10240), (10240, 10240)]);
    assert_eq!(pump.written, 10240);
}

#[test]
fn test_progress_with_unknown_total() {
    let mut pump = CopyPump::new(0);
    assert_eq!(pump.step(None, 5).ok(), Some(PumpStep::Write { current: 5, total: 0 }));
    assert_eq!(pump.step(None, 7).ok(), Some(PumpStep::Write { current: 12, total: 0 }));
    assert_eq!(pump.step(None, 0).ok(), Some(PumpStep::Finish));
    assert_eq!(pump.written, 12);
}

#[test]
fn test_cancellation_mid_copy() {
    let mut token = Cancellable::new();
    let mut pump = CopyPump::new(100 * 1024 * 1024);
    assert!(pump.step(Some(&token), 8192).is_ok());
    assert!(pump.step(Some(&token), 8192).is_ok());
    token.cancel();
    let e = pump.step(Some(&token), 8192).err().expect("the token is cancelled");
    assert_eq!(*e.kind(), IOErrorEnum::Cancelled);
    assert_eq!(e.message(), "Operation cancelled");
    // Nothing was moved by the step that failed.
    assert_eq!(pump.written, 16384);
    assert!(pump.written <= pump.total);
    // A read of nothing fails too, once the token is cancelled.
    assert!(pump.step(Some(&token), 0).is_err());
}

#[test]
fn test_cancelled_before_the_operation() {
    let mut token = Cancellable::new();
    assert!(checkpoint(Some(&token)).is_ok());
    assert!(checkpoint(None).is_ok());
    token.cancel();
    let e = checkpoint(Some(&token)).err().expect("the token is cancelled");
    assert_eq!(*e.kind(), IOErrorEnum::Cancelled);
    assert!(checkpoint(None).is_ok());
}

#[test]
fn test_move_decisions() {
    assert!(move_precheck(false, CopyFlags::none()).is_ok());
    assert!(move_precheck(false, overwrite()).is_ok());
    assert!(move_precheck(true, overwrite()).is_ok());
    let e = move_precheck(true, CopyFlags::none()).err().expect("the destination is there");
    assert_eq!(*e.kind(), IOErrorEnum::Exists);

    let no_fallback = CopyFlags::from_bits_truncate(4);
    assert_eq!(move_after_rename(RenameOutcome::Done, CopyFlags::none()), MoveNext::Complete);
    assert_eq!(move_after_rename(RenameOutcome::Done, no_fallback), MoveNext::Complete);
    assert_eq!(move_after_rename(RenameOutcome::CrossDevice, CopyFlags::none()), MoveNext::CopyThenDelete);
    assert_eq!(move_after_rename(RenameOutcome::CrossDevice, overwrite()), MoveNext::CopyThenDelete);
    assert_eq!(move_after_rename(RenameOutcome::CrossDevice, no_fallback), MoveNext::Fail(IOErrorEnum::Failed));
    assert_eq!(move_after_rename(RenameOutcome::Failed, CopyFlags::none()), MoveNext::Fail(IOErrorEnum::Failed));
}
