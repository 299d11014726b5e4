use rocksdb::transactions::transaction::{
    GetReply, MultiGetReply, TxnCall, TxnRequest,
};
use rocksdb::{ColumnFamilyRef, Direction, IteratorMode, ReadOptions, Transaction, WriteBatchWithTransaction};

fn is_default(ro: &ReadOptions) -> bool {
    !ro.total_order_seek() && !ro.prefix_same_as_start() && ro.timestamp().is_none()
}

fn get_parts(req: &TxnRequest) -> (Option<ColumnFamilyRef>, Vec<u8>, &ReadOptions) {
    match &req.call {
        TxnCall::Get { cf, key, readopts } => (*cf, key.clone(), readopts),
        _ => panic!("not a plain read"),
    }
}

#[test]
fn get_reads_with_default_options() {
    let txn = Transaction::from_raw(0x77);
    let call = txn.get(b"hello");
    let req = &call.pinned.request;
    assert_eq!(req.txn, 0x77);
    let (cf, key, ro) = get_parts(req);
    assert_eq!(cf, None);
    assert_eq!(key, b"hello".to_vec());
    assert!(is_default(ro));
}

#[test]
fn get_opt_passes_the_read_timestamp() {
    let txn = Transaction::from_raw(1);
    let mut ro = ReadOptions::default();
    ro.set_timestamp(42u64.to_le_bytes().to_vec());
    let call = txn.get_opt(b"hello", &ro);
    let (_, key, sent) = get_parts(&call.pinned.request);
    assert_eq!(key, b"hello".to_vec());
    assert_eq!(sent.timestamp(), Some(&42u64.to_le_bytes()[..]));
    assert!(!sent.total_order_seek());
}

#[test]
fn get_cf_names_the_column_family() {
    let txn = Transaction::from_raw(1);
    let cf = ColumnFamilyRef { inner: 0x99 };
    let call = txn.get_cf(&cf, b"k");
    let (sent_cf, _, ro) = get_parts(&call.pinned.request);
    assert_eq!(sent_cf, Some(cf));
    assert!(is_default(ro));
    let (sent_cf, _, _) = get_parts(&txn.get_pinned_cf(&cf, b"k").request);
    assert_eq!(sent_cf.map(|c| c.inner()), Some(0x99));
}

#[test]
fn read_reply_becomes_the_result() {
    let txn = Transaction::from_raw(1);
    let found = txn.get(b"hello").finish(GetReply { err: None, value: Some(b"world".to_vec()) });
    assert_eq!(found.unwrap(), Some(b"world".to_vec()));
    let missing = txn.get(b"hello").finish(GetReply { err: None, value: None });
    assert_eq!(missing.unwrap(), None);
    let failed = txn
        .get(b"hello")
        .finish(GetReply { err: Some("Busy".to_string()), value: Some(b"x".to_vec()) });
    assert_eq!(failed.unwrap_err().into_string(), "Busy");
}

#[test]
fn pinned_read_holds_the_same_bytes() {
    let txn = Transaction::from_raw(1);
    let pinned = txn.get_pinned(b"a").finish(GetReply { err: None, value: Some(vec![1, 2, 3]) });
    let slice = pinned.unwrap().unwrap();
    assert_eq!(slice.as_ref(), &[1u8, 2, 3][..]);
    assert_eq!(slice.to_vec(), vec![1u8, 2, 3]);
}

#[test]
fn get_for_update_sends_the_lock_mode() {
    let txn = Transaction::from_raw(3);
    let cf = ColumnFamilyRef { inner: 5 };
    for (exclusive, byte) in [(true, 1u8), (false, 0u8)] {
        match &txn.get_for_update(b"k", exclusive).pinned.request.call {
            TxnCall::GetForUpdate { cf: None, key, exclusive: e, readopts } => {
                assert_eq!(key, &b"k".to_vec());
                assert_eq!(*e, byte);
                assert!(is_default(readopts));
            }
            _ => panic!("not a locking read"),
        }
        match &txn.get_pinned_for_update_cf(&cf, b"k", exclusive).request.call {
            TxnCall::GetForUpdate { cf: Some(c), exclusive: e, .. } => {
                assert_eq!(c.inner, 5);
                assert_eq!(*e, byte);
            }
            _ => panic!("not a locking read"),
        }
    }
}

#[test]
fn multi_get_sends_keys_with_their_lengths() {
    let txn = Transaction::from_raw(9);
    let call = txn.multi_get(vec![b"a".to_vec(), b"bcd".to_vec(), Vec::new()]);
    match &call.request.call {
        TxnCall::MultiGet { keys, keys_sizes, readopts } => {
            assert_eq!(keys, &vec![b"a".to_vec(), b"bcd".to_vec(), Vec::new()]);
            assert_eq!(keys_sizes, &vec![1usize, 3, 0]);
            assert!(is_default(readopts));
        }
        _ => panic!("not a batched read"),
    }
}

#[test]
fn multi_get_cf_splits_families_and_keys() {
    let txn = Transaction::from_raw(9);
    let a = ColumnFamilyRef { inner: 1 };
    let b = ColumnFamilyRef { inner: 2 };
    let call = txn.multi_get_cf(vec![(a, b"xy".to_vec()), (b, b"z".to_vec())]);
    match &call.request.call {
        TxnCall::MultiGetCf { cfs, keys, keys_sizes, .. } => {
            assert_eq!(cfs, &vec![a, b]);
            assert_eq!(keys, &vec![b"xy".to_vec(), b"z".to_vec()]);
            assert_eq!(keys_sizes, &vec![2usize, 1]);
        }
        _ => panic!("not a batched read"),
    }
}

#[test]
fn multi_get_reply_gives_one_result_per_key() {
    let txn = Transaction::from_raw(9);
    let reply = MultiGetReply {
        values: vec![Some(b"v0".to_vec()), None, Some(b"ignored".to_vec())],
        errors: vec![None, None, Some("Corruption".to_string())],
    };
    let results = txn.multi_get(vec![vec![0], vec![1], vec![2]]).finish(reply);
    assert_eq!(results.len(), 3);
    assert_eq!(results[0].as_ref().unwrap(), &Some(b"v0".to_vec()));
    assert_eq!(results[1].as_ref().unwrap(), &None);
    assert_eq!(results[2].as_ref().unwrap_err().as_str(), "Corruption");
}

#[test]
fn multi_get_reply_stops_at_the_shorter_column() {
    let txn = Transaction::from_raw(9);
    let reply = MultiGetReply { values: vec![None, None], errors: vec![None] };
    assert_eq!(txn.multi_get(Vec::new()).finish(reply).len(), 1);
}

#[test]
fn writes_carry_key_and_value() {
    let txn = Transaction::from_raw(4);
    let cf = ColumnFamilyRef { inner: 8 };
    match txn.put(b"hello", b"world").request.call {
        TxnCall::Put { cf: None, key, value } => {
            assert_eq!(key, b"hello".to_vec());
            assert_eq!(value, b"world".to_vec());
        }
        _ => panic!("not a put"),
    }
    match txn.merge_cf(&cf, b"m", b"+1").request.call {
        TxnCall::Merge { cf: Some(c), key, value } => {
            assert_eq!(c, cf);
            assert_eq!(key, b"m".to_vec());
            assert_eq!(value, b"+1".to_vec());
        }
        _ => panic!("not a merge"),
    }
    match txn.delete(b"gone").request.call {
        TxnCall::Delete { cf: None, key } => assert_eq!(key, b"gone".to_vec()),
        _ => panic!("not a delete"),
    }
    assert!(matches!(txn.put_cf(&cf, b"k", b"v").request.call, TxnCall::Put { cf: Some(_), .. }));
    assert!(matches!(txn.merge(b"k", b"v").request.call, TxnCall::Merge { cf: None, .. }));
    assert!(matches!(txn.delete_cf(&cf, b"k").request.call, TxnCall::Delete { cf: Some(_), .. }));
}

#[test]
fn status_reply_becomes_the_result() {
    let txn = Transaction::from_raw(4);
    assert!(txn.put(b"k", b"v").finish(None).is_ok());
    let e = txn.put(b"k", b"v").finish(Some("Busy: write conflict".to_string()));
    assert_eq!(e.unwrap_err().into_string(), "Busy: write conflict");
}

#[test]
fn commit_timestamps_are_distinct_calls() {
    let txn = Transaction::from_raw(4);
    let assign = txn.assign_commit_timestamp(42);
    assert!(matches!(assign.request.call, TxnCall::AssignCommitTimestamp(42)));
    let failed = txn.assign_commit_timestamp(42).finish(Some("NotSupported".to_string()));
    assert_eq!(failed.unwrap_err().as_str(), "NotSupported");
    assert!(txn.assign_commit_timestamp(42).finish(None).is_ok());
    assert!(matches!(txn.set_commit_timestamp(42).call, TxnCall::SetCommitTimestamp(42)));
    assert!(matches!(
        txn.set_read_timestamp_for_validation(u64::MAX).call,
        TxnCall::SetReadTimestampForValidation(u64::MAX)
    ));
}

#[test]
fn lifecycle_calls() {
    let txn = Transaction::from_raw(4);
    assert!(matches!(txn.prepare().request.call, TxnCall::Prepare));
    assert!(matches!(txn.rollback().request.call, TxnCall::Rollback));
    assert!(matches!(txn.set_savepoint().call, TxnCall::SetSavepoint));
    assert!(matches!(txn.rollback_to_savepoint().request.call, TxnCall::RollbackToSavepoint));
    assert!(matches!(txn.snapshot().call, TxnCall::GetSnapshot));
    assert!(matches!(txn.get_name().call, TxnCall::GetName));
    match txn.set_name(b"txn-1").request.call {
        TxnCall::SetName(n) => assert_eq!(n, b"txn-1".to_vec()),
        _ => panic!("not set_name"),
    }
    let commit = Transaction::from_raw(4).commit();
    assert_eq!(commit.request.txn, 4);
    assert!(matches!(commit.request.call, TxnCall::Commit));
}

#[test]
fn write_batch_round_trip() {
    let txn = Transaction::from_raw(4);
    assert!(matches!(txn.get_writebatch().call, TxnCall::GetWriteBatch));
    let wb = WriteBatchWithTransaction::from_data(vec![1, 2, 3]);
    match txn.rebuild_from_writebatch(&wb).request.call {
        TxnCall::RebuildFromWriteBatch(d) => assert_eq!(d, vec![1u8, 2, 3]),
        _ => panic!("not a rebuild"),
    }
    assert_eq!(wb.data(), &[1u8, 2, 3][..]);
}

fn iter_parts(req: TxnRequest) -> (Option<ColumnFamilyRef>, ReadOptions, Option<IteratorMode>) {
    match req.call {
        TxnCall::CreateIterator { cf, readopts, mode } => (cf, readopts, mode),
        _ => panic!("not an iterator"),
    }
}

#[test]
fn iterators_choose_their_options() {
    let txn = Transaction::from_raw(6);
    let cf = ColumnFamilyRef { inner: 11 };

    let (c, ro, mode) = iter_parts(txn.iterator(IteratorMode::Start));
    assert_eq!(c, None);
    assert!(is_default(&ro));
    assert!(matches!(mode, Some(IteratorMode::Start)));

    let (_, ro, mode) = iter_parts(txn.full_iterator(IteratorMode::End));
    assert!(ro.total_order_seek());
    assert!(!ro.prefix_same_as_start());
    assert!(matches!(mode, Some(IteratorMode::End)));

    let (_, ro, mode) = iter_parts(txn.prefix_iterator(b"pre"));
    assert!(ro.prefix_same_as_start());
    assert!(!ro.total_order_seek());
    match mode {
        Some(IteratorMode::From(k, Direction::Forward)) => assert_eq!(k, b"pre".to_vec()),
        _ => panic!("prefix iterator must start forward at the prefix"),
    }

    let (c, ro, _) = iter_parts(txn.full_iterator_cf(&cf, IteratorMode::Start));
    assert_eq!(c, Some(cf));
    assert!(ro.total_order_seek());

    let (c, ro, mode) = iter_parts(txn.prefix_iterator_cf(&cf, b"p"));
    assert_eq!(c, Some(cf));
    assert!(ro.prefix_same_as_start());
    assert!(matches!(mode, Some(IteratorMode::From(_, Direction::Forward))));

    let (c, ro, mode) = iter_parts(txn.iterator_cf(&cf, IteratorMode::From(b"x".to_vec(), Direction::Reverse)));
    assert_eq!(c, Some(cf));
    assert!(is_default(&ro));
    assert!(matches!(mode, Some(IteratorMode::From(_, Direction::Reverse))));

    let mut custom = ReadOptions::default();
    custom.set_total_order_seek(true);
    let (_, ro, _) = iter_parts(txn.iterator_opt(IteratorMode::Start, custom.clone()));
    assert!(ro.total_order_seek());
    let (c, ro, _) = iter_parts(txn.iterator_cf_opt(&cf, custom.clone(), IteratorMode::Start));
    assert_eq!(c, Some(cf));
    assert!(ro.total_order_seek());
}

#[test]
fn raw_iterators_are_unpositioned() {
    let txn = Transaction::from_raw(6);
    let cf = ColumnFamilyRef { inner: 11 };
    let (c, ro, mode) = iter_parts(txn.raw_iterator());
    assert_eq!(c, None);
    assert!(is_default(&ro));
    assert!(mode.is_none());
    let (c, _, mode) = iter_parts(txn.raw_iterator_cf(&cf));
    assert_eq!(c, Some(cf));
    assert!(mode.is_none());
    let mut custom = ReadOptions::default();
    custom.set_prefix_same_as_start(true);
    let (_, ro, mode) = iter_parts(txn.raw_iterator_opt(custom.clone()));
    assert!(ro.prefix_same_as_start());
    assert!(mode.is_none());
    let (c, ro, _) = iter_parts(txn.raw_iterator_cf_opt(&cf, custom));
    assert_eq!(c, Some(cf));
    assert!(ro.prefix_same_as_start());
}
