use std::cell::Cell;
use typed_sled::errors::{ConflictableTransactionError, TransactionError};
use typed_sled::transaction::{transaction_pair, Transactional};
use typed_sled::tree::{TypedBatch, TypedTree};

fn open_db() -> sled::Db {
    sled::Config::new().temporary(true).open().expect("open temporary database")
}

fn typed_tree(db: &sled::Db, name: &str) -> TypedTree<String, u64> {
    TypedTree::new(db.open_tree(name).expect("open tree"))
}

#[test]
fn single_tree_commit_last_write_wins() {
    let db = open_db();
    let tree = typed_tree(&db, "a");
    let k = String::from("k");
    let res: Result<(), TransactionError<()>> = tree.transaction(|tv| {
        tv.insert(&k, &1)?;
        tv.insert(&k, &2)?;
        Ok(())
    });
    res.unwrap();
    assert_eq!(tree.get(&k).unwrap(), Some(2));
}

#[test]
fn previous_value_example() {
    let db = open_db();
    let tree = typed_tree(&db, "a");
    let k = String::from("x");
    let prev: Result<Option<u64>, TransactionError<()>> = tree.transaction(|tv| {
        let prev = tv.insert(&k, &1)?;
        assert_eq!(prev, None);
        Ok(prev)
    });
    assert_eq!(prev.unwrap(), None);
    let prev: Result<Option<u64>, TransactionError<()>> =
        tree.transaction(|tv| Ok(tv.insert(&k, &2)?));
    assert_eq!(prev.unwrap(), Some(1));
    assert_eq!(tree.get(&k).unwrap(), Some(2));
}

#[test]
fn transactional_get_and_remove() {
    let db = open_db();
    let tree = typed_tree(&db, "a");
    let k = String::from("k");
    tree.insert(&k, &7).unwrap();
    let seen: Result<(Option<u64>, Option<u64>, Option<u64>), TransactionError<()>> = tree
        .transaction(|tv| {
            let before = tv.get(&k)?;
            let removed = tv.remove(&k)?;
            let after = tv.get(&k)?;
            Ok((before, removed, after))
        });
    let (before, removed, after) = seen.unwrap();
    assert_eq!(before, Some(7));
    assert_eq!(removed, Some(7));
    assert_eq!(after, None);
    assert_eq!(tree.get(&k).unwrap(), None);
}

#[test]
fn abort_rolls_back_writes() {
    let db = open_db();
    let tree = typed_tree(&db, "a");
    let k = String::from("k");
    tree.insert(&k, &1).unwrap();
    let res: Result<(), TransactionError<&'static str>> = tree.transaction(|tv| {
        tv.insert(&k, &99).map_err(ConflictableTransactionError::from)?;
        Err(ConflictableTransactionError::Abort("rolled back"))
    });
    match res {
        Err(TransactionError::Abort(msg)) => assert_eq!(msg, "rolled back"),
        other => panic!("expected abort, got {:?}", other),
    }
    assert_eq!(tree.get(&k).unwrap(), Some(1));
}

#[test]
fn conflict_outcome_retries_invisibly() {
    let db = open_db();
    let tree = typed_tree(&db, "a");
    let k = String::from("k");
    let attempts = Cell::new(0u32);
    let res: Result<u64, TransactionError<()>> = tree.transaction(|tv| {
        attempts.set(attempts.get() + 1);
        if attempts.get() == 1 {
            return Err(ConflictableTransactionError::Conflict);
        }
        tv.insert(&k, &5)?;
        Ok(5)
    });
    assert_eq!(res.unwrap(), 5);
    assert!(attempts.get() >= 2);
    assert_eq!(tree.get(&k).unwrap(), Some(5));
}

#[test]
fn sequential_same_key_transactions_both_commit_in_order() {
    let db = open_db();
    let tree = typed_tree(&db, "a");
    let k = String::from("k");
    let r1: Result<Option<u64>, TransactionError<()>> =
        tree.transaction(|tv| Ok(tv.insert(&k, &1)?));
    let r2: Result<Option<u64>, TransactionError<()>> =
        tree.transaction(|tv| Ok(tv.insert(&k, &2)?));
    assert_eq!(r1.unwrap(), None);
    assert_eq!(r2.unwrap(), Some(1));
    assert_eq!(tree.get(&k).unwrap(), Some(2));
}

#[test]
fn pair_transaction_commits_both_sides() {
    let db = open_db();
    let ta = typed_tree(&db, "a");
    let tb = typed_tree(&db, "b");
    let k = String::from("k");
    let res: Result<(), TransactionError<()>> = transaction_pair((&ta, &tb), |views| {
        views.0.insert(&k, &10)?;
        views.1.insert(&k, &20)?;
        Ok(())
    });
    res.unwrap();
    assert_eq!(ta.get(&k).unwrap(), Some(10));
    assert_eq!(tb.get(&k).unwrap(), Some(20));
}

#[test]
fn pair_transaction_aborts_both_sides() {
    let db = open_db();
    let ta = typed_tree(&db, "a");
    let tb = typed_tree(&db, "b");
    let k = String::from("k");
    let res: Result<(), TransactionError<u64>> = transaction_pair((&ta, &tb), |views| {
        views.0.insert(&k, &10).map_err(ConflictableTransactionError::from)?;
        views.1.insert(&k, &20).map_err(ConflictableTransactionError::from)?;
        Err(ConflictableTransactionError::Abort(41))
    });
    match res {
        Err(TransactionError::Abort(code)) => assert_eq!(code, 41),
        other => panic!("expected abort, got {:?}", other),
    }
    assert_eq!(ta.get(&k).unwrap(), None);
    assert_eq!(tb.get(&k).unwrap(), None);
}

#[test]
fn pair_views_are_positional() {
    let db = open_db();
    let ta = typed_tree(&db, "a");
    let tb = typed_tree(&db, "b");
    let k = String::from("k");
    let res: Result<(), TransactionError<()>> = transaction_pair((&ta, &tb), |views| {
        views.0.insert(&k, &1)?;
        Ok(())
    });
    res.unwrap();
    assert_eq!(ta.get(&k).unwrap(), Some(1));
    assert_eq!(tb.get(&k).unwrap(), None);
}

#[test]
fn typed_batch_applies_all_staged_writes() {
    let db = open_db();
    let tree = typed_tree(&db, "a");
    let ka = String::from("a");
    let kb = String::from("b");
    let kc = String::from("c");
    tree.insert(&kc, &3).unwrap();
    let mut batch: TypedBatch<String, u64> = TypedBatch::new();
    batch.insert(&ka, &1);
    batch.insert(&kb, &2);
    batch.remove(&kc);
    let res: Result<(), TransactionError<()>> = tree.transaction(|tv| {
        tv.apply_batch(&batch)?;
        Ok(())
    });
    res.unwrap();
    assert_eq!(tree.get(&ka).unwrap(), Some(1));
    assert_eq!(tree.get(&kb).unwrap(), Some(2));
    assert_eq!(tree.get(&kc).unwrap(), None);
}

#[test]
fn typed_batch_last_write_per_key_wins() {
    let db = open_db();
    let tree = typed_tree(&db, "a");
    let k = String::from("k");
    tree.insert(&k, &1).unwrap();
    let mut batch: TypedBatch<String, u64> = TypedBatch::new();
    batch.insert(&k, &2);
    batch.remove(&k);
    let res: Result<(), TransactionError<()>> = tree.transaction(|tv| {
        tv.apply_batch(&batch)?;
        Ok(())
    });
    res.unwrap();
    assert_eq!(tree.get(&k).unwrap(), None);
}

#[test]
fn generate_id_yields_distinct_ids() {
    let db = open_db();
    let tree = typed_tree(&db, "a");
    let res: Result<(u64, u64), TransactionError<()>> = tree.transaction(|tv| {
        let a = tv.generate_id().map_err(|e| {
            ConflictableTransactionError::Storage(e)
        })?;
        let b = tv.generate_id().map_err(|e| {
            ConflictableTransactionError::Storage(e)
        })?;
        Ok((a, b))
    });
    let (a, b) = res.unwrap();
    assert_ne!(a, b);
}

#[test]
fn flush_inside_transaction_keeps_outcome() {
    let db = open_db();
    let tree = typed_tree(&db, "a");
    let k = String::from("k");
    let res: Result<(), TransactionError<()>> = tree.transaction(|tv| {
        tv.insert(&k, &1)?;
        tv.flush();
        Ok(())
    });
    res.unwrap();
    assert_eq!(tree.get(&k).unwrap(), Some(1));
}

#[test]
fn tree_level_insert_get_remove() {
    let db = open_db();
    let tree = typed_tree(&db, "a");
    let k = String::from("k");
    assert_eq!(tree.insert(&k, &11).unwrap(), None);
    assert_eq!(tree.get(&k).unwrap(), Some(11));
    assert_eq!(tree.insert(&k, &12).unwrap(), Some(11));
    assert_eq!(tree.remove(&k).unwrap(), Some(12));
    assert_eq!(tree.get(&k).unwrap(), None);
    assert_eq!(tree.remove(&k).unwrap(), None);
}

#[test]
fn get_inner_returns_the_wrapped_handles() {
    let db = open_db();
    let ta = typed_tree(&db, "a");
    let tb = typed_tree(&db, "b");
    let single: &sled::Tree = Transactional::<()>::get_inner(&&ta);
    single.insert(b"raw", b"x".as_slice()).unwrap();
    assert!(ta.inner.get(b"raw").unwrap().is_some());
    assert!(tb.inner.get(b"raw").unwrap().is_none());
    let pair: (&sled::Tree, &sled::Tree) = Transactional::<()>::get_inner(&(&ta, &tb));
    assert_eq!(pair.0.name(), ta.inner.name());
    assert_eq!(pair.1.name(), tb.inner.name());
}
