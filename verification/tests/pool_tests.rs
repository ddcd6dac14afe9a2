use stubdns::connection_pool::{BorrowStep, ConnectionPool};

fn pool_of(n: usize) -> ConnectionPool<String> {
    let mut pool = ConnectionPool::new();
    for i in 0..n {
        assert_eq!(pool.add_connection(format!("conn{}", i)), i);
    }
    pool
}

fn borrow_healthy(pool: &mut ConnectionPool<String>) -> Option<usize> {
    loop {
        match pool.borrow_first_available(None) {
            BorrowStep::Check(i) => match pool.borrow_first_available(Some((i, true))) {
                BorrowStep::Borrowed(j) => return Some(j),
                other => panic!("unexpected {:?}", other),
            },
            BorrowStep::Exhausted => return None,
            other => panic!("unexpected {:?}", other),
        }
    }
}

#[test]
fn empty_pool_lends_nothing() {
    let mut pool: ConnectionPool<String> = ConnectionPool::new();
    assert_eq!(pool.len(), 0);
    assert_eq!(pool.borrow_first_available(None), BorrowStep::Exhausted);
    assert!(pool.get_connection(0).is_none());
}

#[test]
fn each_connection_is_lent_once_until_returned() {
    let mut pool = pool_of(3);
    let mut lent = vec![];
    for _ in 0..3 {
        lent.push(borrow_healthy(&mut pool).unwrap());
    }
    lent.sort();
    assert_eq!(lent, vec![0, 1, 2]);
    assert_eq!(borrow_healthy(&mut pool), None);
    pool.return_socket(1);
    assert_eq!(borrow_healthy(&mut pool), Some(1));
}

#[test]
fn unhealthy_candidate_is_marked_broken_and_not_lent_again() {
    let mut pool = pool_of(1);
    let i = match pool.borrow_first_available(None) {
        BorrowStep::Check(i) => i,
        other => panic!("unexpected {:?}", other),
    };
    assert_eq!(pool.borrow_first_available(Some((i, false))), BorrowStep::Broken(0));
    assert_eq!(pool.borrow_first_available(None), BorrowStep::Exhausted);
    pool.return_socket(0);
    assert_eq!(pool.borrow_first_available(None), BorrowStep::Exhausted);
}

#[test]
fn replacing_a_broken_connection_makes_it_available() {
    let mut pool = pool_of(2);
    assert_eq!(pool.mark_broken(1), 1);
    pool.add_connection_at(1, "fresh".to_string());
    assert_eq!(pool.get_connection(1), Some(&"fresh".to_string()));
    let mut lent = vec![borrow_healthy(&mut pool).unwrap(), borrow_healthy(&mut pool).unwrap()];
    lent.sort();
    assert_eq!(lent, vec![0, 1]);
}

#[test]
fn replacing_out_of_range_changes_nothing() {
    let mut pool = pool_of(1);
    pool.add_connection_at(5, "ignored".to_string());
    assert_eq!(pool.len(), 1);
    assert_eq!(pool.get_connection(0), Some(&"conn0".to_string()));
    assert!(pool.get_connection(5).is_none());
}

#[test]
fn borrow_then_return_restores_the_pool() {
    let mut pool = pool_of(1);
    let i = borrow_healthy(&mut pool).unwrap();
    pool.return_socket(i);
    assert_eq!(borrow_healthy(&mut pool), Some(0));
    assert_eq!(borrow_healthy(&mut pool), None);
}

#[test]
fn returned_index_without_connection_is_not_lent() {
    let mut pool = pool_of(0);
    pool.return_socket(7);
    assert_eq!(pool.borrow_first_available(None), BorrowStep::Exhausted);
    assert_eq!(pool.borrow_first_available(None), BorrowStep::Exhausted);
}

#[test]
fn candidate_marked_broken_during_its_check_is_still_lent() {
    let mut pool = pool_of(2);
    let first = match pool.borrow_first_available(None) {
        BorrowStep::Check(i) => i,
        other => panic!("unexpected {:?}", other),
    };
    pool.mark_broken(first);
    assert_eq!(pool.borrow_first_available(Some((first, true))), BorrowStep::Borrowed(first));
    pool.return_socket(first);
    let other = borrow_healthy(&mut pool).unwrap();
    assert_ne!(other, first);
    assert_eq!(pool.borrow_first_available(None), BorrowStep::Exhausted);
}

#[test]
fn only_a_candidate_handed_out_is_lent() {
    let mut pool = pool_of(1);
    assert_eq!(pool.borrow_first_available(Some((0, true))), BorrowStep::Check(0));
    assert_eq!(pool.borrow_first_available(Some((0, true))), BorrowStep::Borrowed(0));
    assert_eq!(pool.borrow_first_available(Some((0, true))), BorrowStep::Exhausted);
}

#[test]
fn returning_a_candidate_under_check_makes_it_available() {
    let mut pool = pool_of(1);
    assert_eq!(pool.borrow_first_available(None), BorrowStep::Check(0));
    pool.return_socket(0);
    assert_eq!(pool.borrow_first_available(Some((0, true))), BorrowStep::Borrowed(0));
    assert_eq!(pool.borrow_first_available(None), BorrowStep::Check(0));
}
