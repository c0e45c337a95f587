use kdam::{Bar, BarIter, BarIterStruct, ExactLen, Pull, PullBack, VecSource};

fn wrap(items: Vec<u64>) -> BarIterStruct<VecSource<u64>> {
    VecSource::new(items).progress()
}

#[test]
fn forward_pulls_yield_source_order() {
    let mut a = wrap(vec![3, 1, 4, 1, 5]);
    let mut got = Vec::new();
    while let Some(x) = a.next() {
        got.push(x);
    }
    assert_eq!(got, vec![3, 1, 4, 1, 5]);
    assert_eq!(a.next(), None);
}

#[test]
fn forward_pulls_match_unwrapped_source() {
    let mut plain = VecSource::new(vec![7, 8, 9]);
    let mut a = wrap(vec![7, 8, 9]);
    for _ in 0..5 {
        assert_eq!(a.next(), plain.next());
    }
}

#[test]
fn backward_pulls_yield_reverse_order() {
    let mut a = wrap(vec![10, 20, 30]);
    assert_eq!(a.next_back(), Some(30));
    assert_eq!(a.next_back(), Some(20));
    assert_eq!(a.next_back(), Some(10));
    assert_eq!(a.next_back(), None);
}

#[test]
fn mixed_pulls_match_unwrapped_source() {
    let mut plain = VecSource::new(vec![1, 2, 3, 4, 5]);
    let mut a = wrap(vec![1, 2, 3, 4, 5]);
    let fronts = [true, false, false, true, true, false, true];
    for &f in fronts.iter() {
        if f {
            assert_eq!(a.next(), plain.next());
        } else {
            assert_eq!(a.next_back(), plain.next_back());
        }
    }
    assert_eq!(a.len(), plain.len());
}

#[test]
fn drained_while_not_started_only_redraws() {
    let mut a = wrap(vec![1, 2, 3, 4]);
    let mut pulls: u64 = 0;
    loop {
        pulls += 1;
        if a.next().is_none() {
            break;
        }
    }
    assert_eq!(pulls, 5);
    assert_eq!(a.deref().refreshes, 5);
    assert_eq!(a.deref().counter, 0);
    assert!(!a.deref().started);
}

#[test]
fn drained_after_start_counts_every_pull() {
    let mut a = wrap(vec![1, 2, 3, 4]);
    a.deref_mut().started = true;
    let mut pulls: u64 = 0;
    loop {
        pulls += 1;
        if a.next_back().is_none() {
            break;
        }
    }
    assert_eq!(pulls, 5);
    assert_eq!(a.deref().counter, 5);
    assert_eq!(a.deref().refreshes, 0);
}

#[test]
fn total_is_lower_size_bound() {
    let a = wrap(vec![5, 6, 7, 8, 9, 10, 11]);
    assert_eq!(a.pb.total, 7);
    assert_eq!(a.pb.counter, 0);
    assert_eq!(a.pb.refreshes, 0);
    assert!(!a.pb.started);
}

#[test]
fn total_of_empty_source_is_zero() {
    let mut a = wrap(Vec::new());
    assert_eq!(a.deref().total, 0);
    assert_eq!(a.len(), 0);
    assert_eq!(a.next(), None);
    assert_eq!(a.deref().refreshes, 1);
}

#[test]
fn total_is_fixed_at_wrap_time() {
    let mut src = VecSource::new(vec![1, 2, 3]);
    assert_eq!(src.next(), Some(1));
    let mut a = src.progress();
    assert_eq!(a.pb.total, 2);
    a.deref_mut().started = true;
    assert_eq!(a.next(), Some(2));
    assert_eq!(a.next(), Some(3));
    assert_eq!(a.next(), None);
    assert_eq!(a.pb.total, 2);
    assert_eq!(a.pb.counter, 3);
}

#[test]
fn len_follows_source_after_partial_consumption() {
    let mut plain = VecSource::new(vec![1, 2, 3, 4]);
    let mut a = wrap(vec![1, 2, 3, 4]);
    assert_eq!(a.len(), 4);
    assert_eq!(a.len(), plain.len());
    a.next();
    plain.next();
    assert_eq!(a.len(), 3);
    a.next_back();
    plain.next_back();
    assert_eq!(a.len(), 2);
    assert_eq!(a.len(), plain.len());
    assert_eq!(a.deref().refreshes, 2);
}

#[test]
fn len_does_not_notify() {
    let a = wrap(vec![1, 2]);
    assert_eq!(a.len(), 2);
    assert_eq!(a.pb.refreshes, 0);
    assert_eq!(a.pb.counter, 0);
}

#[test]
fn five_integers_scenario() {
    let mut a = wrap(vec![10, 20, 30, 40, 50]);
    assert!(!a.deref().started);

    assert_eq!(a.next(), Some(10));
    assert_eq!(a.deref().refreshes, 1);
    assert_eq!(a.deref().counter, 0);
    assert!(!a.deref().started);

    a.deref_mut().started = true;
    assert_eq!(a.next(), Some(20));
    assert_eq!(a.next(), Some(30));
    assert_eq!(a.next(), Some(40));
    assert_eq!(a.deref().counter, 3);

    assert_eq!(a.next(), Some(50));
    assert_eq!(a.deref().counter, 4);

    assert_eq!(a.next(), None);
    assert_eq!(a.deref().counter, 5);
    assert_eq!(a.deref().refreshes, 1);
}

#[test]
fn tracker_update_and_refresh() {
    let mut b = Bar::new(10);
    b.refresh();
    assert_eq!(b.refreshes, 1);
    assert_eq!(b.counter, 0);
    assert!(!b.started);
    b.update(3);
    assert_eq!(b.counter, 3);
    assert!(b.started);
    assert_eq!(b.total, 10);
    assert_eq!(b.refreshes, 1);
}

#[test]
fn update_through_adapter_starts_counting() {
    let mut a = wrap(vec![1, 2, 3]);
    a.next();
    a.deref_mut().update(1);
    assert_eq!(a.next(), Some(2));
    assert_eq!(a.deref().counter, 2);
    assert_eq!(a.deref().refreshes, 1);
}

#[test]
fn source_size_hint_is_exact() {
    let mut s = VecSource::new(vec![4, 5, 6]);
    assert_eq!(s.size_hint(), (3, Some(3)));
    s.next_back();
    assert_eq!(s.size_hint(), (2, Some(2)));
}
