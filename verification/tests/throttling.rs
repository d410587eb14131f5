use rssbot::throttle::Throttle;

#[test]
fn back_to_back_acquisitions_wait_in_turn() {
    let mut throttle = Throttle::new(3);
    let mut waits = Vec::new();
    let mut tickets = Vec::new();
    for _ in 0..7 {
        let ticket = throttle.acquire();
        waits.push(ticket.wait());
        tickets.push(ticket);
    }
    assert_eq!(waits, vec![0, 1, 2, 0, 1, 2, 0]);
    assert_eq!(throttle.counter, 7);
}

#[test]
fn released_slot_is_given_out_again() {
    let mut throttle = Throttle::new(300);
    let first = throttle.acquire();
    let second = throttle.acquire();
    assert_eq!(first.wait(), 0);
    assert_eq!(second.wait(), 1);
    throttle.release(second);
    let third = throttle.acquire();
    assert_eq!(third.wait(), 1);
    throttle.release(first);
    throttle.release(third);
    assert_eq!(throttle.counter, 0);
    assert_eq!(throttle.acquire().wait(), 0);
}

#[test]
fn window_of_one_second_never_waits() {
    let mut throttle = Throttle::new(1);
    assert_eq!(throttle.acquire().wait(), 0);
    assert_eq!(throttle.acquire().wait(), 0);
}

#[test]
fn counter_wraps_like_an_unsigned_integer() {
    let mut throttle = Throttle::new(10);
    throttle.counter = usize::MAX;
    let ticket = throttle.acquire();
    assert_eq!(ticket.wait(), (usize::MAX % 10) as u64);
    assert_eq!(throttle.counter, 0);
    throttle.release(ticket);
    assert_eq!(throttle.counter, usize::MAX);
}
