use orengine::utils::ArrayDeque;

#[test]
fn test_array_deque() {
    let mut deque = ArrayDeque::<u32, 4>::new();

    deque.push_back(1);
    assert_eq!(deque.len(), 1);

    deque.push_back(2);
    assert_eq!(deque.len(), 2);

    deque.push_back(3);
    assert_eq!(deque.len(), 3);

    assert_eq!(deque.pop_front(), Some(1));
    assert_eq!(deque.len(), 2);

    deque.push_back(4);
    assert_eq!(deque.len(), 3);

    deque.push_back(5);
    assert_eq!(deque.len(), 4);

    assert_eq!(deque.pop_front(), Some(2));
    assert_eq!(deque.pop_front(), Some(3));
    assert_eq!(deque.pop_front(), Some(4));
    assert_eq!(deque.pop_front(), Some(5));
    assert_eq!(deque.pop_front(), None);
}

#[test]
fn array_deque_wraps_around_many_times() {
    let mut deque = ArrayDeque::<u64, 3>::new();
    let mut next_in: u64 = 0;
    let mut next_out: u64 = 0;
    for round in 0..20u64 {
        while deque.len() < 3 {
            deque.push_back(next_in);
            next_in += 1;
        }
        let pops = 1 + round % 3;
        for _ in 0..pops {
            assert_eq!(deque.pop_front(), Some(next_out));
            next_out += 1;
        }
    }
}

#[test]
fn array_deque_clear_empties() {
    let mut deque = ArrayDeque::<String, 2>::new();
    assert!(deque.is_empty());
    deque.push_back("a".to_string());
    deque.push_back("b".to_string());
    assert_eq!(deque.pop_front(), Some("a".to_string()));
    deque.push_back("c".to_string());
    deque.clear();
    assert!(deque.is_empty());
    assert_eq!(deque.len(), 0);
    assert_eq!(deque.pop_front(), None);
    deque.push_back("d".to_string());
    assert_eq!(deque.pop_front(), Some("d".to_string()));
}

#[test]
fn array_deque_of_zero_slots_is_always_empty() {
    let mut deque = ArrayDeque::<u8, 0>::new();
    assert!(deque.is_empty());
    assert_eq!(deque.pop_front(), None);
}

#[test]
fn array_deque_default_is_empty() {
    let deque: ArrayDeque<u8, 5> = ArrayDeque::default();
    assert!(deque.is_empty());
}

#[test]
fn array_deque_from_array_is_full_and_in_order() {
    let mut deque = ArrayDeque::<u32, 3>::from_array([7, 8, 9]);
    assert_eq!(deque.len(), 3);
    assert_eq!(deque.pop_front(), Some(7));
    deque.push_back(10);
    assert_eq!(deque.pop_front(), Some(8));
    assert_eq!(deque.pop_front(), Some(9));
    assert_eq!(deque.pop_front(), Some(10));
    assert_eq!(deque.pop_front(), None);
    assert!(deque.is_empty());
}
