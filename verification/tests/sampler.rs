use service::utils::{get_auth_token, sample};

fn numbers(len: u32) -> Vec<u32> {
    (0..len).collect()
}

#[test]
fn sample_without_request_is_identity() {
    assert_eq!(sample(None, numbers(7)), numbers(7));
    assert_eq!(sample(None, Vec::<u32>::new()), Vec::<u32>::new());
}

#[test]
fn sample_request_not_below_length_is_identity() {
    assert_eq!(sample(Some(7), numbers(7)), numbers(7));
    assert_eq!(sample(Some(8), numbers(7)), numbers(7));
    assert_eq!(sample(Some(u32::MAX), numbers(3)), numbers(3));
}

#[test]
fn sample_of_empty_data_is_empty() {
    assert_eq!(sample(Some(0), Vec::<u32>::new()), Vec::<u32>::new());
    assert_eq!(sample(Some(1), Vec::<u32>::new()), Vec::<u32>::new());
    assert_eq!(sample(Some(1000), Vec::<u32>::new()), Vec::<u32>::new());
}

#[test]
fn sample_request_of_zero_is_empty() {
    assert_eq!(sample(Some(0), numbers(5)), Vec::<u32>::new());
}

#[test]
fn sample_two_of_four_emits_when_accumulator_exceeds_one() {
    // Accumulator: 1/2, 1, 3/2 (emit, back to 1/2), 1.
    assert_eq!(sample(Some(2), vec![10, 11, 12, 13]), vec![12]);
}

#[test]
fn sample_three_of_ten_picks_evenly_spaced_items() {
    assert_eq!(sample(Some(3), numbers(10)), vec![3, 6]);
}

#[test]
fn sample_seven_of_ten_picks_evenly_spaced_items() {
    assert_eq!(sample(Some(7), numbers(10)), vec![1, 2, 4, 5, 7, 8]);
}

#[test]
fn sample_one_of_many_never_exceeds_one() {
    assert_eq!(sample(Some(1), numbers(3)), Vec::<u32>::new());
    assert_eq!(sample(Some(1), numbers(10)), Vec::<u32>::new());
}

#[test]
fn sample_length_for_full_and_empty_requests_is_the_request() {
    for len in 0..40u32 {
        assert_eq!(sample(Some(len), numbers(len)).len(), len as usize);
        assert_eq!(sample(Some(0), numbers(len)).len(), 0);
    }
}

#[test]
fn sample_length_below_length_is_one_less_than_requested() {
    for len in 2..40u32 {
        for n in 1..len {
            assert_eq!(sample(Some(n), numbers(len)).len(), (n - 1) as usize);
        }
    }
}

#[test]
fn sample_preserves_order_and_items() {
    for len in 0..30u32 {
        for n in 0..35u32 {
            let out = sample(Some(n), numbers(len));
            assert!(out.windows(2).all(|pair| pair[0] < pair[1]));
            assert!(out.iter().all(|item| *item < len));
        }
    }
}

#[test]
fn sample_is_stable() {
    let first = sample(Some(13), numbers(100));
    let second = sample(Some(13), numbers(100));
    assert_eq!(first, second);
}

#[test]
fn sample_moves_items_that_are_not_copy() {
    let data = vec!["a".to_string(), "b".to_string(), "c".to_string(), "d".to_string()];
    assert_eq!(sample(Some(3), data), vec!["b".to_string(), "c".to_string()]);
}

#[test]
fn auth_token_has_sixty_four_letters_and_digits() {
    let token = get_auth_token();
    assert_eq!(token.chars().count(), 64);
    assert!(token.chars().all(|c| c.is_ascii_alphanumeric()));
}

#[test]
fn auth_tokens_differ() {
    assert_ne!(get_auth_token(), get_auth_token());
    let token = get_auth_token();
    let first = token.chars().next().unwrap();
    assert!(token.chars().any(|c| c != first));
}
