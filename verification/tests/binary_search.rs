use aninfo::search::binary_search;

fn assert_option_usize_eq(result: Option<usize>, expected: Option<usize>) {
    match (result, expected) {
        (None, None) => (),
        (Some(r), Some(e)) => assert_eq!(r, e),
        _ => panic!("Expected {:?}, got {:?}", expected, result),
    }
}

#[test]
fn test_binary_search() {
    // Test cases with an empty array
    let array_empty: &[i64] = &[];
    assert_option_usize_eq(binary_search(array_empty, &10), None);

    // Test cases with single-element arrays
    let array_single: &[i64] = &[5];
    assert_option_usize_eq(binary_search(array_single, &5), Some(0));
    assert_option_usize_eq(binary_search(array_single, &10), None);

    // Test cases with multiple-element arrays
    let array_multiple: &[i64] = &[2, 4, 6, 8, 10];
    assert_option_usize_eq(binary_search(array_multiple, &4), Some(1));
    assert_option_usize_eq(binary_search(array_multiple, &2), Some(0));
    assert_option_usize_eq(binary_search(array_multiple, &10), Some(4));
    assert_option_usize_eq(binary_search(array_multiple, &5), None);
    assert_option_usize_eq(binary_search(array_multiple, &1), None);
    assert_option_usize_eq(binary_search(array_multiple, &11), None);

    // Test cases with repeated elements
    let array_repeated: &[i64] = &[1, 2, 2, 2, 3, 4, 5];
    assert_option_usize_eq(binary_search(array_repeated, &2), Some(1));
    assert_option_usize_eq(binary_search(array_repeated, &5), Some(6));
    assert_option_usize_eq(binary_search(array_repeated, &0), None);
    assert_option_usize_eq(binary_search(array_repeated, &6), None);

    // Test cases with negative numbers
    let array_negative: &[i64] = &[-10, -5, 0, 5, 10];
    assert_option_usize_eq(binary_search(array_negative, &0), Some(2));
    assert_option_usize_eq(binary_search(array_negative, &-10), Some(0));
    assert_option_usize_eq(binary_search(array_negative, &10), Some(4));
    assert_option_usize_eq(binary_search(array_negative, &-6), None);
    assert_option_usize_eq(binary_search(array_negative, &6), None);

    // Additional tests for edge cases
    let array_edge: &[i64] = &[1, 3, 5, 7, 9];
    assert_option_usize_eq(binary_search(array_edge, &1), Some(0));
    assert_option_usize_eq(binary_search(array_edge, &9), Some(4));
    assert_option_usize_eq(binary_search(array_edge, &4), None);
    assert_option_usize_eq(binary_search(array_edge, &10), None);
}

#[test]
fn stores_test_binary_search() {
    // Test cases with an empty array
    let array_empty: &[i64] = &[];
    assert_option_usize_eq(binary_search(array_empty, &10), None);

    // Test cases with single-element arrays
    let array_single: &[i64] = &[5];
    assert_option_usize_eq(binary_search(array_single, &5), Some(0));
    assert_option_usize_eq(binary_search(array_single, &10), None);

    // Test cases with multiple-element arrays
    let array_multiple: &[i64] = &[2, 4, 6, 8, 10];
    assert_option_usize_eq(binary_search(array_multiple, &4), Some(1));
    assert_option_usize_eq(binary_search(array_multiple, &2), Some(0));
    assert_option_usize_eq(binary_search(array_multiple, &10), Some(4));
    assert_option_usize_eq(binary_search(array_multiple, &5), None);
    assert_option_usize_eq(binary_search(array_multiple, &1), None);
    assert_option_usize_eq(binary_search(array_multiple, &11), None);

    // Test cases with repeated elements
    let array_repeated: &[i64] = &[1, 2, 2, 2, 3, 4, 5];
    assert_option_usize_eq(binary_search(array_repeated, &2), Some(1));
    assert_option_usize_eq(binary_search(array_repeated, &5), Some(6));
    assert_option_usize_eq(binary_search(array_repeated, &0), None);
    assert_option_usize_eq(binary_search(array_repeated, &6), None);

    // Test cases with negative numbers
    let array_negative: &[i64] = &[-10, -5, 0, 5, 10];
    assert_option_usize_eq(binary_search(array_negative, &0), Some(2));
    assert_option_usize_eq(binary_search(array_negative, &-10), Some(0));
    assert_option_usize_eq(binary_search(array_negative, &10), Some(4));
    assert_option_usize_eq(binary_search(array_negative, &-6), None);
    assert_option_usize_eq(binary_search(array_negative, &6), None);

    // Additional tests for edge cases
    let array_edge: &[i64] = &[1, 3, 5, 7, 9];
    assert_option_usize_eq(binary_search(array_edge, &1), Some(0));
    assert_option_usize_eq(binary_search(array_edge, &9), Some(4));
    assert_option_usize_eq(binary_search(array_edge, &4), None);
    assert_option_usize_eq(binary_search(array_edge, &10), None);

    // More test cases to ensure first occurrence with duplicates
    let array_duplicates: &[i64] = &[1, 2, 2, 2, 3, 4, 4, 5, 5, 5];
    assert_option_usize_eq(binary_search(array_duplicates, &2), Some(1));
    assert_option_usize_eq(binary_search(array_duplicates, &4), Some(5));
    assert_option_usize_eq(binary_search(array_duplicates, &5), Some(7));
    assert_option_usize_eq(binary_search(array_duplicates, &6), None);
    assert_option_usize_eq(binary_search(array_duplicates, &0), None);
}

#[test]
fn test_binary_search_extended() {
    // Test cases with an empty array
    let array_empty: &[i64] = &[];
    assert_option_usize_eq(binary_search(array_empty, &10), None);

    // Test cases with single-element arrays
    let array_single: &[i64] = &[5];
    assert_option_usize_eq(binary_search(array_single, &5), Some(0));
    assert_option_usize_eq(binary_search(array_single, &10), None);

    // Test cases with multiple-element arrays
    let array_multiple: &[i64] = &[2, 4, 6, 8, 10];
    assert_option_usize_eq(binary_search(array_multiple, &4), Some(1));
    assert_option_usize_eq(binary_search(array_multiple, &2), Some(0));
    assert_option_usize_eq(binary_search(array_multiple, &10), Some(4));
    assert_option_usize_eq(binary_search(array_multiple, &5), None);
    assert_option_usize_eq(binary_search(array_multiple, &1), None);
    assert_option_usize_eq(binary_search(array_multiple, &11), None);

    // Test cases with repeated elements
    let array_repeated: &[i64] = &[1, 2, 2, 2, 3, 4, 5];
    assert_option_usize_eq(binary_search(array_repeated, &2), Some(1));
    assert_option_usize_eq(binary_search(array_repeated, &5), Some(6));
    assert_option_usize_eq(binary_search(array_repeated, &0), None);
    assert_option_usize_eq(binary_search(array_repeated, &6), None);

    // Test cases with negative numbers
    let array_negative: &[i64] = &[-10, -5, 0, 5, 10];
    assert_option_usize_eq(binary_search(array_negative, &0), Some(2));
    assert_option_usize_eq(binary_search(array_negative, &-10), Some(0));
    assert_option_usize_eq(binary_search(array_negative, &10), Some(4));
    assert_option_usize_eq(binary_search(array_negative, &-6), None);
    assert_option_usize_eq(binary_search(array_negative, &6), None);

    // Additional tests for edge cases
    let array_edge: &[i64] = &[1, 3, 5, 7, 9];
    assert_option_usize_eq(binary_search(array_edge, &1), Some(0));
    assert_option_usize_eq(binary_search(array_edge, &9), Some(4));
    assert_option_usize_eq(binary_search(array_edge, &4), None);
    assert_option_usize_eq(binary_search(array_edge, &10), None);

    // More test cases with diverse patterns
    let array_large: &[i64] = &[
        1, 2, 3, 4, 5, 6, 7, 8, 9, 10, 11, 12, 13, 14, 15, 16, 17, 18, 19, 20,
    ];
    assert_option_usize_eq(binary_search(array_large, &15), Some(14));
    assert_option_usize_eq(binary_search(array_large, &1), Some(0));
    assert_option_usize_eq(binary_search(array_large, &20), Some(19));
    assert_option_usize_eq(binary_search(array_large, &0), None);
    assert_option_usize_eq(binary_search(array_large, &21), None);

    let array_odd_length: &[i64] = &[1, 3, 5, 7, 9, 11];
    assert_option_usize_eq(binary_search(array_odd_length, &5), Some(2));
    assert_option_usize_eq(binary_search(array_odd_length, &1), Some(0));
    assert_option_usize_eq(binary_search(array_odd_length, &11), Some(5));
    assert_option_usize_eq(binary_search(array_odd_length, &6), None);
    assert_option_usize_eq(binary_search(array_odd_length, &0), None);

    let array_alternating: &[i64] = &[2, 4, 6, 8, 10, 12, 14, 16, 18, 20];
    assert_option_usize_eq(binary_search(array_alternating, &6), Some(2));
    assert_option_usize_eq(binary_search(array_alternating, &10), Some(4));
    assert_option_usize_eq(binary_search(array_alternating, &20), Some(9));
    assert_option_usize_eq(binary_search(array_alternating, &1), None);
    assert_option_usize_eq(binary_search(array_alternating, &21), None);

    // Additional edge cases
    let array_large_negative: &[i64] = &[-100, -50, -25, 0, 25, 50, 75, 100];
    assert_option_usize_eq(binary_search(array_large_negative, &0), Some(3));
    assert_option_usize_eq(binary_search(array_large_negative, &-100), Some(0));
    assert_option_usize_eq(binary_search(array_large_negative, &100), Some(7));
    assert_option_usize_eq(binary_search(array_large_negative, &75), Some(6));
    assert_option_usize_eq(binary_search(array_large_negative, &101), None);

    let array_all_same: &[i64] = &[5; 10];
    assert_option_usize_eq(binary_search(array_all_same, &5), Some(0));
    assert_option_usize_eq(binary_search(array_all_same, &6), None);

    let array_two_elements: &[i64] = &[3, 7];
    assert_option_usize_eq(binary_search(array_two_elements, &3), Some(0));
    assert_option_usize_eq(binary_search(array_two_elements, &7), Some(1));
    assert_option_usize_eq(binary_search(array_two_elements, &5), None);

    let array_single_negative: &[i64] = &[-3];
    assert_option_usize_eq(binary_search(array_single_negative, &-3), Some(0));
    assert_option_usize_eq(binary_search(array_single_negative, &0), None);

    let array_large_odd: &[i64] = &[
        1, 2, 3, 4, 5, 6, 7, 8, 9, 10, 11, 12, 13, 14, 15, 16, 17, 18, 19,
    ];
    assert_option_usize_eq(binary_search(array_large_odd, &10), Some(9));
    assert_option_usize_eq(binary_search(array_large_odd, &1), Some(0));
    assert_option_usize_eq(binary_search(array_large_odd, &19), Some(18));
    assert_option_usize_eq(binary_search(array_large_odd, &0), None);
    assert_option_usize_eq(binary_search(array_large_odd, &20), None);
}
