use rust_basics::extremum::{find_max, largest_char, largest_fn, largest_i32, EmptyInputError};

#[test]
fn find_max_numbers() {
    assert_eq!(find_max(&[34, 50, 25, 100, 65]), Ok(100));
}

#[test]
fn find_max_chars() {
    assert_eq!(find_max(&['c', 'r', 'g', 's', 'e', 'm', 'q']), Ok('s'));
}

#[test]
fn find_max_all_equal() {
    assert_eq!(find_max(&[5, 5, 5]), Ok(5));
}

#[test]
fn find_max_single() {
    assert_eq!(find_max(&[-7]), Ok(-7));
    assert_eq!(find_max(&['z']), Ok('z'));
}

#[test]
fn find_max_empty() {
    let empty: [i32; 0] = [];
    assert_eq!(find_max(&empty), Err(EmptyInputError));
    let no_chars: [char; 0] = [];
    assert_eq!(find_max(&no_chars), Err(EmptyInputError));
}

#[test]
fn find_max_is_upper_bound() {
    let list = [102, 35, 7, 34, 5, 4, 4, 67543];
    let m = find_max(&list).unwrap();
    assert!(list.contains(&m));
    assert!(list.iter().all(|&x| x <= m));
}

#[test]
fn find_max_negative_and_extremes() {
    assert_eq!(find_max(&[-3, -1, -2]), Ok(-1));
    assert_eq!(find_max(&[i32::MIN, i32::MAX, 0]), Ok(i32::MAX));
}

#[test]
fn find_max_order_independent() {
    let a = [34, 6, 3, 2, 45, 787654, 234];
    let b = [234, 787654, 45, 2, 3, 6, 34];
    let c = [787654, 34, 6, 3, 2, 45, 234];
    assert_eq!(find_max(&a), find_max(&b));
    assert_eq!(find_max(&a), find_max(&c));
    assert_eq!(find_max(&a), Ok(787654));
}

#[test]
fn largest_variants_numbers() {
    assert_eq!(largest_fn(&[102, 35, 7, 34, 5, 4, 4, 67543]), Ok(67543));
    assert_eq!(largest_fn(&[34, 6, 3, 2, 45, 787654, 234]), Ok(787654));
    assert_eq!(largest_i32(&[345, 7, 7, 23, 3, 467, 4, 3, 68]), Ok(467));
    assert_eq!(largest_i32(&[34, 50, 24, 100, 65]), Ok(100));
}

#[test]
fn largest_variants_chars() {
    assert_eq!(largest_char(&['c', 'r', 'g', 's', 'e', 'm', 'q']), Ok('s'));
    assert_eq!(largest_char(&['y', 'm', 'a', 'q']), Ok('y'));
}

#[test]
fn largest_variants_empty() {
    assert_eq!(largest_fn(&[]), Err(EmptyInputError));
    assert_eq!(largest_i32(&[]), Err(EmptyInputError));
    assert_eq!(largest_char(&[]), Err(EmptyInputError));
}

#[test]
fn generic_and_specific_agree() {
    let numbers: [&[i32]; 5] = [&[34, 50, 25, 100, 65], &[5, 5, 5], &[-4], &[], &[3, 9, 9, 1]];
    for list in numbers {
        assert_eq!(find_max(list), largest_i32(list));
        assert_eq!(find_max(list), largest_fn(list));
    }
    let chars: [&[char]; 4] = [&['c', 'r', 'g', 's', 'e', 'm', 'q'], &['y', 'm', 'a', 'q'], &['a'], &[]];
    for list in chars {
        assert_eq!(find_max(list), largest_char(list));
    }
}
