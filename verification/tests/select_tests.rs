use correlate2d::select::{contains_substr_ci, find_name_with_substr};

#[test]
fn substring_match_ignores_case_on_both_sides() {
    assert!(contains_substr_ci(&b"NVIDIA CUDA".to_vec(), &b"nvidia".to_vec()));
    assert!(contains_substr_ci(&b"amd accelerated".to_vec(), &b"AMD".to_vec()));
    assert!(contains_substr_ci(&b"Intel(R) OpenCL".to_vec(), &b"opencl".to_vec()));
}

#[test]
fn substring_in_the_middle_is_found() {
    assert!(contains_substr_ci(&b"Portable Computing Language".to_vec(), &b"comput".to_vec()));
}

#[test]
fn missing_substring_is_not_found() {
    assert!(!contains_substr_ci(&b"Intel(R) OpenCL".to_vec(), &b"nvidia".to_vec()));
}

#[test]
fn empty_pattern_matches_everything() {
    assert!(contains_substr_ci(&b"anything".to_vec(), &b"".to_vec()));
    assert!(contains_substr_ci(&b"".to_vec(), &b"".to_vec()));
}

#[test]
fn pattern_longer_than_name_does_not_match() {
    assert!(!contains_substr_ci(&b"gpu".to_vec(), &b"gpu device".to_vec()));
}

#[test]
fn first_matching_name_wins() {
    let names = vec![
        b"Foo GPU Platform".to_vec(),
        b"Bar GPU Platform".to_vec(),
    ];
    assert_eq!(find_name_with_substr(&names, &b"gpu".to_vec()), Some(0));
}

#[test]
fn later_name_is_found_when_earlier_ones_do_not_match() {
    let names = vec![
        b"Intel(R) OpenCL".to_vec(),
        b"NVIDIA CUDA".to_vec(),
    ];
    assert_eq!(find_name_with_substr(&names, &b"NVIDIA".to_vec()), Some(1));
}

#[test]
fn nameless_entry_is_skipped() {
    // a platform without a name stands in the list as an empty name
    let names = vec![Vec::new(), b"AMD Accelerated Parallel Processing".to_vec()];
    assert_eq!(find_name_with_substr(&names, &b"amd".to_vec()), Some(1));
}

#[test]
fn no_matching_name_gives_none() {
    let names = vec![b"Intel(R) OpenCL".to_vec(), b"Clover".to_vec()];
    assert_eq!(find_name_with_substr(&names, &b"nvidia".to_vec()), None);
}

#[test]
fn empty_list_gives_none() {
    let names: Vec<Vec<u8>> = Vec::new();
    assert_eq!(find_name_with_substr(&names, &b"nvidia".to_vec()), None);
}
