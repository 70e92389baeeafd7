use host_router::text::{alphanumeric_marks, crop_letters, keep_marked};

#[test]
fn crop_removes_leading_characters() {
    assert_eq!(crop_letters("/foo/bar", 4), "/bar");
    assert_eq!(crop_letters("/foo/bar", 1), "foo/bar");
}

#[test]
fn crop_of_nothing_keeps_the_string() {
    assert_eq!(crop_letters("/foo/bar", 0), "/foo/bar");
    assert_eq!(crop_letters("", 0), "");
}

#[test]
fn crop_of_the_whole_string_is_empty() {
    assert_eq!(crop_letters("/foo", 4), "");
}

#[test]
fn crop_beyond_the_end_is_empty() {
    assert_eq!(crop_letters("/foo", 5), "");
    assert_eq!(crop_letters("/foo", usize::MAX), "");
    assert_eq!(crop_letters("", 3), "");
}

#[test]
fn crop_counts_characters_not_bytes() {
    // Each of the first three characters takes more than one byte.
    assert_eq!(crop_letters("äöü/rest", 3), "/rest");
    assert_eq!(crop_letters("日本語", 1), "本語");
    assert_eq!(crop_letters("日本語", 3), "");
    assert_eq!(crop_letters("a😀b", 2), "b");
}

#[test]
fn marked_characters_are_kept_in_order() {
    let marks = vec![true, false, true, true, false];
    assert_eq!(keep_marked("a.b:c", &marks), "ab:");
    let marks = vec![true, false, true, false, true];
    assert_eq!(keep_marked("a.b:c", &marks), "abc");
}

#[test]
fn characters_without_a_mark_are_dropped() {
    let marks = vec![true, true];
    assert_eq!(keep_marked("abcd", &marks), "ab");
    assert_eq!(keep_marked("abcd", &Vec::new()), "");
}

#[test]
fn surplus_marks_are_ignored() {
    let marks = vec![false, true, true, true];
    assert_eq!(keep_marked("ab", &marks), "b");
    assert_eq!(keep_marked("", &marks), "");
}

#[test]
fn marks_follow_characters_of_several_bytes() {
    let marks = vec![false, true, false];
    assert_eq!(keep_marked("日本語", &marks), "本");
}

#[test]
fn letters_and_digits_are_marked() {
    assert_eq!(
        alphanumeric_marks("a-1.Z_9"),
        vec![true, false, true, false, true, false, true]
    );
    assert_eq!(alphanumeric_marks(""), Vec::<bool>::new());
}

#[test]
fn letters_and_digits_of_other_scripts_are_marked() {
    assert_eq!(alphanumeric_marks("é日٣ "), vec![true, true, true, false]);
}
