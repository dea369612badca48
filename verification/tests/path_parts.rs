use bounded_cache::utils::{path_canonicalize_soft, PathPart, RetUnit, MAX_HEADER_SIZE};

#[test]
fn named_segments_are_kept_in_order() {
    let parts = [PathPart::Normal("a"), PathPart::Normal("b"), PathPart::Normal("c")];
    assert_eq!(path_canonicalize_soft(&parts), vec!["a", "b", "c"]);
}

#[test]
fn parent_steps_drop_the_last_segment() {
    let parts = [
        PathPart::Normal("a"),
        PathPart::Normal("b"),
        PathPart::ParentDir,
        PathPart::Normal("c"),
    ];
    assert_eq!(path_canonicalize_soft(&parts), vec!["a", "c"]);
}

#[test]
fn parent_steps_cannot_climb_above_the_start() {
    let parts = [
        PathPart::ParentDir,
        PathPart::ParentDir,
        PathPart::Normal("etc"),
        PathPart::ParentDir,
        PathPart::ParentDir,
        PathPart::Normal("passwd"),
    ];
    assert_eq!(path_canonicalize_soft(&parts), vec!["passwd"]);
}

#[test]
fn roots_and_current_dir_are_ignored() {
    let parts = [
        PathPart::Other,
        PathPart::Normal("srv"),
        PathPart::Other,
        PathPart::Normal("www"),
    ];
    assert_eq!(path_canonicalize_soft(&parts), vec!["srv", "www"]);
}

#[test]
fn no_parts_give_no_segments() {
    let parts: [PathPart<u8>; 0] = [];
    assert_eq!(path_canonicalize_soft(&parts), Vec::<u8>::new());
}

#[test]
fn ret_unit_discards_any_value() {
    assert_eq!(5u32.ret_unit(), ());
    assert_eq!("text".ret_unit(), ());
    assert_eq!(Some(vec![1, 2, 3]).ret_unit(), ());
}

#[test]
fn header_slots() {
    assert_eq!(MAX_HEADER_SIZE, 100);
}
