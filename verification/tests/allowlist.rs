use flagmod::allowlist::channel_allowed;
use flagmod::allowlist::parse_allow_list;

#[test]
fn empty_string_gives_empty_list() {
    let list = parse_allow_list("");
    assert_eq!(list, Vec::<u64>::new());
}

#[test]
fn two_entries_parse_in_order() {
    let list = parse_allow_list("111,222");
    assert_eq!(list, vec![111, 222]);
}

#[test]
fn entries_are_trimmed() {
    let list = parse_allow_list(" 111 ,\t222 , 333");
    assert_eq!(list, vec![111, 222, 333]);
}

#[test]
fn empty_entries_are_dropped() {
    let list = parse_allow_list("111,,222,");
    assert_eq!(list, vec![111, 222]);
}

#[test]
fn unparsable_entries_are_dropped() {
    let list = parse_allow_list("111,abc,22x2,-3,1 1,333");
    assert_eq!(list, vec![111, 333]);
}

#[test]
fn zero_is_not_a_channel_identifier() {
    let list = parse_allow_list("0,111,+0");
    assert_eq!(list, vec![111]);
}

#[test]
fn leading_plus_and_leading_zeros_are_accepted() {
    let list = parse_allow_list("+5,007");
    assert_eq!(list, vec![5, 7]);
}

#[test]
fn lone_plus_is_dropped() {
    let list = parse_allow_list("+,111");
    assert_eq!(list, vec![111]);
}

#[test]
fn largest_identifier_is_kept_and_overflow_is_dropped() {
    let list = parse_allow_list("18446744073709551615,18446744073709551616");
    assert_eq!(list, vec![u64::MAX]);
}

#[test]
fn whitespace_only_entry_is_dropped() {
    let list = parse_allow_list("  , 111");
    assert_eq!(list, vec![111]);
}

#[test]
fn empty_list_allows_every_channel() {
    let list = parse_allow_list("");
    assert!(channel_allowed(&list, 1));
    assert!(channel_allowed(&list, 333));
    assert!(channel_allowed(&list, u64::MAX));
}

#[test]
fn nonempty_list_allows_only_members() {
    let list = parse_allow_list("111,222");
    assert!(channel_allowed(&list, 111));
    assert!(channel_allowed(&list, 222));
    assert!(!channel_allowed(&list, 333));
}
