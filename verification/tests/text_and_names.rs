use gauntlet::names::Dungeon;
use gauntlet::text::{greeting_parts, split_char, substitute, to_decimal};

#[test]
fn decimal_rendering_exact() {
    assert_eq!(to_decimal(0), "0");
    assert_eq!(to_decimal(7), "7");
    assert_eq!(to_decimal(10), "10");
    assert_eq!(to_decimal(907), "907");
    assert_eq!(to_decimal(18446744073709551615), "18446744073709551615");
}

#[test]
fn split_keeps_empty_pieces() {
    assert_eq!(split_char("a b", ' '), vec!["a", "b"]);
    assert_eq!(split_char("", ' '), vec![""]);
    assert_eq!(split_char(" ", ' '), vec!["", ""]);
    assert_eq!(split_char("a  b", ' '), vec!["a", "", "b"]);
    assert_eq!(split_char("Hello, {}! Nice to meet you!", ' '), vec![
        "Hello,", "{}!", "Nice", "to", "meet", "you!"
    ]);
}

#[test]
fn substitute_replaces_every_placeholder() {
    assert_eq!(substitute("Hey {}!", "Ann"), "Hey Ann!");
    assert_eq!(substitute("{}{}", "ab"), "abab");
    assert_eq!(substitute("{ }", "x"), "{ }");
    assert_eq!(substitute("", "x"), "");
    assert_eq!(substitute("no placeholder", "x"), "no placeholder");
    assert_eq!(substitute("{}", "Zoe"), "Zoe");
}

#[test]
fn greeting_joins_substituted_parts() {
    let parts: Vec<String> = vec!["Hello,".into(), "{}!".into(), "Nice".into()];
    assert_eq!(greeting_parts(&parts, 0, "Ann"), "");
    assert_eq!(greeting_parts(&parts, 2, "Ann"), "Hello, Ann!");
    assert_eq!(greeting_parts(&parts, 3, "Ann"), "Hello, Ann! Nice");
}

#[test]
fn hash_zero_names_first_members() {
    let d = Dungeon::from_hash(0, 1);
    assert_eq!(d.get_name(), "Cave of Unremarkable Heaven (lv. 1)");
}

#[test]
fn hash_fields_are_independent_bytes() {
    // Bytes 1, 2 and 3 of the hash drive the three fields: 1 % 48, 2 % 31
    // and 3 % 24 pick the second, third and fourth members.
    let d = Dungeon::from_hash(0x030201, 5);
    assert_eq!(d.get_name(), "Ravine of Lingering Light (lv. 5)");
}

#[test]
fn name_generation_is_total_at_the_edges() {
    for hash in [0u64, 1, 0xFF, 0xFFFF, 0xFFFFFF, u64::MAX, 0x8000000000000000] {
        let d = Dungeon::from_hash(hash, 3);
        let name = d.get_name();
        assert!(name.ends_with("(lv. 3)"));
        assert!(name.contains(" of "));
    }
    // Reduction is modular: only the low three bytes matter.
    let a = Dungeon::from_hash(0x00FFFFFF, 2);
    let b = Dungeon::from_hash(0xABFFFFFF, 2);
    assert_eq!(a.get_name(), b.get_name());
}
