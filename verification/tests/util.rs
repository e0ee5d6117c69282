use anthem::model::reply::get_note_reply;
use anthem::util::decimal::push_decimal;
use anthem::util::decimal::push_signed_decimal;
use anthem::util::decimal::signed_decimal_string;
use anthem::util::id::get_id;
use anthem::util::id::mix_id;
use anthem::util::id_list::find_id;
use anthem::util::id_list::has_no_duplicates;
use anthem::util::id_list::remove_id;

#[test]
fn decimal_of_small_and_large_numbers() {
    let mut text = String::new();
    push_decimal(&mut text, 0);
    assert_eq!(text, "0");
    let mut text = String::from("n=");
    push_decimal(&mut text, 9);
    assert_eq!(text, "n=9");
    let mut text = String::new();
    push_decimal(&mut text, 10);
    assert_eq!(text, "10");
    let mut text = String::new();
    push_decimal(&mut text, 1234567890);
    assert_eq!(text, "1234567890");
    let mut text = String::new();
    push_decimal(&mut text, u64::MAX);
    assert_eq!(text, "18446744073709551615");
}

#[test]
fn signed_decimal_reads_the_bits_as_a_signed_number() {
    assert_eq!(signed_decimal_string(0), "0");
    assert_eq!(signed_decimal_string(42), "42");
    assert_eq!(signed_decimal_string(i64::MAX as u64), "9223372036854775807");
    assert_eq!(signed_decimal_string(1u64 << 63), "-9223372036854775808");
    assert_eq!(signed_decimal_string(u64::MAX), "-1");
    assert_eq!(signed_decimal_string(u64::MAX - 99), "-100");
}

#[test]
fn signed_decimal_agrees_with_the_cast_to_i64() {
    let samples = [
        0u64,
        1,
        9,
        10,
        99,
        100,
        4294967295,
        4294967296,
        9223372036854775806,
        9223372036854775807,
        9223372036854775808,
        9223372036854775809,
        18446744073709551614,
        18446744073709551615,
        0xdead_beef_0000_1234,
    ];
    for id in samples {
        assert_eq!(signed_decimal_string(id), (id as i64).to_string());
        let mut text = String::from("id:");
        push_signed_decimal(&mut text, id);
        assert_eq!(text, format!("id:{}", id as i64));
    }
}

#[test]
fn note_reply_names_pattern_and_generator() {
    assert_eq!(get_note_reply(1, 5), "{ \"patternID\":1,\"generatorID\":5 }");
    assert_eq!(get_note_reply(0, 0), "{ \"patternID\":0,\"generatorID\":0 }");
    assert_eq!(
        get_note_reply(u64::MAX, 1u64 << 63),
        "{ \"patternID\":-1,\"generatorID\":-9223372036854775808 }"
    );
}

#[test]
fn mix_id_joins_high_noise_and_low_clock_bits() {
    assert_eq!(mix_id(0, 0), 0);
    assert_eq!(mix_id(0xffff_ffff_ffff_ffff, 0), 0xffff_ffff_0000_0000);
    assert_eq!(mix_id(0, 0xffff_ffff), 0xffff_ffff);
    assert_eq!(mix_id(0x1234_5678_9abc_def0, 0x1_0000_0007), 0x1234_5678_0000_0007);
    assert_eq!(mix_id(u64::MAX, u128::MAX), u64::MAX);
    assert_eq!(mix_id(0x0000_0001_ffff_ffff, 1u128 << 32), 0x0000_0001_0000_0000);
    assert_eq!(mix_id(7, 1_700_000_000_123_456), (1_700_000_000_123_456u128 % (1 << 32)) as u64);
}

#[test]
fn get_id_draws_identifiers() {
    let drawn: Vec<u64> =
        (0..32).map(|_| get_id().expect("the system gives random bits")).collect();
    let first = drawn[0];
    assert!(drawn.iter().any(|id| *id != first));
}

#[test]
fn remove_id_removes_every_occurrence_and_keeps_order() {
    let mut ids = vec![3, 1, 3, 2, 3];
    remove_id(&mut ids, 3);
    assert_eq!(ids, vec![1, 2]);
    remove_id(&mut ids, 9);
    assert_eq!(ids, vec![1, 2]);
    let mut none: Vec<u64> = Vec::new();
    remove_id(&mut none, 1);
    assert!(none.is_empty());
}

#[test]
fn find_id_gives_the_first_index() {
    assert_eq!(find_id(&vec![4, 5, 6, 5], 5), Some(1));
    assert_eq!(find_id(&vec![4, 5, 6, 5], 4), Some(0));
    assert_eq!(find_id(&vec![4, 5, 6, 5], 7), None);
    assert_eq!(find_id(&Vec::new(), 7), None);
}

#[test]
fn has_no_duplicates_tells_lists_apart() {
    assert!(has_no_duplicates(&Vec::new()));
    assert!(has_no_duplicates(&vec![1]));
    assert!(has_no_duplicates(&vec![3, 1, 2]));
    assert!(!has_no_duplicates(&vec![3, 1, 3]));
    assert!(!has_no_duplicates(&vec![1, 1]));
    assert!(!has_no_duplicates(&vec![1, 2, 3, 4, 4]));
}
