use rcli::{arrange_password, check_policy, generate_password, process_genpass, GenPassError, PasswordPolicy};

const UPPER: &str = "ABCDEFGHJKLMNPQRSTUVWXYZ";
const LOWER: &str = "abcdefghijkmnpqrstuvwxyz";
const NUMBER: &str = "23456789";
const SYMBOL: &str = "!@#$%^&*_";

fn policy(length: u8, upper: bool, lower: bool, number: bool, symbol: bool) -> PasswordPolicy {
    PasswordPolicy { length, upper, lower, number, symbol }
}

fn count_in(p: &str, set: &str) -> usize {
    p.chars().filter(|c| set.contains(*c)).count()
}

#[test]
fn twelve_with_all_classes() {
    for _ in 0..50 {
        let g = process_genpass(12, false, false, false, false).unwrap();
        assert_eq!(g.password.chars().count(), 12);
        assert!(count_in(&g.password, UPPER) >= 1);
        assert!(count_in(&g.password, LOWER) >= 1);
        assert!(count_in(&g.password, NUMBER) >= 1);
        assert!(count_in(&g.password, SYMBOL) >= 1);
        assert!(g.score <= 4);
    }
}

#[test]
fn only_enabled_classes_appear() {
    for _ in 0..50 {
        let p = generate_password(&policy(20, false, true, true, false)).unwrap();
        assert_eq!(p.len(), 20);
        assert_eq!(count_in(&p, UPPER), 0);
        assert_eq!(count_in(&p, SYMBOL), 0);
        assert!(count_in(&p, LOWER) >= 1);
        assert!(count_in(&p, NUMBER) >= 1);
        assert_eq!(count_in(&p, LOWER) + count_in(&p, NUMBER), 20);
    }
}

#[test]
fn length_equal_to_class_count() {
    let p = generate_password(&policy(4, true, true, true, true)).unwrap();
    assert_eq!(count_in(&p, UPPER), 1);
    assert_eq!(count_in(&p, LOWER), 1);
    assert_eq!(count_in(&p, NUMBER), 1);
    assert_eq!(count_in(&p, SYMBOL), 1);
}

#[test]
fn single_class() {
    let p = generate_password(&policy(255, false, false, false, true)).unwrap();
    assert_eq!(count_in(&p, SYMBOL), 255);
}

#[test]
fn too_short_is_a_configuration_error() {
    assert_eq!(
        generate_password(&policy(3, true, true, true, true)),
        Err(GenPassError::TooShort { length: 3, required: 4 })
    );
    assert_eq!(
        check_policy(&policy(1, true, false, true, false)),
        Err(GenPassError::TooShort { length: 1, required: 2 })
    );
    assert!(matches!(
        process_genpass(0, false, true, true, true),
        Err(GenPassError::TooShort { length: 0, required: 1 })
    ));
}

#[test]
fn no_class_is_a_configuration_error() {
    assert_eq!(check_policy(&policy(8, false, false, false, false)), Err(GenPassError::NoClassEnabled));
    assert!(matches!(process_genpass(8, true, true, true, true), Err(GenPassError::NoClassEnabled)));
}

#[test]
fn class_count_on_success() {
    assert_eq!(check_policy(&policy(16, true, false, true, true)), Ok(3));
}

#[test]
fn strength_of_long_password_is_high() {
    let g = process_genpass(32, false, false, false, false).unwrap();
    assert_eq!(g.score, 4);
}

#[test]
fn arrangement_follows_the_order() {
    let seeds = vec!['A', 'b'];
    let fills = vec!['7', '#', 'c'];
    let p = arrange_password(&seeds, &fills, &vec![4, 0, 3, 1, 2]).unwrap();
    assert_eq!(p, "cA#b7");
    let p = arrange_password(&seeds, &fills, &vec![0, 1, 2, 3, 4]).unwrap();
    assert_eq!(p, "Ab7#c");
}

#[test]
fn arrangement_rejects_a_position_past_the_end() {
    let seeds = vec!['A'];
    let fills = vec!['2'];
    assert_eq!(arrange_password(&seeds, &fills, &vec![1, 2]), None);
    assert_eq!(arrange_password(&seeds, &fills, &vec![]), Some(String::new()));
}
