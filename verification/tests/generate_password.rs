use passgen::generate_password::{
    character_set, generate_password, generate_pin_number, ALPHABETS, NUMBERS, SYMBOLS,
};
use passgen::random_source::RandomSource;
use rand::{rngs::StdRng, SeedableRng};

#[test]
fn test_password() {
    let mut rng = RandomSource::new(StdRng::seed_from_u64(0));
    let length = 10;

    let alphabets = generate_password(&mut rng, length, false, false);
    assert!(alphabets.chars().all(|x| ALPHABETS.contains(&x)));

    let alphanumeric = generate_password(&mut rng, length, true, false);
    assert!(alphanumeric.chars().any(|x| NUMBERS.contains(&x)));

    let symbols = generate_password(&mut rng, length, false, true);
    assert!(symbols.chars().any(|x| SYMBOLS.contains(&x)));

    let alphanumeric_symbols = generate_password(&mut rng, length, true, true);
    assert!(alphanumeric_symbols
        .chars()
        .any(|x| NUMBERS.contains(&x) || SYMBOLS.contains(&x)));
}

#[test]
fn test_password_length() {
    let mut rng = RandomSource::new(StdRng::seed_from_u64(0));
    let length = 10;

    let password = generate_password(&mut rng, length, true, true);

    assert_eq!(password.len(), length as usize);
}

#[test]
fn test_pin_number() {
    let mut rng = RandomSource::new(StdRng::seed_from_u64(0));
    let length = 6;

    let pin = generate_pin_number(&mut rng, length);

    assert!(pin.chars().all(|x| NUMBERS.contains(&x)));
}

#[test]
fn test_pin_number_length() {
    let mut rng = RandomSource::new(StdRng::seed_from_u64(0));
    let length = 6;

    let pin = generate_pin_number(&mut rng, length);

    assert_eq!(pin.len(), length as usize);
}

#[test]
fn password_has_the_length_asked_for() {
    for seed in 0..4u64 {
        let mut rng = RandomSource::new(StdRng::seed_from_u64(seed));
        for length in (0..=100u32).chain([1000]) {
            for (numbers, symbols) in [(false, false), (true, false), (false, true), (true, true)] {
                let password = generate_password(&mut rng, length, numbers, symbols);
                assert_eq!(password.chars().count(), length as usize);
                assert_eq!(password.len(), length as usize);
            }
        }
    }
}

#[test]
fn password_characters_come_from_the_classes_in_use() {
    let mut rng = RandomSource::new(StdRng::seed_from_u64(7));
    for length in 8..=100u32 {
        for (numbers, symbols) in [(false, false), (true, false), (false, true), (true, true)] {
            let password = generate_password(&mut rng, length, numbers, symbols);
            for c in password.chars() {
                let allowed = ALPHABETS.contains(&c)
                    || (numbers && NUMBERS.contains(&c))
                    || (symbols && SYMBOLS.contains(&c));
                assert!(allowed, "{:?} in {:?}", c, password);
            }
        }
    }
}

#[test]
fn password_without_numbers_and_symbols_is_letters_only() {
    let mut rng = RandomSource::new(StdRng::seed_from_u64(0));
    let password = generate_password(&mut rng, 10, false, false);
    assert_eq!(password.chars().count(), 10);
    assert!(password.chars().all(|c| c.is_ascii_alphabetic()));
}

#[test]
fn pin_is_digits_of_the_length_asked_for() {
    let mut rng = RandomSource::new(StdRng::seed_from_u64(3));
    for length in (0..=12u32).chain([500]) {
        let pin = generate_pin_number(&mut rng, length);
        assert_eq!(pin.len(), length as usize);
        assert!(pin.chars().all(|c| ('0'..='9').contains(&c)));
    }
}

#[test]
fn same_seed_gives_the_same_password_and_pin() {
    for (numbers, symbols) in [(false, false), (true, false), (false, true), (true, true)] {
        let mut first = RandomSource::new(StdRng::seed_from_u64(42));
        let mut second = RandomSource::new(StdRng::seed_from_u64(42));
        assert_eq!(
            generate_password(&mut first, 64, numbers, symbols),
            generate_password(&mut second, 64, numbers, symbols)
        );
        assert_eq!(generate_pin_number(&mut first, 12), generate_pin_number(&mut second, 12));
    }
}

#[test]
fn different_seeds_give_different_passwords() {
    let mut first = RandomSource::new(StdRng::seed_from_u64(1));
    let mut second = RandomSource::new(StdRng::seed_from_u64(2));
    assert_ne!(
        generate_password(&mut first, 100, true, true),
        generate_password(&mut second, 100, true, true)
    );
    assert_ne!(generate_pin_number(&mut first, 12), generate_pin_number(&mut second, 12));
}

#[test]
fn one_more_class_takes_about_a_fifth_of_the_characters() {
    let length = 100_000u32;
    let mut rng = RandomSource::new(StdRng::seed_from_u64(0));

    let with_numbers = generate_password(&mut rng, length, true, false);
    let digits = with_numbers.chars().filter(|c| NUMBERS.contains(c)).count() as f64;
    assert!((digits / length as f64 - 0.20).abs() < 0.02);

    let with_symbols = generate_password(&mut rng, length, false, true);
    let symbols = with_symbols.chars().filter(|c| SYMBOLS.contains(c)).count() as f64;
    assert!((symbols / length as f64 - 0.20).abs() < 0.02);
}

#[test]
fn both_classes_take_about_a_fifth_each() {
    let length = 100_000u32;
    let mut rng = RandomSource::new(StdRng::seed_from_u64(0));
    let password = generate_password(&mut rng, length, true, true);
    let letters = password.chars().filter(|c| ALPHABETS.contains(c)).count() as f64;
    let digits = password.chars().filter(|c| NUMBERS.contains(c)).count() as f64;
    let symbols = password.chars().filter(|c| SYMBOLS.contains(c)).count() as f64;
    assert!((letters / length as f64 - 0.60).abs() < 0.02);
    assert!((digits / length as f64 - 0.20).abs() < 0.02);
    assert!((symbols / length as f64 - 0.20).abs() < 0.02);
}

#[test]
fn every_character_of_a_class_is_drawn() {
    let mut rng = RandomSource::new(StdRng::seed_from_u64(5));
    let password = generate_password(&mut rng, 100_000, true, true);
    for c in ALPHABETS.iter().chain(NUMBERS.iter()).chain(SYMBOLS.iter()) {
        assert!(password.contains(*c), "{:?} never drawn", c);
    }
    let pin = generate_pin_number(&mut rng, 10_000);
    for c in NUMBERS.iter() {
        assert!(pin.contains(*c), "{:?} never drawn", c);
    }
}

#[test]
fn character_set_gives_the_classes_in_order() {
    assert_eq!(character_set(false, false, 0), Some(&ALPHABETS[..]));
    assert_eq!(character_set(false, false, 1), None);
    assert_eq!(character_set(true, false, 0), Some(&ALPHABETS[..]));
    assert_eq!(character_set(true, false, 1), Some(&NUMBERS[..]));
    assert_eq!(character_set(true, false, 2), None);
    assert_eq!(character_set(false, true, 1), Some(&SYMBOLS[..]));
    assert_eq!(character_set(false, true, 2), None);
    assert_eq!(character_set(true, true, 0), Some(&ALPHABETS[..]));
    assert_eq!(character_set(true, true, 1), Some(&NUMBERS[..]));
    assert_eq!(character_set(true, true, 2), Some(&SYMBOLS[..]));
    assert_eq!(character_set(true, true, 3), None);
    assert_eq!(character_set(true, true, usize::MAX), None);
}

#[test]
fn classes_are_disjoint_and_of_the_stated_sizes() {
    assert_eq!(ALPHABETS.len(), 52);
    assert_eq!(NUMBERS.len(), 10);
    assert_eq!(SYMBOLS.len(), 32);
    let mut all: Vec<char> = Vec::new();
    all.extend(ALPHABETS.iter());
    all.extend(NUMBERS.iter());
    all.extend(SYMBOLS.iter());
    all.sort();
    all.dedup();
    assert_eq!(all.len(), 94);
    assert!(ALPHABETS.iter().all(|c| c.is_ascii_alphabetic()));
    assert!(NUMBERS.iter().all(|c| c.is_ascii_digit()));
    assert!(SYMBOLS.iter().all(|c| c.is_ascii_punctuation()));
}
