//! Passwords and PIN numbers drawn character by character.
//!
//! A password character is found in two draws: first a character class, in
//! proportion to the weights of [`class_weights`], then a position in that
//! class, uniformly. A PIN digit takes one uniform draw.

use crate::random_source::{
    usable_weights, weight_mass, weights_of, Draw, RandomSource, WeightedChoice,
};
use vstd::prelude::*;

verus! {

/// The letters: lower case, then upper case.
pub const ALPHABETS: [char; 52] = [
    'a', 'b', 'c', 'd', 'e', 'f', 'g', 'h', 'i', 'j', 'k', 'l', 'm', 'n', 'o', 'p', 'q', 'r', 's',
    't', 'u', 'v', 'w', 'x', 'y', 'z', 'A', 'B', 'C', 'D', 'E', 'F', 'G', 'H', 'I', 'J', 'K', 'L',
    'M', 'N', 'O', 'P', 'Q', 'R', 'S', 'T', 'U', 'V', 'W', 'X', 'Y', 'Z',
];

/// The decimal digits.
pub const NUMBERS: [char; 10] = ['0', '1', '2', '3', '4', '5', '6', '7', '8', '9'];

/// The punctuation and symbol characters.
pub const SYMBOLS: [char; 32] = [
    '~', '`', '!', '@', '#', '$', '%', '^', '&', '*', '(', ')', '-', '_', '+', '=', '{', '}', '[',
    ']', '|', '\\', ':', ';', '"', '\'', ',', '<', '>', '.', '/', '?',
];

/// `String::push`: the character is appended and nothing else changes.
pub assume_specification[ String::push ](text: &mut String, c: char)
    ensures
        final(text)@ == old(text)@.push(c),
;

/// The character classes in use, in the order in which they are weighted:
/// letters always, then digits and symbols as asked for.
pub open spec fn character_sets(numbers: bool, symbols: bool) -> Seq<Seq<char>> {
    if numbers && symbols {
        seq![ALPHABETS@, NUMBERS@, SYMBOLS@]
    } else if numbers {
        seq![ALPHABETS@, NUMBERS@]
    } else if symbols {
        seq![ALPHABETS@, SYMBOLS@]
    } else {
        seq![ALPHABETS@]
    }
}

/// The weight of each class of [`character_sets`]: letters alone take all of
/// it, with one more class the split is 8 to 2, with both it is 6, 2 and 2.
pub open spec fn class_weights(numbers: bool, symbols: bool) -> Seq<i32> {
    if numbers && symbols {
        seq![6i32, 2i32, 2i32]
    } else if numbers || symbols {
        seq![8i32, 2i32]
    } else {
        seq![10i32]
    }
}

/// Whether `c` belongs to a class that the flags put in use.
pub open spec fn in_character_sets(c: char, numbers: bool, symbols: bool) -> bool {
    ||| ALPHABETS@.contains(c)
    ||| numbers && NUMBERS@.contains(c)
    ||| symbols && SYMBOLS@.contains(c)
}

/// Whether the two draws at `2 * position` and `2 * position + 1` are those of
/// one password character: a class drawn with the weights of the flags, then a
/// place in that class.
pub open spec fn character_draws(
    draws: Seq<Draw>,
    position: int,
    numbers: bool,
    symbols: bool,
) -> bool {
    let class = draws[2 * position];
    let place = draws[2 * position + 1];
    &&& class is Weighted
    &&& class->weights == class_weights(numbers, symbols)
    &&& class.in_bounds()
    &&& place is Uniform
    &&& place->low == 0
    &&& place->high == character_sets(numbers, symbols)[class.answer()].len()
    &&& place.in_bounds()
}

/// Whether `draws` are exactly the draws of a password of `length` characters.
pub open spec fn password_draws(draws: Seq<Draw>, length: nat, numbers: bool, symbols: bool) -> bool {
    &&& draws.len() == 2 * length
    &&& forall|position: int|
        0 <= position < length ==> #[trigger] character_draws(draws, position, numbers, symbols)
}

/// The character that the draws at `2 * position` and `2 * position + 1` pick.
pub open spec fn drawn_character(draws: Seq<Draw>, position: int, numbers: bool, symbols: bool) -> char {
    character_sets(numbers, symbols)[draws[2 * position].answer()][draws[2 * position + 1].answer()]
}

/// The password that a list of draws spells.
pub open spec fn password_from_draws(draws: Seq<Draw>, numbers: bool, symbols: bool) -> Seq<char> {
    Seq::new(draws.len() / 2, |position: int| drawn_character(draws, position, numbers, symbols))
}

/// Whether `draws` are exactly the draws of a PIN of `length` digits.
pub open spec fn pin_draws(draws: Seq<Draw>, length: nat) -> bool {
    &&& draws.len() == length
    &&& forall|position: int|
        0 <= position < length ==> #[trigger] draws[position] is Uniform && draws[position]->low
            == 0 && draws[position]->high == 10 && draws[position].in_bounds()
}

/// The PIN that a list of draws spells.
pub open spec fn pin_from_draws(draws: Seq<Draw>) -> Seq<char> {
    Seq::new(draws.len(), |position: int| NUMBERS@[draws[position].answer()])
}

/// The weights of every flag combination describe a distribution whose sum
/// fits the weight type.
pub proof fn lemma_class_weights_usable(numbers: bool, symbols: bool)
    ensures
        class_weights(numbers, symbols).len() == character_sets(numbers, symbols).len(),
        weight_mass(class_weights(numbers, symbols)) == 10,
        usable_weights(class_weights(numbers, symbols)),
{
    let weights = class_weights(numbers, symbols);
    reveal_with_fuel(weight_mass, 4);
    if numbers && symbols {
        assert(weights.drop_last() =~= seq![6i32, 2i32]);
        assert(weights.drop_last().drop_last() =~= seq![6i32]);
        assert(weights.drop_last().drop_last().drop_last() =~= Seq::<i32>::empty());
    } else if numbers || symbols {
        assert(weights.drop_last() =~= seq![8i32]);
        assert(weights.drop_last().drop_last() =~= Seq::<i32>::empty());
    } else {
        assert(weights.drop_last() =~= Seq::<i32>::empty());
    }
}

/// The class at place `class` among those in use, if there is one.
pub fn character_set(numbers: bool, symbols: bool, class: usize) -> (set: Option<&'static [char]>)
    ensures
        set is Some <==> class < character_sets(numbers, symbols).len(),
        set is Some ==> set->0@ == character_sets(numbers, symbols)[class as int],
{
    let mut sets: Vec<&'static [char]> = Vec::new();
    sets.push(&ALPHABETS);
    if numbers {
        sets.push(&NUMBERS);
    }
    if symbols {
        sets.push(&SYMBOLS);
    }
    if class < sets.len() {
        Some(sets[class])
    } else {
        None
    }
}

/// Generates a password of `length` characters: letters, with digits if
/// `numbers` and symbols if `symbols` is set.
///
/// For each character the source is asked for a class, with the weights of
/// [`class_weights`], and then for a place in that class; the character at
/// that place is written. Nothing else is drawn.
pub fn generate_password(
    rng: &mut RandomSource,
    length: u32,
    numbers: bool,
    symbols: bool,
) -> (password: String)
    ensures
        password@.len() == length,
        final(rng).continues(old(rng)),
        password_draws(final(rng).draws_since(old(rng)), length as nat, numbers, symbols),
        password@ == password_from_draws(final(rng).draws_since(old(rng)), numbers, symbols),
        forall|i: int|
            0 <= i < password@.len() ==> in_character_sets(#[trigger] password@[i], numbers, symbols),
        !numbers && !symbols ==> forall|i: int|
            0 <= i < password@.len() ==> ALPHABETS@.contains(#[trigger] password@[i]),
{
    let weights: Vec<i32> = if numbers && symbols {
        vec![6, 2, 2]
    } else if numbers || symbols {
        vec![8, 2]
    } else {
        vec![10]
    };
    proof {
        assert(weights@ =~= class_weights(numbers, symbols));
        lemma_class_weights_usable(numbers, symbols);
    }
    let weighted_dist = WeightedChoice::new(&weights).unwrap();

    let mut password = String::new();
    let ghost before = rng.draws();
    let mut written: u32 = 0;
    while written < length
        invariant
            written <= length,
            before == old(rng).draws(),
            weights_of(weighted_dist) == class_weights(numbers, symbols),
            password@.len() == written,
            before.is_prefix_of(rng.draws()),
            password_draws(rng.draws().skip(before.len() as int), written as nat, numbers, symbols),
            password@ == password_from_draws(rng.draws().skip(before.len() as int), numbers, symbols),
            forall|i: int|
                0 <= i < password@.len() ==> in_character_sets(
                    #[trigger] password@[i],
                    numbers,
                    symbols,
                ),
        decreases length - written,
    {
        let ghost made = rng.draws().skip(before.len() as int);
        let ghost spelled = password@;
        proof {
            lemma_class_weights_usable(numbers, symbols);
        }
        let class = rng.weighted_index(&weighted_dist);
        let selected_set = character_set(numbers, symbols, class).unwrap();
        let index = rng.uniform(0, selected_set.len());
        let c = selected_set[index];
        password.push(c);
        written = written + 1;
        proof {
            let now = rng.draws().skip(before.len() as int);
            let class_draw = Draw::Weighted {
                weights: class_weights(numbers, symbols),
                index: class as int,
            };
            let place_draw = Draw::Uniform {
                low: 0,
                high: selected_set@.len() as int,
                value: index as int,
            };
            assert(now =~= made.push(class_draw).push(place_draw));
            assert forall|position: int| 0 <= position < written implies #[trigger] character_draws(
                now,
                position,
                numbers,
                symbols,
            ) by {
                if position < written - 1 {
                    assert(character_draws(made, position, numbers, symbols));
                }
            }
            assert forall|position: int| 0 <= position < written implies password@[position]
                == drawn_character(now, position, numbers, symbols) by {
                if position < written - 1 {
                    assert(spelled[position] == drawn_character(made, position, numbers, symbols));
                }
            }
            assert(password@ =~= password_from_draws(now, numbers, symbols));
            assert(selected_set@.contains(c));
        }
    }
    proof {
        if !numbers && !symbols {
            assert forall|i: int| 0 <= i < password@.len() implies ALPHABETS@.contains(
                #[trigger] password@[i],
            ) by {
                assert(in_character_sets(password@[i], numbers, symbols));
            }
        }
    }
    password
}

/// Generates a PIN of `length` decimal digits.
///
/// For each digit the source is asked once for a place among the ten digits;
/// the digit at that place is written. Nothing else is drawn.
pub fn generate_pin_number(rng: &mut RandomSource, length: u32) -> (pin: String)
    ensures
        pin@.len() == length,
        final(rng).continues(old(rng)),
        pin_draws(final(rng).draws_since(old(rng)), length as nat),
        pin@ == pin_from_draws(final(rng).draws_since(old(rng))),
        forall|i: int| 0 <= i < pin@.len() ==> '0' <= #[trigger] pin@[i] <= '9',
{
    let mut pin = String::new();
    let ghost before = rng.draws();
    let mut written: u32 = 0;
    while written < length
        invariant
            written <= length,
            before == old(rng).draws(),
            pin@.len() == written,
            before.is_prefix_of(rng.draws()),
            pin_draws(rng.draws().skip(before.len() as int), written as nat),
            pin@ == pin_from_draws(rng.draws().skip(before.len() as int)),
            forall|i: int| 0 <= i < pin@.len() ==> '0' <= #[trigger] pin@[i] <= '9',
        decreases length - written,
    {
        let ghost made = rng.draws().skip(before.len() as int);
        let index = rng.gen_range(0, NUMBERS.len());
        pin.push(NUMBERS[index]);
        written = written + 1;
        proof {
            let now = rng.draws().skip(before.len() as int);
            assert(now =~= made.push(Draw::Uniform { low: 0, high: 10, value: index as int }));
            assert(pin@ =~= pin_from_draws(now));
        }
    }
    pin
}

/// Whether `c` is one of the 32 punctuation characters of ASCII.
pub open spec fn is_ascii_punctuation(c: char) -> bool {
    ||| '!' <= c <= '/'
    ||| ':' <= c <= '@'
    ||| '[' <= c <= '`'
    ||| '{' <= c <= '~'
}

/// The three classes are the ASCII letters, the decimal digits and the ASCII
/// punctuation characters. None is empty and no character is in two of them.
pub proof fn lemma_character_classes(c: char)
    ensures
        ALPHABETS@.len() == 52,
        NUMBERS@.len() == 10,
        SYMBOLS@.len() == 32,
        ALPHABETS@.contains(c) <==> ('a' <= c <= 'z' || 'A' <= c <= 'Z'),
        NUMBERS@.contains(c) <==> '0' <= c <= '9',
        SYMBOLS@.contains(c) <==> is_ascii_punctuation(c),
        !(ALPHABETS@.contains(c) && NUMBERS@.contains(c)),
        !(ALPHABETS@.contains(c) && SYMBOLS@.contains(c)),
        !(NUMBERS@.contains(c) && SYMBOLS@.contains(c)),
{
    if 'a' <= c <= 'z' {
        assert(ALPHABETS@[c as int - 'a' as int] == c);
    }
    if 'A' <= c <= 'Z' {
        assert(ALPHABETS@[c as int - 'A' as int + 26] == c);
    }
    if '0' <= c <= '9' {
        assert(NUMBERS@[c as int - '0' as int] == c);
    }
    if is_ascii_punctuation(c) {
        lemma_punctuation_is_symbol(c);
    }
}

proof fn lemma_punctuation_is_symbol(c: char)
    requires
        is_ascii_punctuation(c),
    ensures
        SYMBOLS@.contains(c),
{
    let at: int = if c == '~' { 0 } else if c == '`' { 1 } else if c == '!' { 2 } else if c == '@' { 3 }
        else if c == '#' { 4 } else if c == '$' { 5 } else if c == '%' { 6 } else if c == '^' { 7 }
        else if c == '&' { 8 } else if c == '*' { 9 } else if c == '(' { 10 } else if c == ')' { 11 }
        else if c == '-' { 12 } else if c == '_' { 13 } else if c == '+' { 14 } else if c == '=' { 15 }
        else if c == '{' { 16 } else if c == '}' { 17 } else if c == '[' { 18 } else if c == ']' { 19 }
        else if c == '|' { 20 } else if c == '\\' { 21 } else if c == ':' { 22 } else if c == ';' { 23 }
        else if c == '"' { 24 } else if c == '\'' { 25 } else if c == ',' { 26 } else if c == '<' { 27 }
        else if c == '>' { 28 } else if c == '.' { 29 } else if c == '/' { 30 } else { 31 };
    assert(SYMBOLS@[at] == c);
}

/// No character stands twice in a class.
pub proof fn lemma_classes_have_no_repeats()
    ensures
        ALPHABETS@.no_duplicates(),
        NUMBERS@.no_duplicates(),
        SYMBOLS@.no_duplicates(),
{
}

/// Whether two lists of draws hold the same answers in the same order.
pub open spec fn same_answers(first: Seq<Draw>, second: Seq<Draw>) -> bool {
    &&& first.len() == second.len()
    &&& forall|at: int| 0 <= at < first.len() ==> (#[trigger] first[at]).answer() == second[at].answer()
}

/// A password depends on the random source through its answers alone: two
/// runs with the same length and flags in which the source gives the same
/// answers make the same requests and write the same password.
pub proof fn lemma_password_follows_answers(
    first: Seq<Draw>,
    second: Seq<Draw>,
    length: nat,
    numbers: bool,
    symbols: bool,
)
    requires
        password_draws(first, length, numbers, symbols),
        password_draws(second, length, numbers, symbols),
        same_answers(first, second),
    ensures
        first == second,
        password_from_draws(first, numbers, symbols) == password_from_draws(second, numbers, symbols),
{
    assert forall|at: int| 0 <= at < first.len() implies first[at] == second[at] by {
        let position = at / 2;
        assert(character_draws(first, position, numbers, symbols));
        assert(character_draws(second, position, numbers, symbols));
        assert(first[2 * position].answer() == second[2 * position].answer());
        assert(first[2 * position + 1].answer() == second[2 * position + 1].answer());
    }
    assert(first =~= second);
}

/// A PIN depends on the random source through its answers alone.
pub proof fn lemma_pin_follows_answers(first: Seq<Draw>, second: Seq<Draw>, length: nat)
    requires
        pin_draws(first, length),
        pin_draws(second, length),
        same_answers(first, second),
    ensures
        first == second,
        pin_from_draws(first) == pin_from_draws(second),
{
    assert forall|at: int| 0 <= at < first.len() implies first[at] == second[at] by {
        assert(first[at].answer() == second[at].answer());
    }
    assert(first =~= second);
}

/// Every character that a list of password draws spells belongs to a class in
/// use, and there are as many characters as the draws were made for.
pub proof fn lemma_password_from_draws(draws: Seq<Draw>, length: nat, numbers: bool, symbols: bool)
    requires
        password_draws(draws, length, numbers, symbols),
    ensures
        password_from_draws(draws, numbers, symbols).len() == length,
        forall|i: int|
            0 <= i < length ==> in_character_sets(
                #[trigger] password_from_draws(draws, numbers, symbols)[i],
                numbers,
                symbols,
            ),
{
    lemma_class_weights_usable(numbers, symbols);
    assert forall|i: int| 0 <= i < length implies in_character_sets(
        #[trigger] password_from_draws(draws, numbers, symbols)[i],
        numbers,
        symbols,
    ) by {
        assert(character_draws(draws, i, numbers, symbols));
        let set = character_sets(numbers, symbols)[draws[2 * i].answer()];
        assert(set.contains(set[draws[2 * i + 1].answer()]));
    }
}

} // verus!
