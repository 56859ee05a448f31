use mach_backend::{name_for, Id};

#[test]
fn name_for_first_identifier_is_a() {
    assert_eq!(name_for(Id(1)), "A");
}

#[test]
fn name_for_second_identifier_is_b() {
    assert_eq!(name_for(Id(2)), "B");
}

#[test]
fn name_for_last_single_letter_is_z() {
    assert_eq!(name_for(Id(26)), "Z");
}

#[test]
fn name_for_second_cycle_doubles_the_letter() {
    assert_eq!(name_for(Id(27)), "AA");
    assert_eq!(name_for(Id(28)), "BB");
    assert_eq!(name_for(Id(52)), "ZZ");
}

#[test]
fn name_for_third_cycle_triples_the_letter() {
    assert_eq!(name_for(Id(53)), "AAA");
    assert_eq!(name_for(Id(78)), "ZZZ");
    assert_eq!(name_for(Id(79)), "AAAA");
}

#[test]
fn name_for_is_not_spreadsheet_numbering() {
    // Spreadsheet columns would call 28 "AB"; here the letter is repeated.
    assert_ne!(name_for(Id(28)), "AB");
    assert_eq!(name_for(Id(28)), "BB");
}

#[test]
fn name_for_gives_the_same_name_every_time() {
    for n in 1..200usize {
        assert_eq!(name_for(Id(n)), name_for(Id(n)));
    }
}

#[test]
fn name_for_follows_the_formula() {
    for n in 1..500usize {
        let letter = (b'A' + ((n - 1) % 26) as u8) as char;
        let expected: String = std::iter::repeat(letter).take((n - 1) / 26 + 1).collect();
        assert_eq!(name_for(Id(n)), expected);
    }
}

#[test]
fn name_for_gives_different_identifiers_different_names() {
    let names: Vec<String> = (1..300usize).map(|n| name_for(Id(n))).collect();
    for i in 0..names.len() {
        for j in (i + 1)..names.len() {
            assert_ne!(names[i], names[j]);
        }
    }
}

#[test]
fn name_for_appends_one_letter_at_a_time() {
    // A name of five letters has five characters, each the same.
    let name = name_for(Id(4 * 26 + 3));
    assert_eq!(name.chars().count(), 5);
    assert!(name.chars().all(|c| c == 'C'));
}
