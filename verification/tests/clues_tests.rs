use snake::clues::get_clues;

#[test]
fn exact_guess_is_announced() {
    assert_eq!(get_clues("248", "248").unwrap(), "You got it!");
}

#[test]
fn fermi_and_pico_for_the_reference_example() {
    assert_eq!(get_clues("843", "248").unwrap(), "FermiPico");
}

#[test]
fn no_correct_digit_gives_bagels() {
    assert_eq!(get_clues("555", "123").unwrap(), "Bagels");
}

#[test]
fn two_digits_in_place_give_two_fermi() {
    assert_eq!(get_clues("123", "124").unwrap(), "FermiFermi");
}

#[test]
fn all_digits_misplaced_give_three_pico() {
    assert_eq!(get_clues("312", "123").unwrap(), "PicoPicoPico");
}

#[test]
fn clues_are_sorted_fermi_before_pico() {
    // the Fermi is earned last but still reported first
    assert_eq!(get_clues("213", "123").unwrap(), "FermiPicoPico");
}

#[test]
fn overlong_wrong_guess_has_no_clues() {
    assert_eq!(get_clues("1234", "123"), None);
}

#[test]
fn shorter_guess_is_scored_against_the_prefix() {
    assert_eq!(get_clues("12", "123").unwrap(), "FermiFermi");
}
