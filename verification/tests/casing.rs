use tinkoff_invest_sdk::upper_snake_case_to_pascal_case;

#[test]
fn test_single_word() {
    let word = "WORD";
    let result = upper_snake_case_to_pascal_case(word);
    assert_eq!("Word", result);
}

#[test]
fn test_multiple_words() {
    let input = "RANDOM_VERY_LONG_IDENTIFIER";
    let result = upper_snake_case_to_pascal_case(input);
    assert_eq!("RandomVeryLongIdentifier", result);
}

#[test]
fn category_names_become_type_names() {
    assert_eq!(
        "FailedPrecondition",
        upper_snake_case_to_pascal_case("FAILED_PRECONDITION")
    );
    assert_eq!(
        "ResourceExhausted",
        upper_snake_case_to_pascal_case("RESOURCE_EXHAUSTED")
    );
    assert_eq!("Internal", upper_snake_case_to_pascal_case("INTERNAL"));
}

#[test]
fn heads_stay_as_given_and_tails_lowercase() {
    assert_eq!("Abc", upper_snake_case_to_pascal_case("AbC"));
    assert_eq!("XY", upper_snake_case_to_pascal_case("X_Y"));
    assert_eq!("A", upper_snake_case_to_pascal_case("A"));
}
