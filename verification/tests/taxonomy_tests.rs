use error_code::fingerprint::fingerprint;
use error_code::taxonomy::{process_error_info, Shape, TaxonomyDescriptor, VariantDescriptor};

fn my_error() -> TaxonomyDescriptor {
    TaxonomyDescriptor::new("MyError", "http::StatusCode", "01")
        .with_variant(
            VariantDescriptor::new("InvalidCommand", Shape::Tuple).with_code("IC").with_app_code("200"),
        )
        .with_variant(
            VariantDescriptor::new("InvalidArgument", Shape::Tuple)
                .with_code("IA")
                .with_app_code("400")
                .with_client_msg("friendly message"),
        )
        .with_variant(VariantDescriptor::new("RespError", Shape::Struct).with_code("RE").with_app_code("500"))
        .with_variant(VariantDescriptor::new("Unavailable", Shape::Unit))
}

#[test]
fn descriptor_holds_what_was_configured() {
    let taxonomy = my_error();
    assert_eq!(taxonomy.name, "MyError");
    assert_eq!(taxonomy.app_type, "http::StatusCode");
    assert_eq!(taxonomy.prefix, "01");
    assert_eq!(taxonomy.variants.len(), 4);
    assert_eq!(taxonomy.variants[1].name, "InvalidArgument");
    assert_eq!(taxonomy.variants[1].shape, Shape::Tuple);
    assert_eq!(taxonomy.variants[1].code, "IA");
    assert_eq!(taxonomy.variants[1].app_code, "400");
    assert_eq!(taxonomy.variants[1].client_msg, "friendly message");
}

#[test]
fn unset_fields_default_to_empty() {
    let variant = VariantDescriptor::new("Unavailable", Shape::Unit);
    assert_eq!(variant.name, "Unavailable");
    assert_eq!(variant.code, "");
    assert_eq!(variant.app_code, "");
    assert_eq!(variant.client_msg, "");
}

#[test]
fn patterns_follow_the_shape() {
    let taxonomy = my_error();
    assert_eq!(taxonomy.variants[0].pattern("MyError"), "MyError::InvalidCommand(..)");
    assert_eq!(taxonomy.variants[2].pattern("MyError"), "MyError::RespError{..}");
    assert_eq!(taxonomy.variants[3].pattern("MyError"), "MyError::Unavailable");
}

#[test]
fn code_is_prefix_then_variant_code() {
    let taxonomy = my_error();
    assert_eq!(taxonomy.code_of(0), "01IC");
    assert_eq!(taxonomy.code_of(1), "01IA");
    assert_eq!(taxonomy.code_of(2), "01RE");
    assert_eq!(taxonomy.code_of(3), "01");
}

#[test]
fn generator_gives_one_arm_per_variant() {
    let taxonomy = my_error();
    let arms = process_error_info(&taxonomy);
    assert_eq!(arms.len(), 4);
    assert_eq!(arms[0].pattern, "MyError::InvalidCommand(..)");
    assert_eq!(arms[0].app_code, "200");
    assert_eq!(arms[0].code, "01IC");
    assert_eq!(arms[0].client_msg, "");
    assert_eq!(arms[1].pattern, "MyError::InvalidArgument(..)");
    assert_eq!(arms[1].app_code, "400");
    assert_eq!(arms[1].code, "01IA");
    assert_eq!(arms[1].client_msg, "friendly message");
    assert_eq!(arms[2].pattern, "MyError::RespError{..}");
    assert_eq!(arms[2].code, "01RE");
    assert_eq!(arms[3].pattern, "MyError::Unavailable");
    assert_eq!(arms[3].app_code, "");
    assert_eq!(arms[3].code, "01");
}

#[test]
fn generator_of_empty_taxonomy_gives_no_arm() {
    let taxonomy = TaxonomyDescriptor::new("Never", "u16", "00");
    assert!(process_error_info(&taxonomy).is_empty());
    let arm = my_error().arm(1);
    assert_eq!(arm.code, "01IA");
}

#[test]
fn names_are_checked_for_uniqueness() {
    assert!(my_error().has_unique_names());
    assert!(TaxonomyDescriptor::new("Never", "u16", "00").has_unique_names());
    let twice = my_error().with_variant(VariantDescriptor::new("InvalidCommand", Shape::Unit));
    assert!(!twice.has_unique_names());
}

#[test]
fn duplicate_codes_are_not_rejected() {
    let taxonomy = TaxonomyDescriptor::new("E", "u16", "01")
        .with_variant(VariantDescriptor::new("A", Shape::Unit).with_code("X"))
        .with_variant(VariantDescriptor::new("B", Shape::Unit).with_code("X"));
    assert!(taxonomy.has_unique_names());
    assert_eq!(taxonomy.code_of(0), taxonomy.code_of(1));
    assert_eq!(process_error_info(&taxonomy).len(), 2);
}

#[test]
fn find_gives_the_tag_of_a_name() {
    let taxonomy = my_error();
    assert_eq!(taxonomy.find("InvalidCommand"), Some(0));
    assert_eq!(taxonomy.find("RespError"), Some(2));
    assert_eq!(taxonomy.find("Unavailable"), Some(3));
    assert_eq!(taxonomy.find("Missing"), None);
    assert_eq!(taxonomy.find(""), None);
}

#[test]
fn classify_builds_the_record_of_a_variant() {
    let taxonomy = my_error();
    let info = taxonomy.classify(0, 200u16, "Invalid command: hello");
    assert_eq!(info.app_code, 200);
    assert_eq!(info.code, "01IC");
    assert_eq!(info.client_msg(), "Unknown error");
    assert_eq!(info.server_msg, "Invalid command: hello");
    assert_eq!(info.hash, fingerprint("Invalid command: hello"));
    let info = taxonomy.classify(1, 400u16, "Invalid argument: x");
    assert_eq!(info.code, "01IA");
    assert_eq!(info.client_msg(), "friendly message");
}

#[test]
fn classify_ignores_payload_for_the_code() {
    let taxonomy = my_error();
    let first = taxonomy.classify(0, 200u16, "Invalid command: hello");
    let second = taxonomy.classify(0, 200u16, "Invalid command: hellp");
    assert_eq!(first.code, second.code);
    assert_ne!(first.hash, second.hash);
    let again = taxonomy.classify(0, 200u16, "Invalid command: hello");
    assert_eq!(first.hash, again.hash);
    assert_eq!(first.display_string(), again.display_string());
}

#[test]
fn classify_parsed_propagates_the_parse_failure() {
    let taxonomy = TaxonomyDescriptor::new("E", "u16", "01")
        .with_variant(VariantDescriptor::new("Bad", Shape::Unit).with_code("B").with_app_code("not-a-number"))
        .with_variant(VariantDescriptor::new("Good", Shape::Unit).with_code("G").with_app_code("204"));
    let parsed = taxonomy.variants[0].app_code.parse::<u16>();
    let expected = parsed.clone().unwrap_err();
    match taxonomy.classify_parsed(0, parsed, "bad happened") {
        Ok(_) => panic!("a record was built"),
        Err(failure) => assert_eq!(failure, expected),
    }
    let parsed = taxonomy.variants[1].app_code.parse::<u16>();
    let info = taxonomy.classify_parsed(1, parsed, "good happened").unwrap();
    assert_eq!(info.app_code, 204);
    assert_eq!(info.code, "01G");
    assert_eq!(info.server_msg, "good happened");
}

#[test]
fn try_classify_parses_the_configured_app_code() {
    let taxonomy = my_error();
    let parse = |text: &str| text.parse::<u16>();
    let info = taxonomy.try_classify(0, parse, "Invalid command: hello").unwrap();
    assert_eq!(info.app_code, 200);
    assert_eq!(info.code, "01IC");
    assert_eq!(info.client_msg(), "Unknown error");
    assert_eq!(info.hash, fingerprint("Invalid command: hello"));
    let info = taxonomy.try_classify(1, parse, "Invalid argument: x").unwrap();
    assert_eq!(info.app_code, 400);
    assert_eq!(info.client_msg(), "friendly message");
}

#[test]
fn try_classify_returns_the_parse_failure() {
    let taxonomy = my_error();
    let parse = |text: &str| text.parse::<u16>();
    let expected = "".parse::<u16>().unwrap_err();
    match taxonomy.try_classify(3, parse, "Unavailable") {
        Ok(_) => panic!("a record was built"),
        Err(failure) => assert_eq!(failure, expected),
    }
}

#[test]
fn test_darling_data_struct() {
    let info = TaxonomyDescriptor::new("MyError", "http::StatusCode", "01")
        .with_variant(
            VariantDescriptor::new("InvalidCommand", Shape::Tuple).with_code("IC").with_app_code("200"),
        )
        .with_variant(
            VariantDescriptor::new("InvalidArgument", Shape::Tuple)
                .with_code("IA")
                .with_app_code("400")
                .with_client_msg("friendly message"),
        )
        .with_variant(VariantDescriptor::new("RespError", Shape::Tuple).with_code("RE").with_app_code("500"));

    assert_eq!(info.name.to_string(), "MyError");
    assert_eq!(info.prefix, "01");

    let code = process_error_info(&info);

    for arm in code.iter() {
        println!("{} => ({:?}, {:?}, {:?})", arm.pattern, arm.app_code, arm.code, arm.client_msg);
    }
    assert_eq!(code.len(), 3);
    assert_eq!(code[2].pattern, "MyError::RespError(..)");
    assert_eq!(code[2].code, "01RE");
}
