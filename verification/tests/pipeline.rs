use bairiak::{
    find_defect, find_first_defect, generate_output, next_action, Action, BairiakError, Defect,
    Enum, EnumSpec, Event,
};

fn one_enum(name: &str, variants: Vec<String>) -> EnumSpec {
    EnumSpec {
        enums: vec![Enum {
            name: String::from(name),
            variants,
        }],
    }
}

fn color() -> EnumSpec {
    one_enum(
        "Color",
        vec![
            String::from("Red"),
            String::from("Green"),
            String::from("Blue"),
        ],
    )
}

fn numbered(count: usize) -> Vec<String> {
    (0..count).map(|i| format!("V{}", i)).collect()
}

const COLOR_OUTPUT: &str = "use bairiak::{Bairiak, BairiakEnum};

#[repr(u8)]
#[allow(dead_code)]
#[derive(Hash, Eq, PartialEq, Debug)]
enum Color {
    Red = 0,
    Green = 1,
    Blue = 2,
}

impl BairiakEnum for Color {
    fn get_zero_bairiak() -> Bairiak {
        Bairiak::U8(0u8)
    }

    fn to_u8(self) -> u8 {
        self as u8
    }
}
";

#[test]
fn a_run_starts_by_reading_the_spec() {
    assert!(matches!(next_action(Event::Started), Action::ReadSpec));
}

#[test]
fn the_text_that_was_read_is_parsed() {
    match next_action(Event::SpecRead(String::from("enums: []"))) {
        Action::ParseSpec(text) => assert_eq!(text, "enums: []"),
        _ => panic!("Expected Action::ParseSpec"),
    }
}

#[test]
fn the_color_spec_is_generated_and_written() {
    match next_action(Event::SpecParsed(color())) {
        Action::WriteOutput(text) => assert_eq!(text, COLOR_OUTPUT),
        _ => panic!("Expected Action::WriteOutput"),
    }
    assert_eq!(generate_output(&color()), Ok(String::from(COLOR_OUTPUT)));
}

#[test]
fn a_run_succeeds_once_the_output_is_written() {
    assert!(matches!(next_action(Event::OutputWritten), Action::Succeed));
}

#[test]
fn an_empty_spec_gives_the_import_line_alone() {
    let spec = EnumSpec { enums: vec![] };
    assert_eq!(
        generate_output(&spec),
        Ok(String::from("use bairiak::{Bairiak, BairiakEnum};\n"))
    );
}

#[test]
fn a_name_that_is_a_digit_fails_with_a_parse_error() {
    let spec = one_enum("1", numbered(3));
    match next_action(Event::SpecParsed(spec)) {
        Action::Fail(error, diagnostic) => {
            assert_eq!(error, BairiakError::ParseBairiakEnumsError);
            assert_eq!(
                diagnostic,
                "Error parsing Bairiak enums\nError: Invalid enum name. Enum name should be in CamelCase."
            );
        }
        _ => panic!("Expected Action::Fail"),
    }
    assert_eq!(
        generate_output(&one_enum("1", numbered(3))),
        Err(BairiakError::ParseBairiakEnumsError)
    );
}

#[test]
fn one_hundred_thirty_variants_fail_citing_the_count_and_the_maximum() {
    let spec = one_enum("Big", numbered(130));
    match next_action(Event::SpecParsed(spec)) {
        Action::Fail(error, diagnostic) => {
            assert_eq!(error, BairiakError::PositionOutOfRangeError);
            assert_eq!(
                diagnostic,
                "Error parsing Bairiak enums\nError: Position out of range: 130. Maximum positions supported is 128."
            );
        }
        _ => panic!("Expected Action::Fail"),
    }
    assert_eq!(
        generate_output(&one_enum("Big", numbered(130))),
        Err(BairiakError::PositionOutOfRangeError)
    );
}

#[test]
fn an_enum_without_variants_fails_with_a_parse_error() {
    match next_action(Event::SpecParsed(one_enum("Empty", vec![]))) {
        Action::Fail(error, diagnostic) => {
            assert_eq!(error, BairiakError::ParseBairiakEnumsError);
            assert_eq!(
                diagnostic,
                "Error parsing Bairiak enums\nError: Enum variants cannot be empty."
            );
        }
        _ => panic!("Expected Action::Fail"),
    }
}

#[test]
fn a_variant_with_a_lowercase_start_fails_with_a_parse_error() {
    let spec = one_enum("Color", vec![String::from("Red"), String::from("green")]);
    match next_action(Event::SpecParsed(spec)) {
        Action::Fail(error, diagnostic) => {
            assert_eq!(error, BairiakError::ParseBairiakEnumsError);
            assert_eq!(
                diagnostic,
                "Error parsing Bairiak enums\nError: Invalid enum variant. Enum variant should be in CamelCase."
            );
        }
        _ => panic!("Expected Action::Fail"),
    }
}

#[test]
fn an_unreadable_spec_fails_with_a_read_error() {
    let cause = String::from("No such file or directory (os error 2)");
    match next_action(Event::SpecUnreadable(cause)) {
        Action::Fail(error, diagnostic) => {
            assert_eq!(error, BairiakError::ReadSpecError);
            assert_eq!(
                diagnostic,
                "Error reading file: No such file or directory (os error 2)"
            );
        }
        _ => panic!("Expected Action::Fail"),
    }
}

#[test]
fn a_malformed_spec_fails_with_a_deserialize_error() {
    let cause = String::from("missing field `enums`");
    match next_action(Event::SpecMalformed(cause)) {
        Action::Fail(error, diagnostic) => {
            assert_eq!(error, BairiakError::DeserializeYamlError);
            assert_eq!(diagnostic, "Error reading file: missing field `enums`");
        }
        _ => panic!("Expected Action::Fail"),
    }
}

#[test]
fn an_output_that_cannot_be_written_fails_with_a_write_error() {
    let cause = String::from("Permission denied (os error 13)");
    match next_action(Event::OutputUnwritable(cause)) {
        Action::Fail(error, diagnostic) => {
            assert_eq!(error, BairiakError::WriteFileError);
            assert_eq!(diagnostic, "Error writing file: Permission denied (os error 13)");
        }
        _ => panic!("Expected Action::Fail"),
    }
}

#[test]
fn find_defect_names_the_first_defect() {
    let enum_of = |name: &str, variants: Vec<String>| Enum {
        name: String::from(name),
        variants,
    };
    assert_eq!(find_defect(&enum_of("Color", numbered(3))), None);
    assert_eq!(find_defect(&enum_of("Color", numbered(127))), None);
    assert_eq!(find_defect(&enum_of("color", vec![])), Some(Defect::EnumName));
    assert_eq!(find_defect(&enum_of("Color", vec![])), Some(Defect::NoVariants));
    assert_eq!(
        find_defect(&enum_of("Color", numbered(128))),
        Some(Defect::TooManyVariants(128))
    );
    assert_eq!(
        find_defect(&enum_of("Color", vec![String::from("V0"), String::from("v1")])),
        Some(Defect::VariantName)
    );
    assert_eq!(
        find_defect(&enum_of("Color", numbered(300))),
        Some(Defect::TooManyVariants(300))
    );
    let mut many = numbered(300);
    many[0] = String::from("bad");
    assert_eq!(find_defect(&enum_of("Color", many)), Some(Defect::VariantName));
    assert_eq!(
        find_defect(&enum_of("color", numbered(300))),
        Some(Defect::EnumName)
    );
}

#[test]
fn find_first_defect_is_that_of_the_first_enum_with_one() {
    let spec = EnumSpec {
        enums: vec![
            Enum {
                name: String::from("Color"),
                variants: numbered(2),
            },
            Enum {
                name: String::from("Shape"),
                variants: vec![],
            },
            Enum {
                name: String::from("shape"),
                variants: numbered(2),
            },
        ],
    };
    assert_eq!(find_first_defect(&spec), Some(Defect::NoVariants));
    assert_eq!(find_first_defect(&color()), None);
    assert_eq!(find_first_defect(&EnumSpec { enums: vec![] }), None);
}

#[test]
fn every_defect_has_its_error_and_its_message() {
    assert_eq!(Defect::EnumName.to_error(), BairiakError::ParseBairiakEnumsError);
    assert_eq!(Defect::NoVariants.to_error(), BairiakError::ParseBairiakEnumsError);
    assert_eq!(Defect::VariantName.to_error(), BairiakError::ParseBairiakEnumsError);
    assert_eq!(
        Defect::TooManyVariants(128).to_error(),
        BairiakError::PositionOutOfRangeError
    );
    assert_eq!(
        Defect::TooManyVariants(4096).message(),
        "Error parsing Bairiak enums\nError: Position out of range: 4096. Maximum positions supported is 128."
    );
}

#[test]
fn a_badly_named_variant_among_too_many_fails_with_a_parse_error() {
    let mut variants = numbered(130);
    variants[0] = String::from("bad");
    match next_action(Event::SpecParsed(one_enum("Big", variants))) {
        Action::Fail(error, diagnostic) => {
            assert_eq!(error, BairiakError::ParseBairiakEnumsError);
            assert_eq!(
                diagnostic,
                "Error parsing Bairiak enums\nError: Invalid enum variant. Enum variant should be in CamelCase."
            );
        }
        _ => panic!("Expected Action::Fail"),
    }
}
