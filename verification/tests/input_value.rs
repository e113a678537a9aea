use args_bar::models::{Encoding, InputParameter, InputValue};

fn default_input_param() -> InputParameter {
    InputParameter {
        name: "test".into(),
        desc: "test desc".into(),
        default: "".into(),
        required: true,
        encoding: Encoding::default(),
    }
}

fn input_of(encoding: Encoding) -> InputValue {
    let mut param = default_input_param();
    param.encoding = encoding;
    InputValue::new(&param)
}

fn type_into(input: &mut InputValue, keys: &str) {
    for key in keys.chars() {
        input.push_char(key);
    }
}

#[test]
fn building_an_input_value() {
    let param = default_input_param();
    let input = InputValue::new(&param);

    assert!(input.buffer().is_empty());
    assert!(!input.has_been_touched());
    assert_eq!(input.param().name, param.name);
}

#[test]
fn new_input_copies_its_parameter() {
    let param = InputParameter {
        name: "copies".into(),
        desc: "how many copies to make".into(),
        default: "1".into(),
        required: false,
        encoding: Encoding::Integer,
    };
    let first = InputValue::new(&param);
    let second = InputValue::new(&param);

    for input in [&first, &second] {
        assert_eq!(input.param().name.as_ref(), "copies");
        assert_eq!(input.param().desc.as_ref(), "how many copies to make");
        assert_eq!(input.param().default.as_ref(), "1");
        assert!(!input.param().required);
        assert!(matches!(input.param().encoding, Encoding::Integer));
        assert_eq!(input.buffer(), "");
    }
}

#[test]
fn cloned_parameter_describes_the_same_field() {
    let param = InputParameter {
        name: "ratio".into(),
        desc: "mixing ratio".into(),
        default: "0.5".into(),
        required: true,
        encoding: Encoding::Numeric,
    };
    let copy = param.clone();

    assert_eq!(copy.name.as_ref(), "ratio");
    assert_eq!(copy.desc.as_ref(), "mixing ratio");
    assert_eq!(copy.default.as_ref(), "0.5");
    assert!(copy.required);
    assert!(matches!(copy.encoding, Encoding::Numeric));
}

#[test]
fn default_value_is_never_typed_in_nor_checked() {
    let mut param = default_input_param();
    param.encoding = Encoding::Integer;
    param.default = "not a number".into();
    let input = InputValue::new(&param);

    assert_eq!(input.buffer(), "");
    assert_eq!(input.param().default.as_ref(), "not a number");
}

#[test]
fn push_char_appends_and_touches() {
    let mut input = input_of(Encoding::String);
    input.push_char('h');
    assert!(input.has_been_touched());
    assert_eq!(input.buffer(), "h");

    input.push_char('é');
    input.push_char(' ');
    input.push_char('.');
    assert_eq!(input.buffer(), "hé .");
}

#[test]
fn rejected_push_leaves_the_buffer_but_still_touches() {
    let mut input = input_of(Encoding::Integer);
    input.push_char('x');
    assert_eq!(input.buffer(), "");
    assert!(input.has_been_touched());

    type_into(&mut input, "12");
    input.push_char('x');
    assert_eq!(input.buffer(), "12");
    input.push_char('x');
    assert_eq!(input.buffer(), "12");
}

#[test]
fn rejected_push_never_changes_any_encoding() {
    let cases = [
        (Encoding::Integer, "42", '-'),
        (Encoding::Numeric, "4.2", '.'),
        (Encoding::Numeric, "4", 'e'),
        (Encoding::Boolean, "", 'x'),
        (Encoding::Boolean, "tr", 'e'),
        (Encoding::Boolean, "true", 'e'),
    ];
    for (encoding, typed, refused) in cases {
        let mut input = input_of(encoding);
        type_into(&mut input, typed);
        assert_eq!(input.buffer(), typed);

        input.push_char(refused);
        assert_eq!(input.buffer(), typed);
        input.push_char(refused);
        assert_eq!(input.buffer(), typed);
    }
}

#[test]
fn pop_char_returns_the_last_character() {
    let mut input = input_of(Encoding::String);
    type_into(&mut input, "abc");

    assert_eq!(input.pop_char(), Some('c'));
    assert_eq!(input.buffer(), "ab");
    assert_eq!(input.pop_char(), Some('b'));
    assert_eq!(input.pop_char(), Some('a'));
    assert_eq!(input.buffer(), "");
    assert_eq!(input.pop_char(), None);
    assert_eq!(input.buffer(), "");
}

#[test]
fn pop_char_on_an_empty_buffer_touches() {
    let mut input = input_of(Encoding::String);
    assert!(!input.has_been_touched());

    assert_eq!(input.pop_char(), None);
    assert!(input.has_been_touched());
    assert_eq!(input.buffer(), "");
}

#[test]
fn popped_buffer_goes_on_where_it_was() {
    let mut input = input_of(Encoding::Boolean);
    type_into(&mut input, "fal");
    assert_eq!(input.pop_char(), Some('l'));
    assert_eq!(input.buffer(), "fa");

    input.push_char('s');
    assert_eq!(input.buffer(), "fa");
    type_into(&mut input, "lse");
    assert_eq!(input.buffer(), "false");

    let mut input = input_of(Encoding::Numeric);
    type_into(&mut input, "3.");
    assert_eq!(input.pop_char(), Some('.'));
    type_into(&mut input, "1.4");
    assert_eq!(input.buffer(), "31.4");
}

#[test]
fn touch_marks_without_editing_and_twice_is_once() {
    let mut input = input_of(Encoding::Integer);
    assert!(!input.has_been_touched());

    input.touch();
    assert!(input.has_been_touched());
    assert_eq!(input.buffer(), "");

    input.touch();
    assert!(input.has_been_touched());
    assert_eq!(input.buffer(), "");
}

#[test]
fn reset_restores_the_initial_state() {
    let mut input = input_of(Encoding::Numeric);
    type_into(&mut input, "12.5");
    assert_eq!(input.buffer(), "12.5");
    assert!(input.has_been_touched());

    input.reset();
    assert_eq!(input.buffer(), "");
    assert!(!input.has_been_touched());
    assert_eq!(input.param().name.as_ref(), "test");
    assert!(matches!(input.param().encoding, Encoding::Numeric));

    type_into(&mut input, ".5");
    assert_eq!(input.buffer(), ".5");
}

#[test]
fn reset_of_an_untouched_or_merely_touched_input() {
    let mut input = input_of(Encoding::String);
    input.reset();
    assert_eq!(input.buffer(), "");
    assert!(!input.has_been_touched());

    input.touch();
    input.reset();
    assert_eq!(input.buffer(), "");
    assert!(!input.has_been_touched());
}

#[test]
fn boolean_field_spells_false_and_then_takes_nothing() {
    let mut input = input_of(Encoding::Boolean);
    let mut seen = Vec::new();
    for key in ['f', 'a', 'l', 's', 'e'] {
        input.push_char(key);
        seen.push(input.buffer().to_string());
    }
    assert_eq!(seen, ["f", "fa", "fal", "fals", "false"]);

    for key in ['e', 'f', 't', 's', ' ', '0', 'é'] {
        input.push_char(key);
        assert_eq!(input.buffer(), "false");
    }
}

#[test]
fn boolean_field_spells_true_and_then_takes_nothing() {
    let mut input = input_of(Encoding::Boolean);
    type_into(&mut input, "true");
    assert_eq!(input.buffer(), "true");

    for key in ['e', 'f', 't', 'r', 'u'] {
        input.push_char(key);
        assert_eq!(input.buffer(), "true");
    }
}

#[test]
fn numeric_field_takes_one_decimal_point() {
    let mut input = input_of(Encoding::Numeric);
    input.push_char('1');
    input.push_char('.');
    input.push_char('5');
    assert_eq!(input.buffer(), "1.5");

    input.push_char('.');
    assert_eq!(input.buffer(), "1.5");
}

#[test]
fn typing_junk_into_a_boolean_field_only_ever_spells_a_word() {
    let words = ["false", "true"];
    let runs = [
        "xftarlusee",
        "ttrruuee",
        "f a l s e",
        "tfalse",
        "falsetrue",
        "eurt",
        "",
    ];
    for keys in runs {
        let mut input = input_of(Encoding::Boolean);
        for key in keys.chars() {
            input.push_char(key);
            let buffer = input.buffer();
            assert!(words.iter().any(|word| word.starts_with(buffer)));
        }
    }

    let mut input = input_of(Encoding::Boolean);
    type_into(&mut input, "xftarlusee");
    assert_eq!(input.buffer(), "false");

    let mut input = input_of(Encoding::Boolean);
    type_into(&mut input, "tfalse");
    assert_eq!(input.buffer(), "t");
}

#[test]
fn typing_junk_into_a_numeric_field_keeps_digits_and_one_point() {
    let mut input = input_of(Encoding::Numeric);
    type_into(&mut input, "a1.b2.c3..4-");
    assert_eq!(input.buffer(), "1.234");

    let mut input = input_of(Encoding::Numeric);
    type_into(&mut input, "..1");
    assert_eq!(input.buffer(), ".1");
}
