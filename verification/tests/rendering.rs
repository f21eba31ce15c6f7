use halo2_proofs::plonk::Error as PlonkError;
use module_error::halo2::framework_message;
use module_error::ModuleError;
use std::io;

#[test]
fn input_wrong_length_renders_the_length() {
    assert_eq!(ModuleError::InputWrongLength(3).to_string(), "input length is wrong 3");
}

#[test]
fn input_wrong_length_renders_zero() {
    assert_eq!(ModuleError::InputWrongLength(0).to_string(), "input length is wrong 0");
}

#[test]
fn input_wrong_length_renders_several_digits() {
    assert_eq!(ModuleError::InputWrongLength(9).to_string(), "input length is wrong 9");
    assert_eq!(ModuleError::InputWrongLength(10).to_string(), "input length is wrong 10");
    assert_eq!(ModuleError::InputWrongLength(105).to_string(), "input length is wrong 105");
    assert_eq!(
        ModuleError::InputWrongLength(1234567890).to_string(),
        "input length is wrong 1234567890"
    );
}

#[test]
fn input_wrong_length_renders_the_largest_length() {
    assert_eq!(
        ModuleError::InputWrongLength(usize::MAX).to_string(),
        format!("input length is wrong {}", usize::MAX)
    );
}

#[test]
fn wrong_input_type_renders_both_kinds() {
    let e = ModuleError::WrongInputType(String::from("instance"), String::from("advice"));
    assert_eq!(e.to_string(), "wrong input type instance must be advice");
}

#[test]
fn wrong_input_type_keeps_the_order_of_its_kinds() {
    let e = ModuleError::WrongInputType(String::from("advice"), String::from("instance"));
    assert_eq!(e.to_string(), "wrong input type advice must be instance");
}

#[test]
fn wrong_input_type_renders_empty_kinds() {
    let e = ModuleError::WrongInputType(String::new(), String::new());
    assert_eq!(e.to_string(), "wrong input type  must be ");
}

#[test]
fn wrong_input_type_takes_its_kinds_verbatim() {
    let e = ModuleError::WrongInputType(String::from("{0}"), String::from(" must be {1}\n"));
    assert_eq!(e.to_string(), "wrong input type {0} must be  must be {1}\n");
    let e = ModuleError::WrongInputType(String::from("poseïdon"), String::from("多项式"));
    assert_eq!(e.to_string(), "wrong input type poseïdon must be 多项式");
}

#[test]
fn constant_not_assigned_renders_its_fixed_text() {
    assert_eq!(
        ModuleError::ConstantNotAssigned.to_string(),
        "constant was not previously assigned"
    );
}

#[test]
fn halo2_error_renders_the_framework_message_behind_the_tag() {
    assert_eq!(
        ModuleError::Halo2Error(PlonkError::Synthesis).to_string(),
        "[halo2] General synthesis error"
    );
    assert_eq!(
        ModuleError::Halo2Error(PlonkError::ConstraintSystemFailure).to_string(),
        "[halo2] The constraint system is not satisfied"
    );
}

#[test]
fn halo2_error_renders_what_the_framework_displays() {
    let pairs = vec![
        (PlonkError::Synthesis, PlonkError::Synthesis),
        (PlonkError::InvalidInstances, PlonkError::InvalidInstances),
        (PlonkError::BoundsFailure, PlonkError::BoundsFailure),
        (PlonkError::Opening, PlonkError::Opening),
        (PlonkError::InstanceTooLarge, PlonkError::InstanceTooLarge),
        (
            PlonkError::NotEnoughRowsAvailable { current_k: 7 },
            PlonkError::NotEnoughRowsAvailable { current_k: 7 },
        ),
        (
            PlonkError::Transcript(io::Error::new(io::ErrorKind::Other, "short read")),
            PlonkError::Transcript(io::Error::new(io::ErrorKind::Other, "short read")),
        ),
    ];
    for (inside, beside) in pairs {
        let expected = format!("[halo2] {}", beside);
        assert_eq!(ModuleError::Halo2Error(inside).to_string(), expected);
    }
}

#[test]
fn lifted_error_renders_the_framework_message() {
    let lifted = ModuleError::from(PlonkError::NotEnoughColumnsForConstants);
    assert_eq!(
        lifted.to_string(),
        "[halo2] Too few fixed columns are enabled for global constants usage"
    );
}

#[test]
fn halo2_error_message_wraps_the_given_text() {
    assert_eq!(ModuleError::halo2_error_message("out of rows"), "[halo2] out of rows");
    assert_eq!(ModuleError::halo2_error_message(""), "[halo2] ");
    assert_eq!(ModuleError::halo2_error_message("[halo2] "), "[halo2] [halo2] ");
}

#[test]
fn framework_message_is_the_displayed_text() {
    assert_eq!(framework_message(&PlonkError::Synthesis), "General synthesis error");
    assert_eq!(
        framework_message(&PlonkError::Opening),
        format!("{}", PlonkError::Opening)
    );
}

#[test]
fn rendering_twice_gives_the_same_text() {
    let errors = vec![
        ModuleError::Halo2Error(PlonkError::Opening),
        ModuleError::WrongInputType(String::from("a"), String::from("b")),
        ModuleError::ConstantNotAssigned,
        ModuleError::InputWrongLength(12),
    ];
    for e in errors {
        assert_eq!(e.to_string(), e.to_string());
    }
}
