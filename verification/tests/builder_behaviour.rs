//! The runtime discipline of an emitted builder, exercised through the
//! library's reference semantics: slots in declaration order, overwriting
//! setters, and a build that fails on the first missing required field.

use builder::semantics::BuilderState;

#[derive(Clone, Debug, PartialEq)]
enum Value {
    Str(String),
    List(Vec<String>),
}

/// required flags of the scenario schema: `executable` required,
/// `args` optional
fn command_required() -> Vec<bool> {
    vec![true, false]
}

#[test]
fn build_without_required_field_fails_naming_it() {
    let mut state: BuilderState<Value> = BuilderState::init(2);
    let required = command_required();
    // index 0 is `executable`: the first (and only) missing required field
    assert_eq!(state.build(&required).unwrap_err(), 0);
}

#[test]
fn build_with_required_set_succeeds_with_optional_absent() {
    let mut state: BuilderState<Value> = BuilderState::init(2);
    let required = command_required();
    state.set(0, Value::Str("ls".to_string()));
    let vals = state.build(&required).unwrap();
    assert_eq!(vals, vec![Some(Value::Str("ls".to_string())), None]);
}

#[test]
fn build_with_optional_set_keeps_its_value() {
    let mut state: BuilderState<Value> = BuilderState::init(2);
    let required = command_required();
    state.set(0, Value::Str("ls".to_string()));
    state.set(1, Value::List(vec!["-l".to_string()]));
    let vals = state.build(&required).unwrap();
    assert_eq!(
        vals,
        vec![
            Some(Value::Str("ls".to_string())),
            Some(Value::List(vec!["-l".to_string()])),
        ]
    );
}

#[test]
fn setter_overwrites_rather_than_accumulates() {
    let mut state: BuilderState<Value> = BuilderState::init(2);
    state.set(0, Value::Str("ls".to_string()));
    state.set(0, Value::Str("cat".to_string()));
    assert_eq!(state.slots[0], Some(Value::Str("cat".to_string())));
    let vals = state.build(&command_required()).unwrap();
    assert_eq!(vals[0], Some(Value::Str("cat".to_string())));
}

#[test]
fn first_missing_required_field_is_reported_in_declaration_order() {
    let mut state: BuilderState<u32> = BuilderState::init(3);
    let required = vec![true, true, true];
    state.set(1, 7);
    // fields 0 and 2 are both missing; declaration order reports 0
    assert_eq!(state.build(&required).unwrap_err(), 0);
    // after the failed build, slot 1's value was consumed by the take
    let mut again: BuilderState<u32> = BuilderState::init(3);
    again.set(0, 1);
    again.set(1, 2);
    assert_eq!(again.build(&required).unwrap_err(), 2);
}

#[test]
fn slots_are_consumed_by_a_successful_build() {
    let mut state: BuilderState<u32> = BuilderState::init(2);
    let required = vec![true, false];
    state.set(0, 5);
    state.set(1, 9);
    assert_eq!(state.build(&required).unwrap(), vec![Some(5), Some(9)]);
    // every slot was taken: a second build misses the required field again
    assert_eq!(state.build(&required).unwrap_err(), 0);
}

#[test]
fn optional_slot_never_blocks_a_build() {
    let mut state: BuilderState<u32> = BuilderState::init(3);
    let required = vec![false, true, false];
    state.set(1, 3);
    let vals = state.build(&required).unwrap();
    assert_eq!(vals, vec![None, Some(3), None]);
}
