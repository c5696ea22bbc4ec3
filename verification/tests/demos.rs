//! Runs every demonstration function; each is total and must return
//! without halting.

#[test]
fn run_variable() {
    lang_tour::basics::variable();
}

#[test]
fn run_scope() {
    lang_tour::basics::scope();
}

#[test]
fn run_numeric() {
    lang_tour::datatypes::numeric();
}

#[test]
fn run_tuple() {
    lang_tour::datatypes::tuple();
}

#[test]
fn run_array() {
    lang_tour::datatypes::array();
}

#[test]
fn run_function_call() {
    lang_tour::control_flow::function_call();
}

#[test]
fn run_if_syntax() {
    lang_tour::control_flow::if_syntax();
}

#[test]
fn run_loop_syntax() {
    lang_tour::control_flow::loop_syntax();
}

#[test]
fn run_for_and_while() {
    lang_tour::control_flow::for_and_while();
}

#[test]
fn run_shallow_transfer() {
    lang_tour::ownership::shallow_transfer();
}

#[test]
fn run_deep_copy() {
    lang_tour::ownership::deep_copy();
}

#[test]
fn run_stack_copy() {
    lang_tour::ownership::stack_copy();
}

#[test]
fn run_ownership_through_function() {
    lang_tour::ownership::ownership_through_function();
}

#[test]
fn run_immutable_references() {
    lang_tour::ownership::immutable_references();
}

#[test]
fn run_mutable_references() {
    lang_tour::ownership::mutable_references();
}

#[test]
fn run_switch_between_references() {
    lang_tour::ownership::switch_between_references();
}

#[test]
fn run_slice() {
    lang_tour::ownership::slice();
}

#[test]
fn run_slice_ownership() {
    lang_tour::ownership::slice_ownership();
}

#[test]
fn run_struct_syntax() {
    lang_tour::structs::struct_syntax();
}

#[test]
fn run_special_struct() {
    lang_tour::structs::special_struct();
}

#[test]
fn run_struct_method() {
    lang_tour::structs::struct_method();
}

#[test]
fn run_enum_syntax() {
    lang_tour::enums::enum_syntax();
}

#[test]
fn run_match_syntax() {
    lang_tour::enums::match_syntax();
}

#[test]
fn run_iflet_syntax() {
    lang_tour::enums::iflet_syntax();
}

#[test]
fn run_vector_syntax() {
    lang_tour::collections::vector_syntax();
}

#[test]
fn run_string_syntax() {
    lang_tour::collections::string_syntax();
}

#[test]
fn run_hashmap_syntax() {
    lang_tour::collections::hashmap_syntax();
}

#[test]
fn run_panic_syntax() {
    lang_tour::errors::panic_syntax();
}

#[test]
fn run_err_propagation() {
    lang_tour::errors::err_propagation();
}

#[test]
fn run_generic_type() {
    lang_tour::generics::generic_type();
}

#[test]
fn run_trait_for_generic() {
    lang_tour::generics::trait_for_generic();
}

#[test]
fn run_lifetime() {
    lang_tour::generics::lifetime();
}
