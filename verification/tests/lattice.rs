use conform7_semantics::kinds;
use conform7_semantics::kinds::{Kind, KindConstructor};
use conform7_semantics::lattice::{join, meet, superkind};

/// The kind a constructor makes without arguments.
fn kb(c: KindConstructor) -> Kind {
    Kind::base_construction(&c)
}

#[test]
fn k_number_conforms_to_k_arithmetic_value() {
    assert!(kb(kinds::con_number()).conforms_to(&kb(kinds::con_arithmetic_value())));
}

#[test]
fn k_number_conforms_to_k_value() {
    assert!(kb(kinds::con_number()).conforms_to(&kb(kinds::con_value())));
}

#[test]
fn k_number_does_not_conform_to_k_text() {
    assert!(!kb(kinds::con_number()).conforms_to(&kb(kinds::con_text())));
}

#[test]
fn k_text_conforms_to_k_sayable_value() {
    assert!(kb(kinds::con_text()).conforms_to(&kb(kinds::con_sayable_value())));
}

#[test]
fn k_object_conforms_to_k_value() {
    assert!(kb(kinds::con_object()).conforms_to(&kb(kinds::con_value())));
}

#[test]
fn list_of_numbers_conforms_to_list_of_arithmetic_values() {
    let list_of_num = Kind::unary_con(&kinds::con_list_of(), kb(kinds::con_number()));
    let list_of_arith = Kind::unary_con(&kinds::con_list_of(), kb(kinds::con_arithmetic_value()));
    assert!(list_of_num.conforms_to(&list_of_arith));
}

#[test]
fn list_of_numbers_does_not_conform_to_list_of_texts() {
    let list_of_num = Kind::unary_con(&kinds::con_list_of(), kb(kinds::con_number()));
    let list_of_text = Kind::unary_con(&kinds::con_list_of(), kb(kinds::con_text()));
    assert!(!list_of_num.conforms_to(&list_of_text));
}

#[test]
fn k_nil_conforms_to_everything() {
    assert!(kb(kinds::con_nil()).conforms_to(&kb(kinds::con_number())));
    assert!(kb(kinds::con_nil()).conforms_to(&kb(kinds::con_text())));
    assert!(kb(kinds::con_nil()).conforms_to(&kb(kinds::con_value())));
    assert!(kb(kinds::con_nil()).conforms_to(&kb(kinds::con_void())));
}

#[test]
fn k_value_does_not_conform_to_k_number() {
    assert!(!kb(kinds::con_value()).conforms_to(&kb(kinds::con_number())));
}

#[test]
fn join_number_and_text_is_sayable_value() {
    let j = join(&kb(kinds::con_number()), &kb(kinds::con_text()));
    assert!(j.is_some());
    assert!(j.unwrap().eq(&kb(kinds::con_sayable_value())));
}

#[test]
fn join_number_and_real_number_is_real_number() {
    let j = join(&kb(kinds::con_number()), &kb(kinds::con_real_number()));
    assert!(j.is_some());
    assert!(j.unwrap().eq(&kb(kinds::con_real_number())));
}

#[test]
fn meet_number_and_arithmetic_value_is_number() {
    let m = meet(&kb(kinds::con_number()), &kb(kinds::con_arithmetic_value()));
    assert!(m.is_some());
    assert!(m.unwrap().eq(&kb(kinds::con_number())));
}

#[test]
fn meet_number_and_text_is_none() {
    // number and text have no common subkind, so meet should be None
    let m = meet(&kb(kinds::con_number()), &kb(kinds::con_text()));
    assert!(m.is_none());
}







#[test]
fn superkind_of_value_is_none() {
    assert!(superkind(&kb(kinds::con_value())).is_none());
}

#[test]
fn superkind_of_stored_value_is_value() {
    let sup = superkind(&kb(kinds::con_stored_value()));
    assert!(sup.is_some());
    assert!(sup.unwrap().eq(&kb(kinds::con_value())));
}

#[test]
fn superkind_of_sayable_value_is_stored_value() {
    let sup = superkind(&kb(kinds::con_sayable_value()));
    assert!(sup.is_some());
    assert!(sup.unwrap().eq(&kb(kinds::con_stored_value())));
}

#[test]
fn superkind_of_understandable_value_is_sayable_value() {
    let sup = superkind(&kb(kinds::con_understandable_value()));
    assert!(sup.is_some());
    assert!(sup.unwrap().eq(&kb(kinds::con_sayable_value())));
}

#[test]
fn superkind_of_arithmetic_value_is_understandable_value() {
    let sup = superkind(&kb(kinds::con_arithmetic_value()));
    assert!(sup.is_some());
    assert!(sup.unwrap().eq(&kb(kinds::con_understandable_value())));
}

#[test]
fn superkind_of_real_arithmetic_value_is_arithmetic_value() {
    let sup = superkind(&kb(kinds::con_real_arithmetic_value()));
    assert!(sup.is_some());
    assert!(sup.unwrap().eq(&kb(kinds::con_arithmetic_value())));
}

#[test]
fn superkind_of_enumerated_value_is_understandable_value() {
    let sup = superkind(&kb(kinds::con_enumerated_value()));
    assert!(sup.is_some());
    assert!(sup.unwrap().eq(&kb(kinds::con_understandable_value())));
}

#[test]
fn superkind_of_pointer_value_is_sayable_value() {
    let sup = superkind(&kb(kinds::con_pointer_value()));
    assert!(sup.is_some());
    assert!(sup.unwrap().eq(&kb(kinds::con_sayable_value())));
}

#[test]
fn superkind_of_number_is_real_number() {
    let sup = superkind(&kb(kinds::con_number()));
    assert!(sup.is_some());
    assert!(sup.unwrap().eq(&kb(kinds::con_real_number())));
}

#[test]
fn superkind_of_real_number_is_arithmetic_value() {
    let sup = superkind(&kb(kinds::con_real_number()));
    assert!(sup.is_some());
    assert!(sup.unwrap().eq(&kb(kinds::con_arithmetic_value())));
}

#[test]
fn superkind_of_text_is_sayable_value() {
    let sup = superkind(&kb(kinds::con_text()));
    assert!(sup.is_some());
    assert!(sup.unwrap().eq(&kb(kinds::con_sayable_value())));
}

#[test]
fn superkind_of_object_is_pointer_value() {
    let sup = superkind(&kb(kinds::con_object()));
    assert!(sup.is_some());
    assert!(sup.unwrap().eq(&kb(kinds::con_pointer_value())));
}

#[test]
fn superkind_of_truth_state_is_enumerated_value() {
    let sup = superkind(&kb(kinds::con_truth_state()));
    assert!(sup.is_some());
    assert!(sup.unwrap().eq(&kb(kinds::con_enumerated_value())));
}

#[test]
fn superkind_of_table_is_stored_value() {
    let sup = superkind(&kb(kinds::con_table()));
    assert!(sup.is_some());
    assert!(sup.unwrap().eq(&kb(kinds::con_stored_value())));
}

#[test]
fn superkind_of_unicode_character_is_arithmetic_value() {
    let sup = superkind(&kb(kinds::con_unicode_character()));
    assert!(sup.is_some());
    assert!(sup.unwrap().eq(&kb(kinds::con_arithmetic_value())));
}

#[test]
fn superkind_of_verb_is_value() {
    let sup = superkind(&kb(kinds::con_verb()));
    assert!(sup.is_some());
    assert!(sup.unwrap().eq(&kb(kinds::con_value())));
}

#[test]
fn join_same_kind_returns_that_kind() {
    let j = join(&kb(kinds::con_number()), &kb(kinds::con_number()));
    assert!(j.is_some());
    assert!(j.unwrap().eq(&kb(kinds::con_number())));
}

#[test]
fn join_kind_and_its_superkind_returns_superkind() {
    let j = join(&kb(kinds::con_number()), &kb(kinds::con_arithmetic_value()));
    assert!(j.is_some());
    assert!(j.unwrap().eq(&kb(kinds::con_arithmetic_value())));
}

#[test]
fn join_list_of_number_and_list_of_text_is_list_of_value() {
    let list_of_num = Kind::unary_con(&kinds::con_list_of(), kb(kinds::con_number()));
    let list_of_text = Kind::unary_con(&kinds::con_list_of(), kb(kinds::con_text()));
    let j = join(&list_of_num, &list_of_text);
    // join(number, text) = sayable_value, so join(list of number, list of text) = list of sayable_value
    let expected = Kind::unary_con(&kinds::con_list_of(), kb(kinds::con_sayable_value()));
    assert!(j.unwrap().eq(&expected));
}

#[test]
fn meet_same_kind_returns_that_kind() {
    let m = meet(&kb(kinds::con_number()), &kb(kinds::con_number()));
    assert!(m.is_some());
    assert!(m.unwrap().eq(&kb(kinds::con_number())));
}

#[test]
fn meet_kind_and_its_superkind_returns_kind() {
    let m = meet(&kb(kinds::con_number()), &kb(kinds::con_arithmetic_value()));
    assert!(m.is_some());
    assert!(m.unwrap().eq(&kb(kinds::con_number())));
}

#[test]
fn conformance_is_reflexive() {
    assert!(kb(kinds::con_number()).conforms_to(&kb(kinds::con_number())));
    assert!(kb(kinds::con_text()).conforms_to(&kb(kinds::con_text())));
    assert!(kb(kinds::con_value()).conforms_to(&kb(kinds::con_value())));
}

#[test]
fn conformance_is_transitive() {
    // number -> real_number -> arithmetic_value -> understandable_value
    // -> sayable_value -> stored_value -> value
    assert!(kb(kinds::con_number()).conforms_to(&kb(kinds::con_understandable_value())));
    assert!(kb(kinds::con_number()).conforms_to(&kb(kinds::con_sayable_value())));
    assert!(kb(kinds::con_number()).conforms_to(&kb(kinds::con_stored_value())));
}

#[test]
fn conformance_chain_via_superkind() {
    // Walk the chain explicitly
    let sup = superkind(&kb(kinds::con_number())).unwrap();
    assert!(sup.eq(&kb(kinds::con_real_number())));
    let sup2 = superkind(&sup).unwrap();
    assert!(sup2.eq(&kb(kinds::con_arithmetic_value())));
    let sup3 = superkind(&sup2).unwrap();
    assert!(sup3.eq(&kb(kinds::con_understandable_value())));
    let sup4 = superkind(&sup3).unwrap();
    assert!(sup4.eq(&kb(kinds::con_sayable_value())));
    let sup5 = superkind(&sup4).unwrap();
    assert!(sup5.eq(&kb(kinds::con_stored_value())));
    let sup6 = superkind(&sup5).unwrap();
    assert!(sup6.eq(&kb(kinds::con_value())));
    assert!(superkind(&sup6).is_none());
}

#[test]
fn join_of_unrelated_base_kinds() {
    // number and object: number -> real_number -> arithmetic_value
    //   -> understandable_value -> sayable_value -> stored_value -> value
    // object -> pointer_value -> sayable_value -> stored_value -> value
    // Common superkind: sayable_value
    let j = join(&kb(kinds::con_number()), &kb(kinds::con_object()));
    assert!(j.is_some());
    assert!(j.unwrap().eq(&kb(kinds::con_sayable_value())));
}











#[test]
fn number_conforms_to_real_number() {
    assert!(kb(kinds::con_number()).conforms_to(&kb(kinds::con_real_number())));
}

#[test]
fn real_number_does_not_conform_to_number() {
    assert!(!kb(kinds::con_real_number()).conforms_to(&kb(kinds::con_number())));
}

#[test]
fn meet_number_and_real_number_is_number() {
    let m = meet(&kb(kinds::con_number()), &kb(kinds::con_real_number()));
    assert!(m.is_some());
    assert!(m.unwrap().eq(&kb(kinds::con_number())));
}

#[test]
fn meet_real_number_and_arithmetic_value_is_real_number() {
    let m = meet(&kb(kinds::con_real_number()), &kb(kinds::con_arithmetic_value()));
    assert!(m.is_some());
    assert!(m.unwrap().eq(&kb(kinds::con_real_number())));
}

#[test]
fn join_text_and_object_is_sayable_value() {
    // text -> sayable_value -> stored_value -> value
    // object -> pointer_value -> sayable_value -> stored_value -> value
    // Common superkind: sayable_value
    let j = join(&kb(kinds::con_text()), &kb(kinds::con_object()));
    assert!(j.is_some());
    assert!(j.unwrap().eq(&kb(kinds::con_sayable_value())));
}

#[test]
fn meet_text_and_sayable_value_is_text() {
    let m = meet(&kb(kinds::con_text()), &kb(kinds::con_sayable_value()));
    assert!(m.is_some());
    assert!(m.unwrap().eq(&kb(kinds::con_text())));
}
