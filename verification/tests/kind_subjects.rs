use conform7_semantics::kinds;
use conform7_semantics::kinds::{Kind, KindConstructor};
use conform7_semantics::knowledge::inference_subjects::InferenceSubject;
use conform7_semantics::knowledge::kind_subjects::{
    allow_sometimes_callback, family, from_kind, has_properties, move_within_callback, new,
    super_callback, to_kind,
};
use conform7_semantics::knowledge::setup::setup_knowledge_module;

#[test]
fn kinds_family_has_correct_name() {
    let f = family();
    assert_eq!(f.name, "kinds");
}

#[test]
fn kinds_family_has_likely_certainty() {
    let f = family();
    let subject = InferenceSubject::new(0, None, None, Some("test"));
    assert_eq!(f.methods.get_default_certainty(&subject), 1);
}

#[test]
fn new_creates_subject_for_base_constructor() {
    let (mut subjects, mut families) = setup_knowledge_module();
    families.push(family());

    let mut con = kinds::con_number();
    let idx = new(&mut con, &mut subjects, &families).unwrap();

    assert_eq!(con.base_as_infs, Some(idx));
    assert_eq!(subjects[idx].represents, Some("number"));
    assert_eq!(subjects[idx].log_name, Some("number"));
    assert_eq!(subjects[idx].infs_family, 1); // kinds family is at index 1
}

#[test]
fn new_returns_none_for_kind_variable() {
    let (mut subjects, mut families) = setup_knowledge_module();
    families.push(family());

    let mut con = kinds::con_kind_variable();
    let result = new(&mut con, &mut subjects, &families);
    assert!(result.is_none());
}

#[test]
fn new_returns_none_for_intermediate() {
    let (mut subjects, mut families) = setup_knowledge_module();
    families.push(family());

    let mut con = kinds::con_intermediate();
    let result = new(&mut con, &mut subjects, &families);
    assert!(result.is_none());
}

#[test]
fn new_returns_none_for_proper_constructor() {
    let (mut subjects, mut families) = setup_knowledge_module();
    families.push(family());

    let mut con = kinds::con_list_of();
    let result = new(&mut con, &mut subjects, &families);
    assert!(result.is_none());
}

#[test]
fn from_kind_returns_subject_for_base_kind() {
    let (mut subjects, mut families) = setup_knowledge_module();
    families.push(family());

    let mut con = kinds::con_number();
    new(&mut con, &mut subjects, &families);

    let constructors = vec![con];
    let k_number = Kind::base_construction(&kinds::con_number());
    let infs_idx = from_kind(&k_number, &constructors).unwrap();
    assert_eq!(subjects[infs_idx].log_name, Some("number"));
}

#[test]
fn from_kind_returns_none_for_kind_without_subject() {
    let constructors: Vec<KindConstructor> = vec![kinds::con_list_of()];
    let k_list = Kind::unary_con(&kinds::con_list_of(), Kind::base_construction(&kinds::con_number()));
    let result = from_kind(&k_list, &constructors);
    assert!(result.is_none());
}
#[test]
fn to_kind_round_trips_with_from_kind() {
    let (mut subjects, mut families) = setup_knowledge_module();
    families.push(family());

    let mut con = kinds::con_number();
    new(&mut con, &mut subjects, &families);

    let constructors = vec![con];
    let k_number = Kind::base_construction(&kinds::con_number());
    let infs_idx = from_kind(&k_number, &constructors).unwrap();
    let infs = &subjects[infs_idx];
    let kind = to_kind(infs, &subjects, &constructors).unwrap();
    // Look up the constructor via construct_id instead of using
    // kind.construct directly (which is a dummy value for to_kind results)
    let con = &constructors[kind.construct_id];
    assert_eq!(con.name, k_number.construct.name);
    assert_eq!(con.arity, k_number.construct.arity);
    assert_eq!(kind.kind_variable_number, k_number.kind_variable_number);
}

#[test]
fn to_kind_returns_none_for_subject_without_represents() {
    let subject = InferenceSubject::new(0, None, None, None);
    let constructors: Vec<KindConstructor> = vec![];
    let result = to_kind(&subject, &[], &constructors);
    assert!(result.is_none());
}

#[test]
fn has_properties_true_for_enumeration() {
    let mut con = kinds::con_number();
    con.enumeration = true;
    let k = Kind::base_construction(&kinds::con_number());
    let constructors = vec![con];
    assert!(has_properties(&k, &constructors));
}

#[test]
fn has_properties_true_for_object_kind() {
    let k = Kind::base_construction(&kinds::con_object());
    let constructors = vec![kinds::con_object()];
    assert!(has_properties(&k, &constructors));
}

#[test]
fn has_properties_false_for_plain_base_kind() {
    let k = Kind::base_construction(&kinds::con_number());
    let constructors = vec![kinds::con_number()];
    assert!(!has_properties(&k, &constructors));
}

#[test]
fn super_callback_returns_broader_subject() {
    let (mut subjects, mut families) = setup_knowledge_module();
    families.push(family());

    // Create kind subjects for number and its superkind (real number)
    let mut con_real_number = kinds::con_real_number();
    new(&mut con_real_number, &mut subjects, &families);
    let real_number_infs = con_real_number.base_as_infs.unwrap();

    let mut con_number = kinds::con_number();
    new(&mut con_number, &mut subjects, &families);

    let constructors = vec![con_real_number, con_number];
    let k_number = Kind::base_construction(&kinds::con_number());

    // The super callback should return the broader subject (real number's subject)
    let result = super_callback(&k_number, &subjects, &constructors);
    assert_eq!(result, Some(real_number_infs));
}

#[test]
fn super_callback_returns_none_for_kind_without_subject() {
    let subjects: Vec<InferenceSubject> = vec![];
    let constructors: Vec<KindConstructor> = vec![kinds::con_list_of()];
    let k_list = Kind::unary_con(&kinds::con_list_of(), Kind::base_construction(&kinds::con_number()));
    let result = super_callback(&k_list, &subjects, &constructors);
    assert!(result.is_none());
}

#[test]
fn move_within_callback_updates_subject_hierarchy() {
    let (mut subjects, mut families) = setup_knowledge_module();
    families.push(family());

    let mut con_number = kinds::con_number();
    let mut con_text = kinds::con_text();
    new(&mut con_number, &mut subjects, &families);
    new(&mut con_text, &mut subjects, &families);

    let constructors = vec![con_number, con_text];
    let k_number = Kind::base_construction(&kinds::con_number());
    let k_text = Kind::base_construction(&kinds::con_text());

    // Move number under text
    let result = move_within_callback(&k_number, &k_text, &mut subjects, &constructors);
    assert!(result.is_some());

    // Verify the move
    let number_infs = from_kind(&k_number, &constructors).unwrap();
    let text_infs = from_kind(&k_text, &constructors).unwrap();
    assert_eq!(subjects[number_infs].broader_than, Some(text_infs));
}

#[test]
fn move_within_callback_returns_none_for_kind_without_subject() {
    let mut subjects: Vec<InferenceSubject> = vec![];
    let constructors: Vec<KindConstructor> = vec![kinds::con_list_of()];
    let k_list = Kind::unary_con(&kinds::con_list_of(), Kind::base_construction(&kinds::con_number()));
    let k_number = Kind::base_construction(&kinds::con_number());
    let result = move_within_callback(&k_list, &k_number, &mut subjects, &constructors);
    assert!(result.is_none());
}

#[test]
fn allow_sometimes_callback_checks_object_hierarchy() {
    let (mut subjects, mut families) = setup_knowledge_module();
    families.push(family());

    let mut con_object = kinds::con_object();
    let mut con_number = kinds::con_number();
    new(&mut con_object, &mut subjects, &families);
    new(&mut con_number, &mut subjects, &families);

    let constructors = vec![con_object, con_number];
    let k_object = Kind::base_construction(&kinds::con_object());
    let k_number = Kind::base_construction(&kinds::con_number());

    // number is not within the object hierarchy
    assert!(!allow_sometimes_callback(&k_number, &subjects, &constructors));

    // object is within the object hierarchy (it IS the object kind)
    assert!(allow_sometimes_callback(&k_object, &subjects, &constructors));
}

#[test]
fn allow_sometimes_returns_false_for_kind_without_subject() {
    let subjects: Vec<InferenceSubject> = vec![];
    let constructors: Vec<KindConstructor> = vec![kinds::con_list_of()];
    let k_list = Kind::unary_con(&kinds::con_list_of(), Kind::base_construction(&kinds::con_number()));
    assert!(!allow_sometimes_callback(&k_list, &subjects, &constructors));
}


#[test]
fn multiple_kind_subjects_can_be_created() {
    let (mut subjects, mut families) = setup_knowledge_module();
    families.push(family());

    let mut con_number = kinds::con_number();
    let mut con_text = kinds::con_text();
    let mut con_object = kinds::con_object();

    let idx1 = new(&mut con_number, &mut subjects, &families).unwrap();
    let idx2 = new(&mut con_text, &mut subjects, &families).unwrap();
    let idx3 = new(&mut con_object, &mut subjects, &families).unwrap();

    assert_eq!(idx1, 3); // After 3 fundamental subjects
    assert_eq!(idx2, 4);
    assert_eq!(idx3, 5);

    assert_eq!(subjects[idx1].log_name, Some("number"));
    assert_eq!(subjects[idx2].log_name, Some("text"));
    assert_eq!(subjects[idx3].log_name, Some("object"));
}

#[test]
fn kind_subject_uses_kinds_family_methods() {
    let (mut subjects, mut families) = setup_knowledge_module();
    families.push(family());

    let mut con = kinds::con_number();
    new(&mut con, &mut subjects, &families);

    // Test family method dispatch
    let subject = &subjects[con.base_as_infs.unwrap()];
    let name = subject.get_name_text(&families);
    assert_eq!(name, Some("number"));

    let certainty = subject.get_default_certainty(&families);
    assert_eq!(certainty, 1); // LIKELY_CE
}
