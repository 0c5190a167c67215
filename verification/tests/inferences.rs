use conform7_semantics::knowledge::inference_subjects::InferenceSubject;
use conform7_semantics::knowledge::inferences::{
    Certainty, Inference, InferenceCompareMethod, InferenceComparison, InferenceFamily,
    InferenceFamilyMethods, InferenceLogMethod, JoinResult,
};

fn make_family() -> InferenceFamily {
    InferenceFamily::new(
        "test",
        InferenceFamilyMethods {
            log_details: InferenceLogMethod::Topic,
            compare: InferenceCompareMethod::ByData(5),
            explains_contradictions: false,
        },
    )
}

#[test]
fn inferences_test_new_creates_inference_with_correct_family() {
    let inf = Inference::new(0, Some("test_data"), Certainty::Certain);
    assert_eq!(inf.family, 0);
    assert_eq!(inf.data, Some("test_data"));
    assert_eq!(inf.certainty, Certainty::Certain);
}

#[test]
fn test_new_defaults_unknown_to_certain() {
    let inf = Inference::new(0, None, Certainty::Unknown);
    assert_eq!(inf.certainty, Certainty::Certain);
}

#[test]
fn test_new_preserves_non_unknown_certainty() {
    let inf = Inference::new(0, None, Certainty::Impossible);
    assert_eq!(inf.certainty, Certainty::Impossible);

    let inf = Inference::new(0, None, Certainty::Unlikely);
    assert_eq!(inf.certainty, Certainty::Unlikely);

    let inf = Inference::new(0, None, Certainty::Likely);
    assert_eq!(inf.certainty, Certainty::Likely);

    let inf = Inference::new(0, None, Certainty::Initially);
    assert_eq!(inf.certainty, Certainty::Initially);

    let inf = Inference::new(0, None, Certainty::Certain);
    assert_eq!(inf.certainty, Certainty::Certain);
}

#[test]
fn test_get_certainty_returns_correct_value() {
    let inf = Inference::new(0, None, Certainty::Likely);
    assert_eq!(inf.get_certainty(), Certainty::Likely);
}

#[test]
fn test_where_inferred_returns_none_by_default() {
    let inf = Inference::new(0, None, Certainty::Certain);
    assert_eq!(inf.where_inferred(), None);
}

#[test]
fn test_where_inferred_returns_set_value() {
    let mut inf = Inference::new(0, None, Certainty::Certain);
    inf.inferred_from = Some("test_sentence");
    assert_eq!(inf.where_inferred(), Some("test_sentence"));
}

#[test]
fn test_get_family_returns_correct_index() {
    let inf = Inference::new(42, None, Certainty::Certain);
    assert_eq!(inf.get_family(), 42);
}

#[test]
fn test_render_impossible_sets_certainty() {
    let mut inf = Inference::new(0, None, Certainty::Certain);
    assert_eq!(inf.certainty, Certainty::Certain);
    inf.render_impossible();
    assert_eq!(inf.certainty, Certainty::Impossible);
}

#[test]
fn test_cmp_identical_for_same_inference() {
    let families = vec![make_family()];
    let inf = Inference::new(0, Some("data"), Certainty::Certain);
    assert_eq!(inf.cmp(&inf, &families), InferenceComparison::Identical);
}

#[test]
fn test_cmp_differ_in_family() {
    let families = vec![make_family(), make_family()];
    let a = Inference::new(0, Some("data"), Certainty::Certain);
    let b = Inference::new(1, Some("data"), Certainty::Certain);
    assert_eq!(a.cmp(&b, &families), InferenceComparison::DifferInFamily);
}

#[test]
fn test_join_adds_to_empty_list() {
    let families = vec![make_family()];
    let inf = Inference::new(0, Some("data"), Certainty::Certain);
    let mut subject = InferenceSubject::new(0, None, None, None);
    let mut inferences = Vec::new();

    assert_eq!(inf.join(&mut subject, &families, &mut inferences), JoinResult::Joined);
    assert_eq!(subject.inf_list.len(), 1);
    assert_eq!(inferences.len(), 1);
    assert_eq!(inferences[0].data, Some("data"));
}

#[test]
fn test_join_discards_redundant() {
    let families = vec![make_family()];
    let inf = Inference::new(0, Some("data"), Certainty::Certain);
    let mut subject = InferenceSubject::new(0, None, None, None);
    let mut inferences = vec![Inference::new(0, Some("data"), Certainty::Certain)];
    subject.inf_list.push(0);

    assert_eq!(
        inf.join(&mut subject, &families, &mut inferences),
        JoinResult::DiscardedRedundant
    );
    assert_eq!(subject.inf_list.len(), 1);
}

#[test]
fn test_inference_family_new() {
    let family = make_family();
    assert_eq!(family.name, "test");
}

#[test]
fn test_inference_family_methods_log_details() {
    let family = make_family();
    let inf = Inference::new(0, Some("hello"), Certainty::Certain);
    let log = family.methods.log_details(&inf);
    assert_eq!(log, "(hello)");
    let none = Inference::new(0, None, Certainty::Certain);
    assert_eq!(family.methods.log_details(&none), "");
}

#[test]
fn test_inference_family_methods_compare() {
    let family = make_family();
    let a = Inference::new(0, Some("same"), Certainty::Certain);
    let b = Inference::new(0, Some("same"), Certainty::Certain);
    assert_eq!(family.methods.compare(&a, &b), 0);

    let c = Inference::new(0, Some("different"), Certainty::Certain);
    assert_eq!(family.methods.compare(&a, &c), 5);
}

#[test]
fn test_certainty_ordering() {
    assert!(Certainty::Impossible < Certainty::Unlikely);
    assert!(Certainty::Unlikely < Certainty::Unknown);
    assert!(Certainty::Unknown < Certainty::Likely);
    assert!(Certainty::Likely < Certainty::Initially);
    assert!(Certainty::Initially < Certainty::Certain);
}

#[test]
fn test_certainty_values() {
    assert_eq!(Certainty::Impossible.value(), -2);
    assert_eq!(Certainty::Unlikely.value(), -1);
    assert_eq!(Certainty::Unknown.value(), 0);
    assert_eq!(Certainty::Likely.value(), 1);
    assert_eq!(Certainty::Initially.value(), 2);
    assert_eq!(Certainty::Certain.value(), 3);
}

#[test]
fn test_drawn_during_stage_default() {
    let inf = Inference::new(0, None, Certainty::Certain);
    assert_eq!(inf.drawn_during_stage, 0);
}

#[test]
fn test_drawn_from_metadata_default() {
    let inf = Inference::new(0, None, Certainty::Certain);
    assert!(!inf.drawn_from_metadata);
}

#[test]
fn test_inference_comparison_values() {
    assert_eq!(InferenceComparison::DifferInExistence.value(), 1);
    assert_eq!(InferenceComparison::DifferInFamily.value(), 2);
    assert_eq!(InferenceComparison::DifferInTopic.value(), 3);
    assert_eq!(InferenceComparison::DifferInBooleanContent.value(), 4);
    assert_eq!(InferenceComparison::DifferInContent.value(), 5);
    assert_eq!(InferenceComparison::DifferInCopyOnly.value(), 6);
    assert_eq!(InferenceComparison::Identical.value(), 0);
}

#[test]
fn test_join_replaces_with_higher_certainty() {
    let families = vec![make_family()];
    let mut subject = InferenceSubject::new(0, None, None, None);
    let mut inferences = vec![Inference::new(0, Some("data"), Certainty::Likely)];
    subject.inf_list.push(0);

    let inf = Inference::new(0, Some("data"), Certainty::Certain);
    assert_eq!(inf.join(&mut subject, &families, &mut inferences), JoinResult::Replaced);
    assert_eq!(inferences[0].certainty, Certainty::Certain);
    assert_eq!(subject.inf_list.len(), 1);
}

#[test]
fn test_join_discards_weaker() {
    let families = vec![make_family()];
    let mut subject = InferenceSubject::new(0, None, None, None);
    let mut inferences = vec![Inference::new(0, Some("data"), Certainty::Certain)];
    subject.inf_list.push(0);

    let inf = Inference::new(0, Some("data"), Certainty::Likely);
    assert_eq!(
        inf.join(&mut subject, &families, &mut inferences),
        JoinResult::DiscardedWeaker
    );
    assert_eq!(inferences[0].certainty, Certainty::Certain);
    assert_eq!(subject.inf_list.len(), 1);
}

#[test]
fn test_join_handles_different_data() {
    let families = vec![make_family()];
    let mut subject = InferenceSubject::new(0, None, None, None);
    let mut inferences = vec![Inference::new(0, Some("existing"), Certainty::Certain)];
    subject.inf_list.push(0);

    let inf = Inference::new(0, Some("new_data"), Certainty::Certain);
    assert_eq!(inf.join(&mut subject, &families, &mut inferences), JoinResult::Joined);
    assert_eq!(subject.inf_list.len(), 2);
    assert_eq!(inferences.len(), 2);
}

#[test]
fn test_join_stores_inference_index_not_family() {
    let families = vec![make_family()];
    let mut subject = InferenceSubject::new(0, None, None, None);
    let mut inferences = Vec::new();

    let inf1 = Inference::new(0, Some("data1"), Certainty::Certain);
    let inf2 = Inference::new(0, Some("data2"), Certainty::Certain);

    inf1.join(&mut subject, &families, &mut inferences);
    inf2.join(&mut subject, &families, &mut inferences);

    assert_eq!(subject.inf_list, vec![0, 1]);
    assert_eq!(inferences.len(), 2);
}

#[test]
fn joining_the_same_inference_twice_changes_nothing_the_second_time() {
    let families = vec![make_family()];
    let mut subject = InferenceSubject::new(0, None, None, None);
    let mut inferences = Vec::new();
    let inf = Inference::new(0, Some("lit"), Certainty::Likely);
    assert_eq!(inf.join(&mut subject, &families, &mut inferences), JoinResult::Joined);
    assert_eq!(
        inf.join(&mut subject, &families, &mut inferences),
        JoinResult::DiscardedRedundant
    );
    assert_eq!(subject.inf_list, vec![0]);
    assert_eq!(inferences.len(), 1);
    assert_eq!(inferences[0].certainty, Certainty::Likely);
}

#[test]
fn log_details_by_topic_and_by_data_index() {
    let family = make_family();
    let inf = Inference::new(0, Some("hello"), Certainty::Certain);
    assert_eq!(family.methods.log_details(&inf), "(hello)");
    let none = Inference::new(0, None, Certainty::Certain);
    assert_eq!(family.methods.log_details(&none), "");

    let by_index = InferenceFamilyMethods {
        log_details: InferenceLogMethod::RelationDataIndex,
        compare: InferenceCompareMethod::ByDataIndex,
        explains_contradictions: true,
    };
    let mut rel = Inference::new(0, None, Certainty::Certain);
    rel.data_index = Some(42);
    assert_eq!(by_index.log_details(&rel), "(relation_inference_data[42])");
    let mut lower = Inference::new(0, None, Certainty::Certain);
    lower.data_index = Some(7);
    assert_eq!(by_index.compare(&rel, &lower), 3);
    assert_eq!(by_index.compare(&lower, &rel), -3);
    assert_eq!(by_index.compare(&rel, &rel), 0);
    assert!(by_index.explain_contradiction(&rel, &lower, 0, 0));
}
