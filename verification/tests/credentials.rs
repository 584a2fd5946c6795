use idea_core::errors::IdeaError;
use idea_core::store::delete_api_key;
use idea_core::store::get_api_key;
use idea_core::store::normalize_delete;
use idea_core::store::normalize_get;
use idea_core::store::set_api_key;
use idea_core::store::set_plan;
use idea_core::store::DeleteOutcome;
use idea_core::store::GetOutcome;
use idea_core::store::SetAction;

#[test]
fn set_routes_blank_input_to_delete() {
    assert!(matches!(set_plan("  "), SetAction::Delete));
    assert!(matches!(set_plan(""), SetAction::Delete));
    assert!(matches!(set_plan("\n\t "), SetAction::Delete));
    assert!(matches!(set_plan("\u{a0}\u{3000}\u{2028}"), SetAction::Delete));
}

#[test]
fn set_stores_the_trimmed_value() {
    match set_plan("  sk-key \n") {
        SetAction::Store(v) => assert_eq!(v, "sk-key"),
        SetAction::Delete => panic!("expected the value to be stored"),
    }
}

#[test]
fn get_normalizes_absence_to_success_without_value() {
    match normalize_get(GetOutcome::Absent) {
        Ok(v) => assert!(v.is_none()),
        Err(_) => panic!("absence is not an error"),
    }
    match normalize_get(GetOutcome::Present("k".to_string())) {
        Ok(Some(v)) => assert_eq!(v, "k"),
        _ => panic!("expected the stored value"),
    }
    match normalize_get(GetOutcome::Failed("locked".to_string())) {
        Err(IdeaError::Store(d)) => assert_eq!(d, "locked"),
        _ => panic!("expected a store error"),
    }
}

#[test]
fn delete_normalizes_absence_to_success() {
    assert!(normalize_delete(DeleteOutcome::Removed).is_ok());
    assert!(normalize_delete(DeleteOutcome::Missing).is_ok());
    assert!(matches!(
        normalize_delete(DeleteOutcome::Failed("locked".to_string())),
        Err(IdeaError::Store(_))
    ));
}

#[test]
fn delete_twice_both_succeed() {
    assert!(delete_api_key().is_ok());
    assert!(delete_api_key().is_ok());
}

#[test]
fn blank_set_then_get_yields_none() {
    assert!(set_api_key("  ").is_ok());
    match get_api_key() {
        Ok(v) => assert!(v.is_none()),
        Err(_) => panic!("expected success with absence"),
    }
}
