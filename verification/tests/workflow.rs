use lazyworkflows::workflows::Workflow;

#[test]
fn new_should_return_workflow_with_no_fields_set() {
    let workflow = Workflow::new();
    assert_eq!(workflow.name, None);
    assert_eq!(workflow.path, None);
    assert_eq!(workflow.id, None);
    assert_eq!(workflow.active, None);
}

#[test]
fn set_name_should_set_name_field() {
    let mut workflow = Workflow::new();
    workflow.set_name("test".to_string());
    assert_eq!(workflow.name, Some("test".to_string()));
}

#[test]
fn set_path_should_set_path_field() {
    let mut workflow = Workflow::new();
    workflow.set_path("test".to_string());
    assert_eq!(workflow.path, Some("test".to_string()));
}

#[test]
fn set_id_should_set_id_field() {
    let mut workflow = Workflow::new();
    workflow.set_id("test".to_string());
    assert_eq!(workflow.id, Some("test".to_string()));
}

#[test]
fn set_active_should_set_active_field() {
    let mut workflow = Workflow::new();
    workflow.set_active("test".to_string());
    assert_eq!(workflow.active, Some("test".to_string()));
}

#[test]
fn create_full_workflow_should_contain_all_fields() {
    let mut workflow = Workflow::new();
    workflow.set_name("name".to_string());
    workflow.set_path("path".to_string());
    workflow.set_id("id".to_string());
    workflow.set_active("active".to_string());
    assert_eq!(workflow.name, Some("name".to_string()));
    assert_eq!(workflow.path, Some("path".to_string()));
    assert_eq!(workflow.id, Some("id".to_string()));
    assert_eq!(workflow.active, Some("active".to_string()));
}
