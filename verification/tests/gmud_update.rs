use gmud_backend::gmud::{build_update_doc, UpdateGmudDto};

fn empty_update() -> UpdateGmudDto {
    UpdateGmudDto {
        title: None,
        project_id: None,
        spring: None,
        gmud_type: None,
        gmud_number: None,
        developer: None,
        approver: None,
        status: None,
    }
}

#[test]
fn should_reject_empty_update_payload() {
    let input = empty_update();
    let result = build_update_doc(input);
    assert!(result.is_err());
}

#[test]
fn should_build_update_with_title_and_project_id() {
    let input = UpdateGmudDto {
        title: Some("GMUD Teste".to_string()),
        project_id: Some("PRJ-123".to_string()),
        spring: None,
        gmud_type: None,
        gmud_number: None,
        developer: None,
        approver: None,
        status: None,
    };
    let result = build_update_doc(input);
    assert!(result.is_ok());
}
