use meeting_desk::minutes::templates::{
    get_template, list_templates, BUILTIN_TEMPLATE_VERSION, STANDARD_MEETING_TEMPLATE_ID,
};

#[test]
fn template_registry_contains_all_versioned_templates_in_stable_order() {
    let templates = list_templates();
    let expected_ids = [
        "standard_meeting",
        "project_weekly",
        "customer_communication",
        "course_summary",
        "research_project",
        "academic_lecture",
        "speech_summary",
        "profile_interview",
        "in_depth_interview",
        "business_plan",
        "article_outline",
        "adaptive",
    ];
    assert_eq!(
        templates.iter().map(|template| template.id).collect::<Vec<_>>(),
        expected_ids
    );
    assert!(templates.iter().all(|template| template.version == "1.0.0"));
    assert_eq!(BUILTIN_TEMPLATE_VERSION, "1.0.0");
    assert!(templates.iter().all(|template| {
        !template.display_name.trim().is_empty()
            && !template.description.trim().is_empty()
            && !template.instructions.trim().is_empty()
    }));
    assert_eq!(
        get_template(STANDARD_MEETING_TEMPLATE_ID, "0.9.0")
            .expect_err("version mismatch")
            .code(),
        "template_version_mismatch"
    );
}
