use mash_client::client::{
    map_homework, to_homework, ClientHomework, EomUrl, EomUrls, HomeworkData, HomeworkEntry,
    Subject,
};

fn link(url: &str) -> EomUrls {
    EomUrls { url_type: "test".to_string(), url: url.to_string(), profile_type: String::new() }
}

fn material(urls: &[&str]) -> EomUrl {
    EomUrl {
        material_id: 7,
        material_type: "test_spec_binding".to_string(),
        content_type: String::new(),
        urls: urls.iter().map(|u| link(u)).collect(),
    }
}

fn record(subject: &str, description: &str, date: &str, materials: Vec<EomUrl>) -> ClientHomework {
    let data = HomeworkData {
        id: 1,
        created_at: "2020-02-01".to_string(),
        updated_at: String::new(),
        deleted_at: String::new(),
        deleted_by: String::new(),
        teacher_id: 2,
        subject_id: 3,
        is_required: false,
        mark_required: false,
        group_id: 4,
        date_assigned_on: "01.02.2020".to_string(),
        date_prepared_for: date.to_string(),
        subject: Subject { id: 5, name: subject.to_string(), exam_name: String::new() },
    };
    let entry = HomeworkEntry {
        id: 6,
        created_at: "2020-02-01".to_string(),
        updated_at: String::new(),
        deleted_at: String::new(),
        homework_id: 1,
        description: description.to_string(),
        duration: 0,
        no_duration: false,
        homework: data,
        attachments: vec![],
        homework_entry_student_answer: String::new(),
        controllable_items: vec![],
        homework_entry_comments: vec![],
        student_ids: vec![],
        attachment_ids: vec![],
        controllable_item_ids: vec![],
        books: String::new(),
        tests: String::new(),
        scripts: String::new(),
        data: String::new(),
        update_comment: String::new(),
        game_apps: String::new(),
        atomic_objects: String::new(),
        related_materials: String::new(),
        eom_urls: materials,
        long_term: false,
        is_digital_homework: false,
    };
    ClientHomework {
        id: 9,
        created_at: "2020-02-02T10:00:00".to_string(),
        updated_at: String::new(),
        deleted_at: String::new(),
        student_id: 10,
        homework_entry_id: 6,
        student_name: "Ivan".to_string(),
        comment: String::new(),
        is_ready: false,
        attachments: vec![],
        remote_attachments: vec![],
        homework_entry: entry,
        attachment_ids: vec![],
    }
}

#[test]
fn maps_history_example() {
    let r = to_homework(&record(
        "History",
        "Read ch. 4",
        "03.02.2020",
        vec![material(&["http://x/1", "http://x/2"])],
    ));
    assert_eq!(r.subject_name, "History");
    assert_eq!(r.task, "Read ch. 4");
    assert_eq!(r.date, "03.02.2020");
    assert_eq!(r.created_at, "2020-02-02T10:00:00");
    assert_eq!(
        r.test_urls,
        vec![vec![Some("http://x/1".to_string()), Some("http://x/2".to_string())]]
    );
}

#[test]
fn keeps_length_and_order() {
    let input = vec![
        record("Math", "ex. 1", "03.02.2020", vec![]),
        record("Art", "draw", "04.02.2020", vec![]),
        record("Music", "sing", "05.02.2020", vec![]),
    ];
    let out = map_homework(&input);
    assert_eq!(out.len(), 3);
    assert_eq!(out[0].subject_name, "Math");
    assert_eq!(out[1].subject_name, "Art");
    assert_eq!(out[2].task, "sing");
    assert_eq!(out[2].date, "05.02.2020");
}

#[test]
fn empty_listing_maps_to_nothing() {
    assert!(map_homework(&vec![]).is_empty());
}

#[test]
fn test_urls_follow_material_nesting() {
    let r = to_homework(&record(
        "Physics",
        "lab",
        "03.02.2020",
        vec![material(&["a", "b", "c"]), material(&[]), material(&["d"])],
    ));
    assert_eq!(r.test_urls.len(), 3);
    assert_eq!(r.test_urls[0].len(), 3);
    assert_eq!(r.test_urls[1].len(), 0);
    assert_eq!(r.test_urls[2], vec![Some("d".to_string())]);
}
