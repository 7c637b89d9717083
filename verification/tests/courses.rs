use campus_lms_cli::moodle::courses::{course_item, courses_payload};
use campus_lms_cli::moodle::models::Course;

fn course(id: i64, visible: Option<i64>) -> Course {
    Course { id, shortname: Some("INFO101".to_string()), fullname: Some("情報理論".to_string()), visible }
}

#[test]
fn course_rows_link_to_the_course_page() {
    let item = course_item(&course(101, None), "https://lms.example.ac.jp/");
    assert_eq!(item.id, "course:101");
    assert_eq!(item.moodle_id, 101);
    assert!(item.visible);
    assert_eq!(item.url, "https://lms.example.ac.jp/course/view.php?id=101");
    assert!(!course_item(&course(5, Some(0)), "https://lms.example.ac.jp/").visible);
    assert!(course_item(&course(5, Some(2)), "https://lms.example.ac.jp/").visible);
    assert_eq!(course_item(&course(5, None), "not a url").url, "");
    let payload = courses_payload(&vec![course(1, None), course(2, None)], "https://lms.example/");
    assert_eq!(payload.courses.len(), 2);
    assert_eq!(payload.courses[1].id, "course:2");
}
