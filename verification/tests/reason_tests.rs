use attendance_report::reason::{extract_reason, reason_from_capture};

#[test]
fn extract_reason_shortens_the_joint_nursing_leave() {
    assert_eq!(extract_reason("请假(哺乳假/工间休息假)"), "哺乳假");
}

#[test]
fn extract_reason_takes_what_stands_in_the_brackets() {
    assert_eq!(extract_reason("请假(事假)"), "事假");
    assert_eq!(extract_reason("上午请假(年假)半天"), "年假");
    assert_eq!(extract_reason("请假()"), "");
}

#[test]
fn extract_reason_leaves_a_status_without_leave_tag_as_it_is() {
    assert_eq!(extract_reason("正常"), "正常");
    assert_eq!(extract_reason("迟到"), "迟到");
    assert_eq!(extract_reason("请假"), "请假");
    assert_eq!(extract_reason("请假(事假"), "请假(事假");
    assert_eq!(extract_reason(""), "");
}

#[test]
fn extract_reason_stops_at_the_first_closing_bracket() {
    assert_eq!(extract_reason("请假(事假)(备注)"), "事假");
    assert_eq!(extract_reason("请假(甲(乙)丙)"), "甲(乙");
    assert_eq!(extract_reason("请假(事假) 请假(病假)"), "事假");
}

#[test]
fn extract_reason_shortens_only_the_exact_joint_reason() {
    assert_eq!(extract_reason("请假(哺乳假)"), "哺乳假");
    assert_eq!(extract_reason("请假(哺乳假/工间休息假 )"), "哺乳假/工间休息假 ");
    assert_eq!(extract_reason("请假(工间休息假)"), "工间休息假");
}

#[test]
fn reason_from_capture_follows_the_capture() {
    assert_eq!(reason_from_capture("甲", Some("乙".to_string())), "乙");
    assert_eq!(reason_from_capture("甲", Some(String::new())), "");
    assert_eq!(reason_from_capture("甲", Some("哺乳假/工间休息假".to_string())), "哺乳假");
    assert_eq!(reason_from_capture("甲", None), "甲");
}
