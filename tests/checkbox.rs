use project_starter::checkbox::{CheckboxController, CheckboxData};

fn form(a: bool, b: bool, c: bool) -> CheckboxData {
    CheckboxData {
        checkbox1: a,
        checkbox2: b,
        checkbox3: c,
        new_project_name: "demo".to_string(),
    }
}

#[test]
fn new_controller_has_seen_nothing_checked() {
    let c = CheckboxController::new();
    assert!(!c.prev_data.checkbox1);
    assert!(!c.prev_data.checkbox2);
    assert!(!c.prev_data.checkbox3);
    assert_eq!(c.prev_data.new_project_name, "");
}

#[test]
fn click_reports_boxes_turned_on() {
    let mut c = CheckboxController::new();
    assert_eq!(c.mouse_up(&form(true, false, true)), vec![1, 3]);
    assert!(c.prev_data.checkbox1);
    assert!(!c.prev_data.checkbox2);
    assert!(c.prev_data.checkbox3);
    assert_eq!(c.prev_data.new_project_name, "");
}

#[test]
fn boxes_already_on_or_turned_off_are_not_reported() {
    let mut c = CheckboxController::new();
    assert_eq!(c.mouse_up(&form(true, true, false)), vec![1, 2]);
    assert_eq!(c.mouse_up(&form(true, false, true)), vec![3]);
    assert_eq!(c.mouse_up(&form(false, false, false)), Vec::<u8>::new());
    assert_eq!(c.mouse_up(&form(false, true, false)), vec![2]);
}
