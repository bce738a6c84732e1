use workday_sftp_rest_server::canvas::csv_defs::{ADCIDStatus, ADCPStatus, ADStatus, ASDStatus, CanvasDateTime, CourseId, SectionId, SetDelete};
use workday_sftp_rest_server::canvas::training::{
    count_failed, hr_training_calendar, hr_training_people, hr_training_window, training_status, HrWarning,
};
use workday_sftp_rest_server::employees::{check_employees_format, employees_csv, ExportError};
use workday_sftp_rest_server::papercut::{check_upload, feed_status, is_valid_account_name, papercut_feed, CreateAccountsFor, PapercutError, PapercutWarning};
use workday_sftp_rest_server::csv_row_definitions::{
    employee_by_cnum, employee_by_id, employee_id_for_cnum, filled_position_by_employee, is_employee_check,
    position_by_employee, INT069ARow, INT069BRow,
};

fn emp(eid: &str, cnum: &str, first: &str, last: &str, user: &str) -> INT069ARow {
    INT069ARow {
        Employee_ID: eid.to_string(),
        User_Name: user.to_string(),
        dateOfBirth: String::new(),
        Legal_Name_First_Name: first.to_string(),
        Legal_Name_Middle_Name: String::new(),
        Legal_Name_Last_Name: last.to_string(),
        Preferred_Name_First_Name: first.to_string(),
        Preferred_Name_Middle_Name: String::new(),
        Preferred_Name_Last_Name: last.to_string(),
        Email_Work: String::new(),
        Email_Home: String::new(),
        primaryWorkPhone: String::new(),
        Phone_Primary_Home: String::new(),
        Primary_Mobile_Phone: String::new(),
        Home_Address_Formatted_Line_1: String::new(),
        Home_Address_Formatted_Line_2: String::new(),
        Home_Address_Formatted_Line_3: String::new(),
        Home_Address_city: String::new(),
        Home_Address_State: String::new(),
        Home_Address_Postal_Code: String::new(),
        Legacy_Banner_ID: cnum.to_string(),
    }
}

fn pos(pid: &str, eid: &str, time_type: &str) -> INT069BRow {
    INT069BRow {
        Position_ID: pid.to_string(),
        External_Position_ID: String::new(),
        Employee_ID: eid.to_string(),
        Time_Type: time_type.to_string(),
        Employee_Type: String::new(),
        Position_Title: String::new(),
        Job_Profile_ID: String::new(),
        Job_Profile_Name: String::new(),
        Job_Family_Group: String::new(),
        Position_Start: String::new(),
        Position_End: String::new(),
        Division: String::new(),
        Department: String::new(),
        Position_Location_Address_Line_1: String::new(),
        Position_Location_Address_Line_2: String::new(),
        Position_Location_Address_Line_3: String::new(),
        Position_Location_Address_City: String::new(),
        Position_Location_Address_State: String::new(),
        Position_Location_Address_Postal_Code: String::new(),
        Cost_Center_Code: String::new(),
        Cost_Center_Description: String::new(),
        Manager_Employee_ID: String::new(),
    }
}

#[test]
fn lookups_keep_first_or_last() {
    let a = vec![
        emp("E1", "C00000001", "Ann", "A", "ann@x"),
        emp("E2", "C00000002", "Bob", "B", "bob@x"),
        emp("E1", "C00000003", "Ann2", "A2", "ann2@x"),
    ];
    assert_eq!(employee_by_id(&a, "E1"), Some(2));
    assert_eq!(employee_by_id(&a, "E3"), None);
    assert_eq!(employee_by_cnum(&a, "C00000002"), Some(1));
    let b = vec![pos("P1", "", "Full time"), pos("P2", "E1", "Full time"), pos("P3", "E1", "Part time")];
    assert_eq!(position_by_employee(&b, "E1"), Some(1));
    assert_eq!(position_by_employee(&b, ""), Some(0));
    assert_eq!(filled_position_by_employee(&b, "E1"), Some(2));
    assert_eq!(filled_position_by_employee(&b, ""), None);
}

#[test]
fn cnum_maps_to_last_employee_id() {
    let a = vec![emp("E1", "C1", "", "", ""), emp("E2", "C1", "", "", ""), emp("E3", "C3", "", "", "")];
    assert_eq!(employee_id_for_cnum(&a, "C1").as_deref(), Some("E2"));
    assert_eq!(employee_id_for_cnum(&a, "C9"), None);
}

#[test]
fn employee_check_answers() {
    let a = vec![emp("E1", "C00000001", "", "", ""), emp("E2", "C00000002", "", "", "")];
    let b = vec![pos("P9", "E2", "Full time"), pos("P10", "E2", "Part time")];
    assert_eq!(is_employee_check("C00000002", &a, &b), Ok("P9".to_string()));
    assert_eq!(is_employee_check("C00000001", &a, &b), Err("user has no associated position".to_string()));
    assert_eq!(is_employee_check("C00000003", &a, &b), Err("user not found".to_string()));
}

fn dt(year: i32, month: u32, day: u32, hour: u32, minute: u32, second: u32) -> CanvasDateTime {
    CanvasDateTime { year, month, day, hour, minute, second }
}

#[test]
fn training_window_is_offset_by_seven_hours() {
    let (start, end) = hr_training_window(2024).unwrap();
    assert_eq!(start, dt(2024, 1, 1, 7, 0, 0));
    assert_eq!(end, dt(2025, 1, 1, 6, 59, 59));
    assert!(hr_training_window(i32::MAX).is_none());
}

#[test]
fn training_calendar_names_the_year() {
    let start = dt(2024, 1, 1, 7, 0, 0);
    let end = dt(2025, 1, 1, 6, 59, 59);
    let c = hr_training_calendar(2024, start, end);
    assert_eq!(c.terms.len(), 1);
    assert_eq!(c.terms[0].term_id.0, "Calendar Year 2024");
    assert_eq!(c.terms[0].name, "Calendar Year 2024");
    assert_eq!(c.terms[0].status, ADStatus::Active);
    assert_eq!(c.terms[0].start_date, Some(start));
    assert_eq!(c.courses[0].course_id.0, "C_HR_ANNUAL_TRAINING_YEAR_2024");
    assert_eq!(c.courses[0].short_name, "HR Annual Training 2024");
    assert_eq!(c.courses[0].account_id.as_ref().unwrap().0, "Workshops");
    assert_eq!(c.courses[0].term_id.as_ref().unwrap().0, "Calendar Year 2024");
    assert_eq!(c.courses[0].status, ADCPStatus::Active);
    assert!(matches!(c.courses[0].end_date, Some(SetDelete::Value(d)) if d == end));
    assert_eq!(c.sections[0].section_id.0, "S_HR_ANNUAL_TRAINING_YEAR_2024");
    assert_eq!(c.sections[0].course_id.0, "C_HR_ANNUAL_TRAINING_YEAR_2024");
    let teachers: Vec<&str> = c.enrollments.iter().map(|e| e.user_id.as_ref().unwrap().0.as_str()).collect();
    assert_eq!(teachers, vec!["C00045541", "C00082030", "C00069811"]);
    for e in &c.enrollments {
        assert_eq!(e.role.as_ref().unwrap().0, "teacher");
        assert_eq!(e.status, ADCIDStatus::Active);
        assert_eq!(e.associated_user_id.as_ref().unwrap().0, "");
        assert_eq!(e.section_id.as_ref().unwrap().0, "S_HR_ANNUAL_TRAINING_YEAR_2024");
    }
}

#[test]
fn training_people_and_warnings() {
    let a = vec![
        emp("E1", "C00000001", "Ann", "A", "ann@x"),
        emp("E2", "", "Bob", "B", "bob@x"),
        emp("E3", "C00000003", "Cid", "C", "cid@x"),
        emp("E4", "C00000004", "Dan", "D", "dan@x"),
        emp("E5", "C00000005", "Eve", "E", "eve@x"),
        emp("E6", "C00000006", "Fay", "F", "fay@x"),
    ];
    let b = vec![
        pos("P1", "E1", "Full time"),
        pos("P2", "E2", "Full time"),
        pos("P4", "E4", "Part time"),
        pos("P5", "E5", "Seasonal"),
        pos("P6", "E6", "Full time"),
        pos("P6b", "E6", "Part time"),
    ];
    let logins = vec![
        ("C00000001".to_string(), "ann".to_string()),
        ("C00000004".to_string(), "old".to_string()),
        ("C00000004".to_string(), "".to_string()),
        ("C00000005".to_string(), "eve".to_string()),
        ("C00000006".to_string(), "x".to_string()),
        ("C00000006".to_string(), "fay".to_string()),
    ];
    let course = CourseId("C_HR".to_string());
    let section = SectionId("S_HR".to_string());
    let p = hr_training_people(&a, &b, &logins, &course, &section);
    let ids: Vec<&str> = p.users.iter().map(|u| u.user_id.0.as_str()).collect();
    assert_eq!(ids, vec!["C00000001", "C00000005", "C00000006"]);
    let logins_of: Vec<&str> = p.users.iter().map(|u| u.login_id.0.as_str()).collect();
    assert_eq!(logins_of, vec!["ann", "eve", "fay"]);
    assert_eq!(p.users[0].email.as_deref(), Some("ann@x"));
    assert_eq!(p.users[0].first_name.as_deref(), Some("Ann"));
    assert_eq!(p.users[0].status, ASDStatus::Active);
    let statuses: Vec<ADCIDStatus> = p.user_enrollments.iter().map(|e| e.status).collect();
    assert_eq!(statuses, vec![ADCIDStatus::Active, ADCIDStatus::Deleted, ADCIDStatus::Deleted]);
    for e in &p.user_enrollments {
        assert_eq!(e.role.as_ref().unwrap().0, "student");
        assert_eq!(e.course_id.as_ref().unwrap().0, "C_HR");
    }
    assert_eq!(p.warnings.len(), 3);
    assert!(matches!(&p.warnings[0], HrWarning::NoBannerLoginId { employee_id, .. } if employee_id == "E2"));
    assert!(matches!(&p.warnings[1], HrWarning::NoLoginMapping { employee_id, banner_id, .. } if employee_id == "E4" && banner_id == "C00000004"));
    assert!(matches!(&p.warnings[2], HrWarning::UnexpectedTimeType { actual, employee_id, .. } if actual == "Seasonal" && employee_id == "E5"));
}

#[test]
fn training_status_lines() {
    assert_eq!(training_status(0, false), "success");
    assert_eq!(training_status(0, true), "success-with-warnings");
    assert_eq!(training_status(3, true), "errors: 3");
}

#[test]
fn papercut_feed_selects_and_formats() {
    let a = vec![
        emp("E1", "C00000001", "Ann", "A", "ann@x"),
        emp("E2", "X123", "Bob", "B", "bob@x"),
        emp("E1", "c12345678", "Ann", "Again", "ann2@x"),
    ];
    let b = vec![
        pos("P1", "E1", ""),
        pos("P2", "E2", ""),
        pos("P3", "E9", ""),
        pos("P4", "E2", ""),
        pos("P1", "", ""),
    ];
    let caf = CreateAccountsFor::PositionIDs { position_ids: vec!["P1".to_string(), "P2".to_string(), "P3".to_string()] };
    let feed = papercut_feed(&caf, &a, &b);
    assert_eq!(feed.data, b"c12345678\tAgain\t\tY\tAnn Again\tann2@x\t\t\t\t\t\r\n".to_vec());
    assert_eq!(feed.records.len(), 1);
    assert_eq!(feed.warnings.len(), 2);
    assert!(matches!(&feed.warnings[0], PapercutWarning::BadLegacyId { employee_id, legacy_banner_id } if employee_id == "E2" && legacy_banner_id == "X123"));
    assert!(matches!(&feed.warnings[1], PapercutWarning::EmployeeNotFound { position_id, employee_id } if position_id == "P3" && employee_id == "E9"));
    let none = papercut_feed(&CreateAccountsFor::Nobody, &a, &b);
    assert!(none.data.is_empty() && none.warnings.is_empty());
    let all = papercut_feed(&CreateAccountsFor::ActiveEmployees, &a, &b);
    assert_eq!(all.records.len(), 1);
    assert_eq!(all.warnings.len(), 3);
}

#[test]
fn account_names_and_uploads() {
    assert!(is_valid_account_name("C00012345"));
    assert!(is_valid_account_name("c00012345"));
    assert!(!is_valid_account_name("D00012345"));
    assert!(!is_valid_account_name("C0001234"));
    assert!(!is_valid_account_name("C0001234a"));
    assert!(!is_valid_account_name(""));
    assert!(!is_valid_account_name("Ç0001234"));
    assert!(check_upload(10, 10).is_ok());
    assert!(matches!(check_upload(9, 10), Err(PapercutError::IncompleteUpload { written: 9, expected: 10 })));
}

#[test]
fn employee_export_joins_positions() {
    assert!(check_employees_format("csv").is_ok());
    assert!(matches!(check_employees_format("json"), Err(ExportError::UnsupportedFormat(f)) if f == "json"));
    assert!(employees_csv(&vec![], &vec![]).is_empty());
    let a = vec![emp("E1", "C00000001", "Ann", "A", "ann@x")];
    let b = vec![pos("P1", "E1", "Full time"), pos("P2", "E7", "Part time, seasonal")];
    let out = String::from_utf8(employees_csv(&a, &b)).unwrap();
    let lines: Vec<&str> = out.lines().collect();
    assert_eq!(lines.len(), 3);
    assert!(lines[0].starts_with("Employee_ID,User_Name,dateOfBirth,Legal_Name_First_Name,"));
    assert!(lines[0].ends_with(",Legacy_Banner_ID,Position_ID,External_Position_ID,Time_Type,Employee_Type,Position_Title,Job_Profile_ID,Job_Profile_Name,Job_Family_Group,Position_Start,Position_End,Division,Department,Position_Location_Address_Line_1,Position_Location_Address_Line_2,Position_Location_Address_Line_3,Position_Location_Address_City,Position_Location_Address_State,Position_Location_Address_Postal_Code,Cost_Center_Code,Cost_Center_Description,Manager_Employee_ID"));
    assert_eq!(lines[0].split(',').count(), 42);
    assert_eq!(lines[1], "E1,ann@x,,Ann,,A,Ann,,A,,,,,,,,,,,,C00000001,P1,,Full time,,,,,,,,,,,,,,,,,,");
    assert_eq!(lines[2], "E7,,,,,,,,,,,,,,,,,,,,,P2,,\"Part time, seasonal\",,,,,,,,,,,,,,,,,,");
}

#[test]
fn training_window_follows_the_calendar_to_the_edge_of_chrono() {
    let (start, end) = hr_training_window(2023).unwrap();
    assert_eq!(start, dt(2023, 1, 1, 7, 0, 0));
    assert_eq!(end, dt(2024, 1, 1, 6, 59, 59));
    let (_, end) = hr_training_window(262141).unwrap();
    assert_eq!(end, dt(262142, 1, 1, 6, 59, 59));
    assert!(hr_training_window(262142).is_none());
    let (start, _) = hr_training_window(-262143).unwrap();
    assert_eq!(start, dt(-262143, 1, 1, 7, 0, 0));
    assert!(hr_training_window(-262144).is_none());
}

#[test]
fn failed_imports_are_counted() {
    assert_eq!(count_failed(&[false, true, true, false, true, false]), 3);
    assert_eq!(count_failed(&[]), 0);
    assert_eq!(training_status(count_failed(&[true, false]), true), "errors: 1");
}

#[test]
fn feed_status_tells_warnings_apart() {
    assert_eq!(feed_status(false), "success");
    assert_eq!(feed_status(true), "success-with-warnings");
}
