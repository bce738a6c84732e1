//! The joined employee export: one CSV record per position, with the columns of the
//! position's employee.

use vstd::prelude::*;
use crate::csv_row_definitions::{INT069ARow, INT069BRow, employee_by_id, employee_with_id};
use crate::search::last_where;
use crate::text::str_eq;
use crate::utils::csv::{csv_record, csv_records, record_views, spec_csv_record, spec_csv_records, str_views};

verus! {

/// Why the employee export could not be produced.
#[derive(Debug)]
pub enum ExportError {
    /// A format other than `csv` was asked for; the format.
    UnsupportedFormat(String),
}

/// Accepts the only export format, `csv`.
pub fn check_employees_format(format: &str) -> (r: Result<(), ExportError>)
    ensures
        format@ == "csv"@ ==> r is Ok,
        format@ != "csv"@ ==> (r matches Err(ExportError::UnsupportedFormat(f)) && f@ == format@),
{
    if str_eq(format, "csv") {
        Ok(())
    } else {
        Err(ExportError::UnsupportedFormat(format.to_owned()))
    }
}

/// The column names of the export, in order.
pub open spec fn spec_employee_header() -> Seq<Seq<char>> {
    seq![
        "Employee_ID"@,
        "User_Name"@,
        "dateOfBirth"@,
        "Legal_Name_First_Name"@,
        "Legal_Name_Middle_Name"@,
        "Legal_Name_Last_Name"@,
        "Preferred_Name_First_Name"@,
        "Preferred_Name_Middle_Name"@,
        "Preferred_Name_Last_Name"@,
        "Email_Work"@,
        "Email_Home"@,
        "primaryWorkPhone"@,
        "Phone_Primary_Home"@,
        "Primary_Mobile_Phone"@,
        "Home_Address_Formatted_Line_1"@,
        "Home_Address_Formatted_Line_2"@,
        "Home_Address_Formatted_Line_3"@,
        "Home_Address_city"@,
        "Home_Address_State"@,
        "Home_Address_Postal_Code"@,
        "Legacy_Banner_ID"@,
        "Position_ID"@,
        "External_Position_ID"@,
        "Time_Type"@,
        "Employee_Type"@,
        "Position_Title"@,
        "Job_Profile_ID"@,
        "Job_Profile_Name"@,
        "Job_Family_Group"@,
        "Position_Start"@,
        "Position_End"@,
        "Division"@,
        "Department"@,
        "Position_Location_Address_Line_1"@,
        "Position_Location_Address_Line_2"@,
        "Position_Location_Address_Line_3"@,
        "Position_Location_Address_City"@,
        "Position_Location_Address_State"@,
        "Position_Location_Address_Postal_Code"@,
        "Cost_Center_Code"@,
        "Cost_Center_Description"@,
        "Manager_Employee_ID"@
    ]
}

/// The record of the position `r`, held by the employee `e` if one was found: the
/// employee ID of the position, the employee's columns (empty without employee), then
/// the position's columns.
pub open spec fn spec_employee_record(r: INT069BRow, e: Option<INT069ARow>) -> Seq<Seq<char>> {
    match e {
        Some(e) => seq![
                r.Employee_ID@,
                e.User_Name@,
                e.dateOfBirth@,
                e.Legal_Name_First_Name@,
                e.Legal_Name_Middle_Name@,
                e.Legal_Name_Last_Name@,
                e.Preferred_Name_First_Name@,
                e.Preferred_Name_Middle_Name@,
                e.Preferred_Name_Last_Name@,
                e.Email_Work@,
                e.Email_Home@,
                e.primaryWorkPhone@,
                e.Phone_Primary_Home@,
                e.Primary_Mobile_Phone@,
                e.Home_Address_Formatted_Line_1@,
                e.Home_Address_Formatted_Line_2@,
                e.Home_Address_Formatted_Line_3@,
                e.Home_Address_city@,
                e.Home_Address_State@,
                e.Home_Address_Postal_Code@,
                e.Legacy_Banner_ID@,
                r.Position_ID@,
                r.External_Position_ID@,
                r.Time_Type@,
                r.Employee_Type@,
                r.Position_Title@,
                r.Job_Profile_ID@,
                r.Job_Profile_Name@,
                r.Job_Family_Group@,
                r.Position_Start@,
                r.Position_End@,
                r.Division@,
                r.Department@,
                r.Position_Location_Address_Line_1@,
                r.Position_Location_Address_Line_2@,
                r.Position_Location_Address_Line_3@,
                r.Position_Location_Address_City@,
                r.Position_Location_Address_State@,
                r.Position_Location_Address_Postal_Code@,
                r.Cost_Center_Code@,
                r.Cost_Center_Description@,
                r.Manager_Employee_ID@
            ],
        None => seq![
                r.Employee_ID@,
                Seq::empty(),
                Seq::empty(),
                Seq::empty(),
                Seq::empty(),
                Seq::empty(),
                Seq::empty(),
                Seq::empty(),
                Seq::empty(),
                Seq::empty(),
                Seq::empty(),
                Seq::empty(),
                Seq::empty(),
                Seq::empty(),
                Seq::empty(),
                Seq::empty(),
                Seq::empty(),
                Seq::empty(),
                Seq::empty(),
                Seq::empty(),
                Seq::empty(),
                r.Position_ID@,
                r.External_Position_ID@,
                r.Time_Type@,
                r.Employee_Type@,
                r.Position_Title@,
                r.Job_Profile_ID@,
                r.Job_Profile_Name@,
                r.Job_Family_Group@,
                r.Position_Start@,
                r.Position_End@,
                r.Division@,
                r.Department@,
                r.Position_Location_Address_Line_1@,
                r.Position_Location_Address_Line_2@,
                r.Position_Location_Address_Line_3@,
                r.Position_Location_Address_City@,
                r.Position_Location_Address_State@,
                r.Position_Location_Address_Postal_Code@,
                r.Cost_Center_Code@,
                r.Cost_Center_Description@,
                r.Manager_Employee_ID@
            ],
    }
}

/// The employee row that the position `r` is joined with: the last one with its employee ID.
pub open spec fn employee_of(int069a: Seq<INT069ARow>, r: INT069BRow) -> Option<INT069ARow> {
    match last_where(int069a, employee_with_id(r.Employee_ID@)) {
        Some(i) => Some(int069a[i]),
        None => None,
    }
}

/// The records of the export, one per position, in order.
pub open spec fn spec_employee_records(int069a: Seq<INT069ARow>, int069b: Seq<INT069BRow>) -> Seq<Seq<Seq<char>>> {
    Seq::new(int069b.len(), |k: int| spec_employee_record(int069b[k], employee_of(int069a, int069b[k])))
}

/// The CSV text of the export: nothing when there is no position, else the header and
/// the records, comma-separated and `\n`-terminated.
pub open spec fn spec_employees_csv(int069a: Seq<INT069ARow>, int069b: Seq<INT069BRow>) -> Seq<u8> {
    if int069b.len() == 0 {
        Seq::empty()
    } else {
        spec_csv_record(spec_employee_header(), 44u8, false)
            + spec_csv_records(spec_employee_records(int069a, int069b), 44u8, false)
    }
}

fn employee_header() -> (h: Vec<String>)
    ensures
        str_views(h@) == spec_employee_header(),
{
    let mut h: Vec<String> = Vec::new();
    h.push("Employee_ID".to_owned());
    h.push("User_Name".to_owned());
    h.push("dateOfBirth".to_owned());
    h.push("Legal_Name_First_Name".to_owned());
    h.push("Legal_Name_Middle_Name".to_owned());
    h.push("Legal_Name_Last_Name".to_owned());
    h.push("Preferred_Name_First_Name".to_owned());
    h.push("Preferred_Name_Middle_Name".to_owned());
    h.push("Preferred_Name_Last_Name".to_owned());
    h.push("Email_Work".to_owned());
    h.push("Email_Home".to_owned());
    h.push("primaryWorkPhone".to_owned());
    h.push("Phone_Primary_Home".to_owned());
    h.push("Primary_Mobile_Phone".to_owned());
    h.push("Home_Address_Formatted_Line_1".to_owned());
    h.push("Home_Address_Formatted_Line_2".to_owned());
    h.push("Home_Address_Formatted_Line_3".to_owned());
    h.push("Home_Address_city".to_owned());
    h.push("Home_Address_State".to_owned());
    h.push("Home_Address_Postal_Code".to_owned());
    h.push("Legacy_Banner_ID".to_owned());
    h.push("Position_ID".to_owned());
    h.push("External_Position_ID".to_owned());
    h.push("Time_Type".to_owned());
    h.push("Employee_Type".to_owned());
    h.push("Position_Title".to_owned());
    h.push("Job_Profile_ID".to_owned());
    h.push("Job_Profile_Name".to_owned());
    h.push("Job_Family_Group".to_owned());
    h.push("Position_Start".to_owned());
    h.push("Position_End".to_owned());
    h.push("Division".to_owned());
    h.push("Department".to_owned());
    h.push("Position_Location_Address_Line_1".to_owned());
    h.push("Position_Location_Address_Line_2".to_owned());
    h.push("Position_Location_Address_Line_3".to_owned());
    h.push("Position_Location_Address_City".to_owned());
    h.push("Position_Location_Address_State".to_owned());
    h.push("Position_Location_Address_Postal_Code".to_owned());
    h.push("Cost_Center_Code".to_owned());
    h.push("Cost_Center_Description".to_owned());
    h.push("Manager_Employee_ID".to_owned());
    assert(str_views(h@) =~= spec_employee_header());
    h
}

fn push_field(rec: &mut Vec<String>, s: &String)
    ensures
        str_views(final(rec)@) == str_views(old(rec)@).push(s@),
{
    rec.push(s.clone());
    assert(str_views(rec@) =~= str_views(old(rec)@).push(s@));
}

fn push_empty(rec: &mut Vec<String>)
    ensures
        str_views(final(rec)@) == str_views(old(rec)@).push(Seq::empty()),
{
    rec.push(String::new());
    assert(str_views(rec@) =~= str_views(old(rec)@).push(Seq::empty()));
}

fn employee_record(r: &INT069BRow, e: Option<&INT069ARow>) -> (rec: Vec<String>)
    ensures
        str_views(rec@) == spec_employee_record(*r, match e { Some(x) => Some(*x), None => None }),
{
    let mut rec: Vec<String> = Vec::new();
    push_field(&mut rec, &r.Employee_ID);
    match e {
        Some(e) => {
            push_field(&mut rec, &e.User_Name);
            push_field(&mut rec, &e.dateOfBirth);
            push_field(&mut rec, &e.Legal_Name_First_Name);
            push_field(&mut rec, &e.Legal_Name_Middle_Name);
            push_field(&mut rec, &e.Legal_Name_Last_Name);
            push_field(&mut rec, &e.Preferred_Name_First_Name);
            push_field(&mut rec, &e.Preferred_Name_Middle_Name);
            push_field(&mut rec, &e.Preferred_Name_Last_Name);
            push_field(&mut rec, &e.Email_Work);
            push_field(&mut rec, &e.Email_Home);
            push_field(&mut rec, &e.primaryWorkPhone);
            push_field(&mut rec, &e.Phone_Primary_Home);
            push_field(&mut rec, &e.Primary_Mobile_Phone);
            push_field(&mut rec, &e.Home_Address_Formatted_Line_1);
            push_field(&mut rec, &e.Home_Address_Formatted_Line_2);
            push_field(&mut rec, &e.Home_Address_Formatted_Line_3);
            push_field(&mut rec, &e.Home_Address_city);
            push_field(&mut rec, &e.Home_Address_State);
            push_field(&mut rec, &e.Home_Address_Postal_Code);
            push_field(&mut rec, &e.Legacy_Banner_ID);
        },
        None => {
            push_empty(&mut rec);
            push_empty(&mut rec);
            push_empty(&mut rec);
            push_empty(&mut rec);
            push_empty(&mut rec);
            push_empty(&mut rec);
            push_empty(&mut rec);
            push_empty(&mut rec);
            push_empty(&mut rec);
            push_empty(&mut rec);
            push_empty(&mut rec);
            push_empty(&mut rec);
            push_empty(&mut rec);
            push_empty(&mut rec);
            push_empty(&mut rec);
            push_empty(&mut rec);
            push_empty(&mut rec);
            push_empty(&mut rec);
            push_empty(&mut rec);
            push_empty(&mut rec);
        },
    }
    push_field(&mut rec, &r.Position_ID);
    push_field(&mut rec, &r.External_Position_ID);
    push_field(&mut rec, &r.Time_Type);
    push_field(&mut rec, &r.Employee_Type);
    push_field(&mut rec, &r.Position_Title);
    push_field(&mut rec, &r.Job_Profile_ID);
    push_field(&mut rec, &r.Job_Profile_Name);
    push_field(&mut rec, &r.Job_Family_Group);
    push_field(&mut rec, &r.Position_Start);
    push_field(&mut rec, &r.Position_End);
    push_field(&mut rec, &r.Division);
    push_field(&mut rec, &r.Department);
    push_field(&mut rec, &r.Position_Location_Address_Line_1);
    push_field(&mut rec, &r.Position_Location_Address_Line_2);
    push_field(&mut rec, &r.Position_Location_Address_Line_3);
    push_field(&mut rec, &r.Position_Location_Address_City);
    push_field(&mut rec, &r.Position_Location_Address_State);
    push_field(&mut rec, &r.Position_Location_Address_Postal_Code);
    push_field(&mut rec, &r.Cost_Center_Code);
    push_field(&mut rec, &r.Cost_Center_Description);
    push_field(&mut rec, &r.Manager_Employee_ID);
    assert(str_views(rec@) =~= spec_employee_record(*r, match e { Some(x) => Some(*x), None => None }));
    rec
}

/// The employee export as CSV: for each position of `int069b`, in order, the record
/// joined with the last employee row of `int069a` with the same employee ID; a header
/// first unless there is no position.
pub fn employees_csv(int069a: &Vec<INT069ARow>, int069b: &Vec<INT069BRow>) -> (r: Vec<u8>)
    ensures
        r@ == spec_employees_csv(int069a@, int069b@),
{
    let mut records: Vec<Vec<String>> = Vec::new();
    let mut k: usize = 0;
    while k < int069b.len()
        invariant
            k <= int069b@.len(),
            record_views(records@) == spec_employee_records(int069a@, int069b@).take(k as int),
        decreases int069b.len() - k,
    {
        let r = &int069b[k];
        let found = employee_by_id(int069a, r.Employee_ID.as_str());
        let rec = match found {
            Some(i) => employee_record(r, Some(&int069a[i])),
            None => employee_record(r, None),
        };
        let ghost before = record_views(records@);
        records.push(rec);
        assert(record_views(records@) =~= before.push(str_views(rec@)));
        assert(record_views(records@) =~= spec_employee_records(int069a@, int069b@).take(k + 1));
        k = k + 1;
    }
    assert(spec_employee_records(int069a@, int069b@).take(int069b@.len() as int) =~= spec_employee_records(int069a@, int069b@));
    if records.len() == 0 {
        return Vec::new();
    }
    let header = employee_header();
    let mut out: Vec<u8> = Vec::new();
    if let Some(mut h) = csv_record(&header, 44u8, false) {
        out.append(&mut h);
    }
    let mut body = csv_records(&records, 44u8, false);
    out.append(&mut body);
    out
}


/// The value that the employee `e` gives to the column named `name`, if it is one of
/// the employee's columns.
pub open spec fn employee_column(e: INT069ARow, name: Seq<char>) -> Option<Seq<char>> {
    if name == "Employee_ID"@ {
        Some(e.Employee_ID@)
    } else if name == "User_Name"@ {
        Some(e.User_Name@)
    } else if name == "dateOfBirth"@ {
        Some(e.dateOfBirth@)
    } else if name == "Legal_Name_First_Name"@ {
        Some(e.Legal_Name_First_Name@)
    } else if name == "Legal_Name_Middle_Name"@ {
        Some(e.Legal_Name_Middle_Name@)
    } else if name == "Legal_Name_Last_Name"@ {
        Some(e.Legal_Name_Last_Name@)
    } else if name == "Preferred_Name_First_Name"@ {
        Some(e.Preferred_Name_First_Name@)
    } else if name == "Preferred_Name_Middle_Name"@ {
        Some(e.Preferred_Name_Middle_Name@)
    } else if name == "Preferred_Name_Last_Name"@ {
        Some(e.Preferred_Name_Last_Name@)
    } else if name == "Email_Work"@ {
        Some(e.Email_Work@)
    } else if name == "Email_Home"@ {
        Some(e.Email_Home@)
    } else if name == "primaryWorkPhone"@ {
        Some(e.primaryWorkPhone@)
    } else if name == "Phone_Primary_Home"@ {
        Some(e.Phone_Primary_Home@)
    } else if name == "Primary_Mobile_Phone"@ {
        Some(e.Primary_Mobile_Phone@)
    } else if name == "Home_Address_Formatted_Line_1"@ {
        Some(e.Home_Address_Formatted_Line_1@)
    } else if name == "Home_Address_Formatted_Line_2"@ {
        Some(e.Home_Address_Formatted_Line_2@)
    } else if name == "Home_Address_Formatted_Line_3"@ {
        Some(e.Home_Address_Formatted_Line_3@)
    } else if name == "Home_Address_city"@ {
        Some(e.Home_Address_city@)
    } else if name == "Home_Address_State"@ {
        Some(e.Home_Address_State@)
    } else if name == "Home_Address_Postal_Code"@ {
        Some(e.Home_Address_Postal_Code@)
    } else if name == "Legacy_Banner_ID"@ {
        Some(e.Legacy_Banner_ID@)
    } else {
        None
    }
}

/// The value that the position `r` gives to the column named `name`, if it is one of
/// the position's columns (its employee ID among them).
pub open spec fn position_column(r: INT069BRow, name: Seq<char>) -> Option<Seq<char>> {
    if name == "Employee_ID"@ {
        Some(r.Employee_ID@)
    } else if name == "Position_ID"@ {
        Some(r.Position_ID@)
    } else if name == "External_Position_ID"@ {
        Some(r.External_Position_ID@)
    } else if name == "Time_Type"@ {
        Some(r.Time_Type@)
    } else if name == "Employee_Type"@ {
        Some(r.Employee_Type@)
    } else if name == "Position_Title"@ {
        Some(r.Position_Title@)
    } else if name == "Job_Profile_ID"@ {
        Some(r.Job_Profile_ID@)
    } else if name == "Job_Profile_Name"@ {
        Some(r.Job_Profile_Name@)
    } else if name == "Job_Family_Group"@ {
        Some(r.Job_Family_Group@)
    } else if name == "Position_Start"@ {
        Some(r.Position_Start@)
    } else if name == "Position_End"@ {
        Some(r.Position_End@)
    } else if name == "Division"@ {
        Some(r.Division@)
    } else if name == "Department"@ {
        Some(r.Department@)
    } else if name == "Position_Location_Address_Line_1"@ {
        Some(r.Position_Location_Address_Line_1@)
    } else if name == "Position_Location_Address_Line_2"@ {
        Some(r.Position_Location_Address_Line_2@)
    } else if name == "Position_Location_Address_Line_3"@ {
        Some(r.Position_Location_Address_Line_3@)
    } else if name == "Position_Location_Address_City"@ {
        Some(r.Position_Location_Address_City@)
    } else if name == "Position_Location_Address_State"@ {
        Some(r.Position_Location_Address_State@)
    } else if name == "Position_Location_Address_Postal_Code"@ {
        Some(r.Position_Location_Address_Postal_Code@)
    } else if name == "Cost_Center_Code"@ {
        Some(r.Cost_Center_Code@)
    } else if name == "Cost_Center_Description"@ {
        Some(r.Cost_Center_Description@)
    } else if name == "Manager_Employee_ID"@ {
        Some(r.Manager_Employee_ID@)
    } else {
        None
    }
}

/// The value of the column named `name` in the record of the position `r` joined with
/// the employee `e`: the employee's column of that name, else the position's, else empty.
pub open spec fn joined_column(r: INT069BRow, e: Option<INT069ARow>, name: Seq<char>) -> Seq<char> {
    match e {
        Some(e) => match employee_column(e, name) {
            Some(v) => v,
            None => match position_column(r, name) {
                Some(v) => v,
                None => Seq::empty(),
            },
        },
        None => match position_column(r, name) {
            Some(v) => v,
            None => Seq::empty(),
        },
    }
}

/// The record of a position holds, in each column, the value that the position and its
/// employee give to the column of that name in the header.
#[verifier::rlimit(60)]
proof fn lemma_record_columns_by_name(r: INT069BRow, e: Option<INT069ARow>)
    requires
        e matches Some(x) ==> x.Employee_ID@ == r.Employee_ID@,
    ensures
        spec_employee_record(r, e).len() == spec_employee_header().len(),
        forall|i: int| 0 <= i < spec_employee_header().len() ==>
            #[trigger] spec_employee_record(r, e)[i] == joined_column(r, e, spec_employee_header()[i]),
{
    reveal_strlit("Employee_ID");
    reveal_strlit("User_Name");
    reveal_strlit("dateOfBirth");
    reveal_strlit("Legal_Name_First_Name");
    reveal_strlit("Legal_Name_Middle_Name");
    reveal_strlit("Legal_Name_Last_Name");
    reveal_strlit("Preferred_Name_First_Name");
    reveal_strlit("Preferred_Name_Middle_Name");
    reveal_strlit("Preferred_Name_Last_Name");
    reveal_strlit("Email_Work");
    reveal_strlit("Email_Home");
    reveal_strlit("primaryWorkPhone");
    reveal_strlit("Phone_Primary_Home");
    reveal_strlit("Primary_Mobile_Phone");
    reveal_strlit("Home_Address_Formatted_Line_1");
    reveal_strlit("Home_Address_Formatted_Line_2");
    reveal_strlit("Home_Address_Formatted_Line_3");
    reveal_strlit("Home_Address_city");
    reveal_strlit("Home_Address_State");
    reveal_strlit("Home_Address_Postal_Code");
    reveal_strlit("Legacy_Banner_ID");
    reveal_strlit("Position_ID");
    reveal_strlit("External_Position_ID");
    reveal_strlit("Time_Type");
    reveal_strlit("Employee_Type");
    reveal_strlit("Position_Title");
    reveal_strlit("Job_Profile_ID");
    reveal_strlit("Job_Profile_Name");
    reveal_strlit("Job_Family_Group");
    reveal_strlit("Position_Start");
    reveal_strlit("Position_End");
    reveal_strlit("Division");
    reveal_strlit("Department");
    reveal_strlit("Position_Location_Address_Line_1");
    reveal_strlit("Position_Location_Address_Line_2");
    reveal_strlit("Position_Location_Address_Line_3");
    reveal_strlit("Position_Location_Address_City");
    reveal_strlit("Position_Location_Address_State");
    reveal_strlit("Position_Location_Address_Postal_Code");
    reveal_strlit("Cost_Center_Code");
    reveal_strlit("Cost_Center_Description");
    reveal_strlit("Manager_Employee_ID");
    assert("Employee_ID"@[0] != "dateOfBirth"@[0]);
    assert("Employee_ID"@[0] != "Position_ID"@[0]);
    assert("User_Name"@[0] != "Time_Type"@[0]);
    assert("dateOfBirth"@[0] != "Position_ID"@[0]);
    assert("Legal_Name_Last_Name"@[0] != "Primary_Mobile_Phone"@[0]);
    assert("Legal_Name_Last_Name"@[0] != "External_Position_ID"@[0]);
    assert("Preferred_Name_Last_Name"@[0] != "Home_Address_Postal_Code"@[0]);
    assert("Email_Work"@[6] != "Email_Home"@[6]);
    assert("Email_Work"@[0] != "Department"@[0]);
    assert("Email_Home"@[0] != "Department"@[0]);
    assert("primaryWorkPhone"@[0] != "Legacy_Banner_ID"@[0]);
    assert("primaryWorkPhone"@[0] != "Job_Profile_Name"@[0]);
    assert("primaryWorkPhone"@[0] != "Job_Family_Group"@[0]);
    assert("primaryWorkPhone"@[0] != "Cost_Center_Code"@[0]);
    assert("Phone_Primary_Home"@[0] != "Home_Address_State"@[0]);
    assert("Primary_Mobile_Phone"@[0] != "External_Position_ID"@[0]);
    assert("Home_Address_Formatted_Line_1"@[28] != "Home_Address_Formatted_Line_2"@[28]);
    assert("Home_Address_Formatted_Line_1"@[28] != "Home_Address_Formatted_Line_3"@[28]);
    assert("Home_Address_Formatted_Line_2"@[28] != "Home_Address_Formatted_Line_3"@[28]);
    assert("Legacy_Banner_ID"@[0] != "Job_Profile_Name"@[0]);
    assert("Legacy_Banner_ID"@[0] != "Job_Family_Group"@[0]);
    assert("Legacy_Banner_ID"@[0] != "Cost_Center_Code"@[0]);
    assert("Position_Title"@[0] != "Job_Profile_ID"@[0]);
    assert("Position_Title"@[9] != "Position_Start"@[9]);
    assert("Job_Profile_ID"@[0] != "Position_Start"@[0]);
    assert("Job_Profile_Name"@[4] != "Job_Family_Group"@[4]);
    assert("Job_Profile_Name"@[0] != "Cost_Center_Code"@[0]);
    assert("Job_Family_Group"@[0] != "Cost_Center_Code"@[0]);
    assert("Position_Location_Address_Line_1"@[31] != "Position_Location_Address_Line_2"@[31]);
    assert("Position_Location_Address_Line_1"@[31] != "Position_Location_Address_Line_3"@[31]);
    assert("Position_Location_Address_Line_2"@[31] != "Position_Location_Address_Line_3"@[31]);
    assert("Employee_ID"@.len() == 11);
    assert("User_Name"@.len() == 9);
    assert("dateOfBirth"@.len() == 11);
    assert("Legal_Name_First_Name"@.len() == 21);
    assert("Legal_Name_Middle_Name"@.len() == 22);
    assert("Legal_Name_Last_Name"@.len() == 20);
    assert("Preferred_Name_First_Name"@.len() == 25);
    assert("Preferred_Name_Middle_Name"@.len() == 26);
    assert("Preferred_Name_Last_Name"@.len() == 24);
    assert("Email_Work"@.len() == 10);
    assert("Email_Home"@.len() == 10);
    assert("primaryWorkPhone"@.len() == 16);
    assert("Phone_Primary_Home"@.len() == 18);
    assert("Primary_Mobile_Phone"@.len() == 20);
    assert("Home_Address_Formatted_Line_1"@.len() == 29);
    assert("Home_Address_Formatted_Line_2"@.len() == 29);
    assert("Home_Address_Formatted_Line_3"@.len() == 29);
    assert("Home_Address_city"@.len() == 17);
    assert("Home_Address_State"@.len() == 18);
    assert("Home_Address_Postal_Code"@.len() == 24);
    assert("Legacy_Banner_ID"@.len() == 16);
    assert("Position_ID"@.len() == 11);
    assert("External_Position_ID"@.len() == 20);
    assert("Time_Type"@.len() == 9);
    assert("Employee_Type"@.len() == 13);
    assert("Position_Title"@.len() == 14);
    assert("Job_Profile_ID"@.len() == 14);
    assert("Job_Profile_Name"@.len() == 16);
    assert("Job_Family_Group"@.len() == 16);
    assert("Position_Start"@.len() == 14);
    assert("Position_End"@.len() == 12);
    assert("Division"@.len() == 8);
    assert("Department"@.len() == 10);
    assert("Position_Location_Address_Line_1"@.len() == 32);
    assert("Position_Location_Address_Line_2"@.len() == 32);
    assert("Position_Location_Address_Line_3"@.len() == 32);
    assert("Position_Location_Address_City"@.len() == 30);
    assert("Position_Location_Address_State"@.len() == 31);
    assert("Position_Location_Address_Postal_Code"@.len() == 37);
    assert("Cost_Center_Code"@.len() == 16);
    assert("Cost_Center_Description"@.len() == 23);
    assert("Manager_Employee_ID"@.len() == 19);
    assert(spec_employee_record(r, e)[0] == joined_column(r, e, spec_employee_header()[0]));
    assert(spec_employee_record(r, e)[1] == joined_column(r, e, spec_employee_header()[1]));
    assert(spec_employee_record(r, e)[2] == joined_column(r, e, spec_employee_header()[2]));
    assert(spec_employee_record(r, e)[3] == joined_column(r, e, spec_employee_header()[3]));
    assert(spec_employee_record(r, e)[4] == joined_column(r, e, spec_employee_header()[4]));
    assert(spec_employee_record(r, e)[5] == joined_column(r, e, spec_employee_header()[5]));
    assert(spec_employee_record(r, e)[6] == joined_column(r, e, spec_employee_header()[6]));
    assert(spec_employee_record(r, e)[7] == joined_column(r, e, spec_employee_header()[7]));
    assert(spec_employee_record(r, e)[8] == joined_column(r, e, spec_employee_header()[8]));
    assert(spec_employee_record(r, e)[9] == joined_column(r, e, spec_employee_header()[9]));
    assert(spec_employee_record(r, e)[10] == joined_column(r, e, spec_employee_header()[10]));
    assert(spec_employee_record(r, e)[11] == joined_column(r, e, spec_employee_header()[11]));
    assert(spec_employee_record(r, e)[12] == joined_column(r, e, spec_employee_header()[12]));
    assert(spec_employee_record(r, e)[13] == joined_column(r, e, spec_employee_header()[13]));
    assert(spec_employee_record(r, e)[14] == joined_column(r, e, spec_employee_header()[14]));
    assert(spec_employee_record(r, e)[15] == joined_column(r, e, spec_employee_header()[15]));
    assert(spec_employee_record(r, e)[16] == joined_column(r, e, spec_employee_header()[16]));
    assert(spec_employee_record(r, e)[17] == joined_column(r, e, spec_employee_header()[17]));
    assert(spec_employee_record(r, e)[18] == joined_column(r, e, spec_employee_header()[18]));
    assert(spec_employee_record(r, e)[19] == joined_column(r, e, spec_employee_header()[19]));
    assert(spec_employee_record(r, e)[20] == joined_column(r, e, spec_employee_header()[20]));
    assert(spec_employee_record(r, e)[21] == joined_column(r, e, spec_employee_header()[21]));
    assert(spec_employee_record(r, e)[22] == joined_column(r, e, spec_employee_header()[22]));
    assert(spec_employee_record(r, e)[23] == joined_column(r, e, spec_employee_header()[23]));
    assert(spec_employee_record(r, e)[24] == joined_column(r, e, spec_employee_header()[24]));
    assert(spec_employee_record(r, e)[25] == joined_column(r, e, spec_employee_header()[25]));
    assert(spec_employee_record(r, e)[26] == joined_column(r, e, spec_employee_header()[26]));
    assert(spec_employee_record(r, e)[27] == joined_column(r, e, spec_employee_header()[27]));
    assert(spec_employee_record(r, e)[28] == joined_column(r, e, spec_employee_header()[28]));
    assert(spec_employee_record(r, e)[29] == joined_column(r, e, spec_employee_header()[29]));
    assert(spec_employee_record(r, e)[30] == joined_column(r, e, spec_employee_header()[30]));
    assert(spec_employee_record(r, e)[31] == joined_column(r, e, spec_employee_header()[31]));
    assert(spec_employee_record(r, e)[32] == joined_column(r, e, spec_employee_header()[32]));
    assert(spec_employee_record(r, e)[33] == joined_column(r, e, spec_employee_header()[33]));
    assert(spec_employee_record(r, e)[34] == joined_column(r, e, spec_employee_header()[34]));
    assert(spec_employee_record(r, e)[35] == joined_column(r, e, spec_employee_header()[35]));
    assert(spec_employee_record(r, e)[36] == joined_column(r, e, spec_employee_header()[36]));
    assert(spec_employee_record(r, e)[37] == joined_column(r, e, spec_employee_header()[37]));
    assert(spec_employee_record(r, e)[38] == joined_column(r, e, spec_employee_header()[38]));
    assert(spec_employee_record(r, e)[39] == joined_column(r, e, spec_employee_header()[39]));
    assert(spec_employee_record(r, e)[40] == joined_column(r, e, spec_employee_header()[40]));
    assert(spec_employee_record(r, e)[41] == joined_column(r, e, spec_employee_header()[41]));
}

/// Each record of the export holds, under each column of the header, the value of the
/// field of that name: the employee's field for the employee's columns, taken from the
/// last employee row with the position's employee ID (empty when there is none), and the
/// position's field for the position's columns.
pub proof fn lemma_export_columns_by_name(int069a: Seq<INT069ARow>, int069b: Seq<INT069BRow>)
    ensures
        spec_employee_records(int069a, int069b).len() == int069b.len(),
        forall|k: int| 0 <= k < int069b.len() ==> (#[trigger] spec_employee_records(int069a, int069b)[k]).len()
            == spec_employee_header().len(),
        forall|k: int, i: int, j: int|
            0 <= k < int069b.len() && 0 <= i < spec_employee_header().len() && 0 <= j < int069a.len()
                && int069a[j].Employee_ID@ == int069b[k].Employee_ID@
                && (forall|j2: int| j < j2 < int069a.len() ==> (#[trigger] int069a[j2]).Employee_ID@ != int069b[k].Employee_ID@)
                ==> #[trigger] spec_employee_records(int069a, int069b)[k][i]
                    == joined_column(int069b[k], Some(#[trigger] int069a[j]), spec_employee_header()[i]),
        forall|k: int, i: int|
            0 <= k < int069b.len() && 0 <= i < spec_employee_header().len()
                && (forall|j: int| 0 <= j < int069a.len() ==> (#[trigger] int069a[j]).Employee_ID@ != int069b[k].Employee_ID@)
                ==> #[trigger] spec_employee_records(int069a, int069b)[k][i]
                    == joined_column(int069b[k], None, spec_employee_header()[i]),
{
    assert forall|k: int| 0 <= k < int069b.len() implies {
        let r = int069b[k];
        let e = employee_of(int069a, r);
        &&& (#[trigger] spec_employee_records(int069a, int069b)[k]) == spec_employee_record(r, e)
        &&& spec_employee_record(r, e).len() == spec_employee_header().len()
        &&& forall|i: int| 0 <= i < spec_employee_header().len() ==>
            #[trigger] spec_employee_record(r, e)[i] == joined_column(r, e, spec_employee_header()[i])
        &&& (e matches Some(x) ==> forall|j: int| 0 <= j < int069a.len()
                && int069a[j].Employee_ID@ == r.Employee_ID@
                && (forall|j2: int| j < j2 < int069a.len() ==> (#[trigger] int069a[j2]).Employee_ID@ != r.Employee_ID@)
                ==> x == #[trigger] int069a[j])
        &&& (e is None ==> forall|j: int| 0 <= j < int069a.len() ==> (#[trigger] int069a[j]).Employee_ID@ != r.Employee_ID@)
        &&& ((forall|j: int| 0 <= j < int069a.len() ==> (#[trigger] int069a[j]).Employee_ID@ != r.Employee_ID@) ==> e is None)
    } by {
        let r = int069b[k];
        let p = employee_with_id(r.Employee_ID@);
        crate::search::lemma_last_where(int069a, p);
        let e = employee_of(int069a, r);
        if let Some(x) = e {
            let li = last_where(int069a, p).unwrap();
            assert(p(int069a[li]));
            assert(int069a[li].Employee_ID@ == r.Employee_ID@);
            assert forall|j: int| 0 <= j < int069a.len()
                && int069a[j].Employee_ID@ == r.Employee_ID@
                && (forall|j2: int| j < j2 < int069a.len() ==> (#[trigger] int069a[j2]).Employee_ID@ != r.Employee_ID@)
                implies x == #[trigger] int069a[j] by {
                assert(p(int069a[j]));
                if j < li {
                    assert(int069a[li].Employee_ID@ == r.Employee_ID@);
                }
            }
        } else {
            assert forall|j: int| 0 <= j < int069a.len() implies (#[trigger] int069a[j]).Employee_ID@ != r.Employee_ID@ by {
                assert(!p(int069a[j]));
            }
        }
        lemma_record_columns_by_name(r, e);
    }
}

} // verus!
