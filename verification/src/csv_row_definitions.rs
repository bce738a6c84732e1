//! Rows of the HR exports (employees and their positions), and lookups over them.
#![allow(non_snake_case)]

use vstd::prelude::*;
use crate::text::str_eq;
use crate::search::{first_where, last_where, lemma_first_where, lemma_last_where};

verus! {

/// A row of the employee export (INT069A).
#[derive(Debug)]
pub struct INT069ARow {
    pub Employee_ID: String,
    pub User_Name: String,
    pub dateOfBirth: String,
    pub Legal_Name_First_Name: String,
    pub Legal_Name_Middle_Name: String,
    pub Legal_Name_Last_Name: String,
    pub Preferred_Name_First_Name: String,
    pub Preferred_Name_Middle_Name: String,
    pub Preferred_Name_Last_Name: String,
    pub Email_Work: String,
    pub Email_Home: String,
    pub primaryWorkPhone: String,
    pub Phone_Primary_Home: String,
    pub Primary_Mobile_Phone: String,
    pub Home_Address_Formatted_Line_1: String,
    pub Home_Address_Formatted_Line_2: String,
    pub Home_Address_Formatted_Line_3: String,
    pub Home_Address_city: String,
    pub Home_Address_State: String,
    pub Home_Address_Postal_Code: String,
    pub Legacy_Banner_ID: String,
}

/// A row of the position export (INT069B).
#[derive(Debug)]
pub struct INT069BRow {
    pub Position_ID: String,
    pub External_Position_ID: String,
    pub Employee_ID: String,
    pub Time_Type: String,
    pub Employee_Type: String,
    pub Position_Title: String,
    pub Job_Profile_ID: String,
    pub Job_Profile_Name: String,
    pub Job_Family_Group: String,
    pub Position_Start: String,
    pub Position_End: String,
    pub Division: String,
    pub Department: String,
    pub Position_Location_Address_Line_1: String,
    pub Position_Location_Address_Line_2: String,
    pub Position_Location_Address_Line_3: String,
    pub Position_Location_Address_City: String,
    pub Position_Location_Address_State: String,
    pub Position_Location_Address_Postal_Code: String,
    pub Cost_Center_Code: String,
    pub Cost_Center_Description: String,
    pub Manager_Employee_ID: String,
}

/// An index found by a lookup, as an integer.
pub open spec fn opt_index(o: Option<usize>) -> Option<int> {
    match o {
        Some(i) => Some(i as int),
        None => None,
    }
}

/// Employees with the employee ID `eid`.
pub open spec fn employee_with_id(eid: Seq<char>) -> spec_fn(INT069ARow) -> bool {
    |r: INT069ARow| r.Employee_ID@ == eid
}

/// Employees with the legacy Banner ID (C-number) `cnum`.
pub open spec fn employee_with_cnum(cnum: Seq<char>) -> spec_fn(INT069ARow) -> bool {
    |r: INT069ARow| r.Legacy_Banner_ID@ == cnum
}

/// Positions held by the employee `eid`.
pub open spec fn position_of(eid: Seq<char>) -> spec_fn(INT069BRow) -> bool {
    |r: INT069BRow| r.Employee_ID@ == eid
}

/// Positions held by the employee `eid`, among those that name an employee at all.
pub open spec fn filled_position_of(eid: Seq<char>) -> spec_fn(INT069BRow) -> bool {
    |r: INT069BRow| r.Employee_ID@.len() > 0 && r.Employee_ID@ == eid
}

/// The last employee row with the employee ID `key` (a map keyed by employee ID keeps the last).
pub fn employee_by_id(rows: &Vec<INT069ARow>, key: &str) -> (r: Option<usize>)
    ensures
        opt_index(r) == last_where(rows@, employee_with_id(key@)),
        r matches Some(i) ==> i < rows@.len(),
{
    let mut found: Option<usize> = None;
    let mut i: usize = 0;
    while i < rows.len()
        invariant
            i <= rows@.len(),
            opt_index(found) == last_where(rows@.take(i as int), employee_with_id(key@)),
        decreases rows.len() - i,
    {
        assert(rows@.take(i + 1).drop_last() =~= rows@.take(i as int));
        if str_eq(rows[i].Employee_ID.as_str(), key) {
            found = Some(i);
        }
        i = i + 1;
    }
    assert(rows@.take(rows@.len() as int) =~= rows@);
    proof {
        lemma_last_where(rows@, employee_with_id(key@));
    }
    found
}

/// The last employee row with the legacy Banner ID `key` (a map keyed by C-number keeps the last).
pub fn employee_by_cnum_last(rows: &Vec<INT069ARow>, key: &str) -> (r: Option<usize>)
    ensures
        opt_index(r) == last_where(rows@, employee_with_cnum(key@)),
        r matches Some(i) ==> i < rows@.len(),
{
    let mut found: Option<usize> = None;
    let mut i: usize = 0;
    while i < rows.len()
        invariant
            i <= rows@.len(),
            opt_index(found) == last_where(rows@.take(i as int), employee_with_cnum(key@)),
        decreases rows.len() - i,
    {
        assert(rows@.take(i + 1).drop_last() =~= rows@.take(i as int));
        if str_eq(rows[i].Legacy_Banner_ID.as_str(), key) {
            found = Some(i);
        }
        i = i + 1;
    }
    assert(rows@.take(rows@.len() as int) =~= rows@);
    proof {
        lemma_last_where(rows@, employee_with_cnum(key@));
    }
    found
}

/// The first employee row with the legacy Banner ID `key`.
pub fn employee_by_cnum(rows: &Vec<INT069ARow>, key: &str) -> (r: Option<usize>)
    ensures
        opt_index(r) == first_where(rows@, employee_with_cnum(key@)),
        r matches Some(i) ==> i < rows@.len(),
{
    let mut found: Option<usize> = None;
    let mut i: usize = 0;
    while i < rows.len()
        invariant
            i <= rows@.len(),
            opt_index(found) == first_where(rows@.take(i as int), employee_with_cnum(key@)),
        decreases rows.len() - i,
    {
        assert(rows@.take(i + 1).drop_last() =~= rows@.take(i as int));
        if str_eq(rows[i].Legacy_Banner_ID.as_str(), key) {
            if found.is_none() {
                found = Some(i);
            }
        }
        i = i + 1;
    }
    assert(rows@.take(rows@.len() as int) =~= rows@);
    proof {
        lemma_first_where(rows@, employee_with_cnum(key@));
    }
    found
}

/// The first position row of the employee `key`.
pub fn position_by_employee(rows: &Vec<INT069BRow>, key: &str) -> (r: Option<usize>)
    ensures
        opt_index(r) == first_where(rows@, position_of(key@)),
        r matches Some(i) ==> i < rows@.len(),
{
    let mut found: Option<usize> = None;
    let mut i: usize = 0;
    while i < rows.len()
        invariant
            i <= rows@.len(),
            opt_index(found) == first_where(rows@.take(i as int), position_of(key@)),
        decreases rows.len() - i,
    {
        assert(rows@.take(i + 1).drop_last() =~= rows@.take(i as int));
        if str_eq(rows[i].Employee_ID.as_str(), key) {
            if found.is_none() {
                found = Some(i);
            }
        }
        i = i + 1;
    }
    assert(rows@.take(rows@.len() as int) =~= rows@);
    proof {
        lemma_first_where(rows@, position_of(key@));
    }
    found
}

/// The last position row of the employee `key` among rows that name an employee (a map of filled positions keyed by employee ID keeps the last).
pub fn filled_position_by_employee(rows: &Vec<INT069BRow>, key: &str) -> (r: Option<usize>)
    ensures
        opt_index(r) == last_where(rows@, filled_position_of(key@)),
        r matches Some(i) ==> i < rows@.len(),
{
    let mut found: Option<usize> = None;
    let mut i: usize = 0;
    while i < rows.len()
        invariant
            i <= rows@.len(),
            opt_index(found) == last_where(rows@.take(i as int), filled_position_of(key@)),
        decreases rows.len() - i,
    {
        assert(rows@.take(i + 1).drop_last() =~= rows@.take(i as int));
        if !rows[i].Employee_ID.as_str().is_empty() && str_eq(rows[i].Employee_ID.as_str(), key) {
            found = Some(i);
        }
        i = i + 1;
    }
    assert(rows@.take(rows@.len() as int) =~= rows@);
    proof {
        lemma_last_where(rows@, filled_position_of(key@));
    }
    found
}

/// The employee ID that the C-number `cnum` maps to, through the last employee row
/// that carries it.
pub fn employee_id_for_cnum(int069a: &Vec<INT069ARow>, cnum: &str) -> (r: Option<String>)
    ensures
        match last_where(int069a@, employee_with_cnum(cnum@)) {
            Some(i) => r matches Some(e) && e@ == int069a@[i].Employee_ID@,
            None => r is None,
        },
{
    match employee_by_cnum_last(int069a, cnum) {
        Some(i) => Some(int069a[i].Employee_ID.clone()),
        None => None,
    }
}

/// Whether the person with C-number `cnum` is an employee: the position ID of the first
/// position of the first employee row with that C-number, or why there is none.
pub fn is_employee_check(cnum: &str, int069a: &Vec<INT069ARow>, int069b: &Vec<INT069BRow>) -> (r: Result<String, String>)
    ensures
        match first_where(int069a@, employee_with_cnum(cnum@)) {
            None => r matches Err(m) && m@ == "user not found"@,
            Some(i) => match first_where(int069b@, position_of(int069a@[i].Employee_ID@)) {
                Some(j) => r matches Ok(p) && p@ == int069b@[j].Position_ID@,
                None => r matches Err(m) && m@ == "user has no associated position"@,
            },
        },
{
    match employee_by_cnum(int069a, cnum) {
        None => Err("user not found".to_owned()),
        Some(i) => match position_by_employee(int069b, int069a[i].Employee_ID.as_str()) {
            Some(j) => Ok(int069b[j].Position_ID.clone()),
            None => Err("user has no associated position".to_owned()),
        },
    }
}

} // verus!
