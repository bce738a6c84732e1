//! PaperCut: which employees get a print account, and the tab-separated file that
//! feeds them to PaperCut's import task.

use vstd::prelude::*;
use vstd::utf8::encode_utf8;
use vstd::string::StringSliceAdditionalSpecFns;
use crate::csv_row_definitions::{INT069ARow, INT069BRow, employee_by_id, employee_with_id};
use crate::search::last_where;
use crate::text::{concat_str, str_eq};
use crate::utils::csv::{csv_records, record_views, spec_csv_records, str_views};

verus! {

/// Which positions get a PaperCut account.
#[derive(Debug)]
pub enum CreateAccountsFor {
    /// No position.
    Nobody,
    /// The positions with these position IDs.
    PositionIDs { position_ids: Vec<String> },
    /// Every position held by an employee.
    ActiveEmployees,
}

/// Connection settings for PaperCut's FTP drop, and whom to create accounts for.
#[derive(Debug)]
pub struct Settings {
    pub address: String,
    pub port: u16,
    pub username: String,
    pub password: String,
    pub create_accounts_for: CreateAccountsFor,
}

/// Whether `caf` selects the position `row`.
pub open spec fn spec_job_matches(caf: CreateAccountsFor, row: INT069BRow) -> bool {
    match caf {
        CreateAccountsFor::Nobody => false,
        CreateAccountsFor::PositionIDs { position_ids } => str_views(position_ids@).contains(row.Position_ID@),
        CreateAccountsFor::ActiveEmployees => row.Employee_ID@.len() > 0,
    }
}

/// Whether `v` holds the text `s`.
pub fn contains_str(v: &Vec<String>, s: &str) -> (r: bool)
    ensures
        r == str_views(v@).contains(s@),
{
    let mut i: usize = 0;
    while i < v.len()
        invariant
            i <= v@.len(),
            forall|j: int| 0 <= j < i ==> v@[j]@ != s@,
        decreases v.len() - i,
    {
        if str_eq(v[i].as_str(), s) {
            assert(str_views(v@)[i as int] == s@);
            return true;
        }
        i = i + 1;
    }
    assert(!str_views(v@).contains(s@)) by {
        if str_views(v@).contains(s@) {
            let j = choose|j: int| 0 <= j < str_views(v@).len() && str_views(v@)[j] == s@;
            assert(v@[j]@ == s@);
        }
    }
    false
}

impl CreateAccountsFor {
    /// Whether this setting selects the position `row`.
    pub fn job_matches(&self, row: &INT069BRow) -> (r: bool)
        ensures
            r == spec_job_matches(*self, *row),
    {
        match self {
            CreateAccountsFor::Nobody => false,
            CreateAccountsFor::PositionIDs { position_ids } => contains_str(position_ids, row.Position_ID.as_str()),
            CreateAccountsFor::ActiveEmployees => !row.Employee_ID.as_str().is_empty(),
        }
    }
}

impl Default for Settings {
    fn default() -> (s: Settings)
        ensures
            s.address@ == "10.0.1.3"@,
            s.port == 21,
            s.username@ == "banjobs"@,
            s.password@ == ""@,
            s.create_accounts_for matches CreateAccountsFor::PositionIDs { position_ids }
                && str_views(position_ids@) == seq!["P000188"@, "P000189"@],
    {
        let mut ids: Vec<String> = Vec::new();
        ids.push("P000188".to_owned());
        ids.push("P000189".to_owned());
        assert(str_views(ids@) =~= seq!["P000188"@, "P000189"@]);
        Settings {
            address: "10.0.1.3".to_owned(),
            port: 21,
            username: "banjobs".to_owned(),
            password: "".to_owned(),
            create_accounts_for: CreateAccountsFor::PositionIDs { position_ids: ids },
        }
    }
}

/// A legacy Banner ID fit to be a PaperCut account name: nine bytes, a `C` or `c`,
/// then eight ASCII digits.
pub open spec fn valid_account_name(s: Seq<char>) -> bool {
    let b = encode_utf8(s);
    &&& s.len() > 0
    &&& b.len() == 9
    &&& (s[0] == 'C' || s[0] == 'c')
    &&& forall|i: int| 1 <= i < 9 ==> 48 <= #[trigger] b[i] <= 57
}

/// Whether `s` is fit to be a PaperCut account name.
pub fn is_valid_account_name(s: &str) -> (r: bool)
    ensures
        r == valid_account_name(s@),
{
    let b = s.as_bytes();
    if b.len() != 9 {
        return false;
    }
    proof {
        if s@.len() == 0 {
            assert(encode_utf8(s@) =~= Seq::<u8>::empty());
        }
    }
    let first = s.get_char(0);
    if first != 'C' && first != 'c' {
        return false;
    }
    let mut i: usize = 1;
    while i < 9
        invariant
            b@ == s.spec_bytes(),
            b@.len() == 9,
            1 <= i <= 9,
            forall|j: int| 1 <= j < i ==> 48 <= #[trigger] b@[j] <= 57,
        decreases 9 - i,
    {
        if b[i] < 48 || b[i] > 57 {
            return false;
        }
        i = i + 1;
    }
    true
}

/// Something about a selected position that kept it out of the PaperCut file.
#[derive(Debug)]
pub enum PapercutWarning {
    /// The position's employee is not in the employee export.
    EmployeeNotFound { position_id: String, employee_id: String },
    /// The employee's legacy Banner ID is blank or malformed.
    BadLegacyId { employee_id: String, legacy_banner_id: String },
}

/// The PaperCut record of an employee: account name, last name, an empty column, `Y`,
/// full name (`first last`), e-mail (the Workday user name), and five empty columns.
pub open spec fn spec_papercut_record(e: INT069ARow) -> Seq<Seq<char>> {
    seq![
        e.Legacy_Banner_ID@,
        e.Legal_Name_Last_Name@,
        Seq::empty(),
        seq!['Y'],
        e.Legal_Name_First_Name@ + seq![' '] + e.Legal_Name_Last_Name@,
        e.User_Name@,
        Seq::empty(),
        Seq::empty(),
        Seq::empty(),
        Seq::empty(),
        Seq::empty(),
    ]
}

/// The records and warnings for the positions `int069b`, in order: each position that
/// names an employee and that `caf` selects yields the record of the last employee row
/// with that employee ID, or a warning when there is none or when its legacy Banner ID
/// is not a valid account name.
pub open spec fn spec_feed(
    caf: CreateAccountsFor,
    int069a: Seq<INT069ARow>,
    int069b: Seq<INT069BRow>,
) -> (Seq<Seq<Seq<char>>>, Seq<PapercutWarning>)
    decreases int069b.len(),
{
    if int069b.len() == 0 {
        (seq![], seq![])
    } else {
        let (rs, ws) = spec_feed(caf, int069a, int069b.drop_last());
        let row = int069b.last();
        if row.Employee_ID@.len() == 0 || !spec_job_matches(caf, row) {
            (rs, ws)
        } else {
            match last_where(int069a, employee_with_id(row.Employee_ID@)) {
                None => (rs, ws.push(PapercutWarning::EmployeeNotFound {
                    position_id: row.Position_ID,
                    employee_id: row.Employee_ID,
                })),
                Some(i) => if valid_account_name(int069a[i].Legacy_Banner_ID@) {
                    (rs.push(spec_papercut_record(int069a[i])), ws)
                } else {
                    (rs, ws.push(PapercutWarning::BadLegacyId {
                        employee_id: row.Employee_ID,
                        legacy_banner_id: int069a[i].Legacy_Banner_ID,
                    }))
                },
            }
        }
    }
}

/// The PaperCut file and what was left out of it.
pub struct PapercutFeed {
    /// The records, as fields.
    pub records: Vec<Vec<String>>,
    /// The records as PaperCut reads them: tab-separated, `\r\n`-terminated, no header.
    pub data: Vec<u8>,
    pub warnings: Vec<PapercutWarning>,
}

/// Why the PaperCut file could not be delivered.
#[derive(Debug)]
pub enum PapercutError {
    /// The upload wrote fewer bytes than the file has.
    IncompleteUpload { written: u64, expected: usize },
}

fn papercut_record(e: &INT069ARow) -> (r: Vec<String>)
    ensures
        str_views(r@) == spec_papercut_record(*e),
{
    let mut full = concat_str(e.Legal_Name_First_Name.as_str(), " ");
    full.append(e.Legal_Name_Last_Name.as_str());
    let mut r: Vec<String> = Vec::new();
    r.push(e.Legacy_Banner_ID.clone());
    r.push(e.Legal_Name_Last_Name.clone());
    r.push(String::new());
    r.push("Y".to_owned());
    r.push(full);
    r.push(e.User_Name.clone());
    r.push(String::new());
    r.push(String::new());
    r.push(String::new());
    r.push(String::new());
    r.push(String::new());
    proof {
        reveal_strlit("Y");
        reveal_strlit(" ");
        assert("Y"@ =~= seq!['Y']);
        assert(" "@ =~= seq![' ']);
        assert(r@[4]@ =~= e.Legal_Name_First_Name@ + seq![' '] + e.Legal_Name_Last_Name@);
    }
    assert(str_views(r@) =~= spec_papercut_record(*e));
    r
}

/// The PaperCut file for the positions `int069b` and employees `int069a`, with the
/// warnings about positions left out.
pub fn papercut_feed(
    caf: &CreateAccountsFor,
    int069a: &Vec<INT069ARow>,
    int069b: &Vec<INT069BRow>,
) -> (f: PapercutFeed)
    ensures
        ({
            let (rs, ws) = spec_feed(*caf, int069a@, int069b@);
            &&& record_views(f.records@) == rs
            &&& f.warnings@ == ws
            &&& f.data@ == spec_csv_records(rs, 9u8, true)
        }),
{
    let mut records: Vec<Vec<String>> = Vec::new();
    let mut warnings: Vec<PapercutWarning> = Vec::new();
    let mut k: usize = 0;
    while k < int069b.len()
        invariant
            k <= int069b@.len(),
            record_views(records@) == spec_feed(*caf, int069a@, int069b@.take(k as int)).0,
            warnings@ == spec_feed(*caf, int069a@, int069b@.take(k as int)).1,
        decreases int069b.len() - k,
    {
        let row = &int069b[k];
        assert(int069b@.take(k + 1).drop_last() =~= int069b@.take(k as int));
        assert(int069b@.take(k + 1).last() == *row);
        let ghost before = record_views(records@);
        if !row.Employee_ID.as_str().is_empty() && caf.job_matches(row) {
            match employee_by_id(int069a, row.Employee_ID.as_str()) {
                None => {
                    warnings.push(PapercutWarning::EmployeeNotFound {
                        position_id: row.Position_ID.clone(),
                        employee_id: row.Employee_ID.clone(),
                    });
                },
                Some(i) => {
                    let emp = &int069a[i];
                    if is_valid_account_name(emp.Legacy_Banner_ID.as_str()) {
                        let rec = papercut_record(emp);
                        records.push(rec);
                        assert(record_views(records@) =~= before.push(spec_papercut_record(int069a@[i as int])));
                    } else {
                        warnings.push(PapercutWarning::BadLegacyId {
                            employee_id: row.Employee_ID.clone(),
                            legacy_banner_id: emp.Legacy_Banner_ID.clone(),
                        });
                    }
                },
            }
        }
        k = k + 1;
    }
    assert(int069b@.take(int069b@.len() as int) =~= int069b@);
    let data = csv_records(&records, 9u8, true);
    PapercutFeed { records, data, warnings }
}

/// Accepts an upload that wrote the whole file.
pub fn check_upload(written: u64, expected: usize) -> (r: Result<(), PapercutError>)
    ensures
        written == expected ==> r is Ok,
        written != expected ==> (r matches Err(PapercutError::IncompleteUpload { written: w, expected: x })
            && w == written && x == expected),
{
    if written != expected as u64 {
        Err(PapercutError::IncompleteUpload { written, expected })
    } else {
        Ok(())
    }
}

/// The status of a PaperCut feed that was uploaded: `success`, or
/// `success-with-warnings` when some positions gave warnings.
pub fn feed_status(has_warnings: bool) -> (s: String)
    ensures
        !has_warnings ==> s@ == "success"@,
        has_warnings ==> s@ == "success-with-warnings"@,
{
    if has_warnings {
        "success-with-warnings".to_owned()
    } else {
        "success".to_owned()
    }
}

/// Every record of the PaperCut file carries a well-formed account name in its first
/// column, has eleven columns, and says `Y` in the fourth; and every selected position
/// that names an employee yields exactly one record or one warning.
pub proof fn lemma_feed_records_well_formed(
    caf: CreateAccountsFor,
    int069a: Seq<INT069ARow>,
    int069b: Seq<INT069BRow>,
)
    ensures
        ({
            let (rs, ws) = spec_feed(caf, int069a, int069b);
            &&& forall|k: int| 0 <= k < rs.len() ==> {
                &&& (#[trigger] rs[k]).len() == 11
                &&& valid_account_name(rs[k][0])
                &&& rs[k][3] == seq!['Y']
            }
            &&& rs.len() + ws.len() == selected_count(caf, int069b)
        }),
    decreases int069b.len(),
{
    if int069b.len() > 0 {
        lemma_feed_records_well_formed(caf, int069a, int069b.drop_last());
        let row = int069b.last();
        if row.Employee_ID@.len() > 0 && spec_job_matches(caf, row) {
            match last_where(int069a, employee_with_id(row.Employee_ID@)) {
                Some(i) => {
                    if valid_account_name(int069a[i].Legacy_Banner_ID@) {
                        let (rs, ws) = spec_feed(caf, int069a, int069b);
                        let (rs0, ws0) = spec_feed(caf, int069a, int069b.drop_last());
                        assert(rs == rs0.push(spec_papercut_record(int069a[i])));
                        assert forall|k: int| 0 <= k < rs.len() implies {
                            &&& (#[trigger] rs[k]).len() == 11
                            &&& valid_account_name(rs[k][0])
                            &&& rs[k][3] == seq!['Y']
                        } by {
                            if k < rs0.len() {
                                assert(rs[k] == rs0[k]);
                            }
                        }
                    }
                },
                None => {},
            }
        }
    }
}

/// The number of positions that name an employee and that `caf` selects.
pub open spec fn selected_count(caf: CreateAccountsFor, int069b: Seq<INT069BRow>) -> nat
    decreases int069b.len(),
{
    if int069b.len() == 0 {
        0
    } else {
        let row = int069b.last();
        selected_count(caf, int069b.drop_last()) + if row.Employee_ID@.len() > 0 && spec_job_matches(caf, row) {
            1nat
        } else {
            0nat
        }
    }
}

/// A byte that is an ASCII digit, `0` to `9` (what `u8::is_ascii_digit` accepts).
pub open spec fn is_ascii_digit_byte(c: u8) -> bool {
    0x30u8 <= c && c <= 0x39u8
}

/// An account name: a C-number of nine bytes, `C` or `c` and then eight ASCII digits,
/// written out byte by byte.
pub open spec fn is_c_number(s: Seq<char>) -> bool {
    let b = encode_utf8(s);
    &&& b.len() == 9
    &&& s.len() > 0
    &&& (s[0] == 'C' || s[0] == 'c')
    &&& forall|i: int| 1 <= i < 9 ==> is_ascii_digit_byte(#[trigger] b[i])
}

/// The account names PaperCut gets are exactly the C-numbers: nine bytes, `C` or `c`,
/// then eight bytes each an ASCII digit from `0` to `9`.
pub proof fn lemma_account_names_are_c_numbers(s: Seq<char>)
    ensures
        valid_account_name(s) <==> is_c_number(s),
{
    let b = encode_utf8(s);
    if valid_account_name(s) {
        assert(forall|i: int| 1 <= i < 9 ==> is_ascii_digit_byte(#[trigger] b[i]));
    }
    if is_c_number(s) {
        assert(forall|i: int| 1 <= i < 9 ==> 48 <= #[trigger] b[i] <= 57);
    }
}

/// The records PaperCut gets hold, for each selected position of an employee whose
/// legacy Banner ID is a C-number, a record of that employee (the last one with the
/// position's employee ID): its account name is the C-number and its e-mail the
/// employee's Workday user name.
pub proof fn lemma_c_number_employees_get_records(
    caf: CreateAccountsFor,
    int069a: Seq<INT069ARow>,
    int069b: Seq<INT069BRow>,
    k: int,
    i: int,
)
    requires
        0 <= k < int069b.len(),
        int069b[k].Employee_ID@.len() > 0,
        spec_job_matches(caf, int069b[k]),
        0 <= i < int069a.len(),
        int069a[i].Employee_ID@ == int069b[k].Employee_ID@,
        forall|j: int| i < j < int069a.len() ==> (#[trigger] int069a[j]).Employee_ID@ != int069b[k].Employee_ID@,
        is_c_number(int069a[i].Legacy_Banner_ID@),
    ensures
        exists|j: int| {
            &&& 0 <= j < spec_feed(caf, int069a, int069b).0.len()
            &&& (#[trigger] spec_feed(caf, int069a, int069b).0[j])[0] == int069a[i].Legacy_Banner_ID@
            &&& spec_feed(caf, int069a, int069b).0[j][1] == int069a[i].Legal_Name_Last_Name@
            &&& spec_feed(caf, int069a, int069b).0[j][5] == int069a[i].User_Name@
        },
{
    lemma_account_names_are_c_numbers(int069a[i].Legacy_Banner_ID@);
    let p = employee_with_id(int069b[k].Employee_ID@);
    crate::search::lemma_last_where(int069a, p);
    assert(p(int069a[i]));
    let pre = int069b.take(k + 1);
    assert(pre.drop_last() =~= int069b.take(k));
    assert(pre.last() == int069b[k]);
    let rs_pre = spec_feed(caf, int069a, pre).0;
    assert(rs_pre == spec_feed(caf, int069a, int069b.take(k)).0.push(spec_papercut_record(int069a[i])));
    lemma_feed_prefix(caf, int069a, int069b, k + 1);
    let rs = spec_feed(caf, int069a, int069b).0;
    let j = rs_pre.len() - 1;
    assert(rs[j] == rs_pre[j]);
}

/// The records for the first `m` positions come first among the records for all of them.
proof fn lemma_feed_prefix(caf: CreateAccountsFor, int069a: Seq<INT069ARow>, int069b: Seq<INT069BRow>, m: int)
    requires
        0 <= m <= int069b.len(),
    ensures
        ({
            let rs = spec_feed(caf, int069a, int069b).0;
            let rm = spec_feed(caf, int069a, int069b.take(m)).0;
            &&& rm.len() <= rs.len()
            &&& forall|j: int| 0 <= j < rm.len() ==> #[trigger] rs[j] == rm[j]
        }),
    decreases int069b.len(),
{
    if m == int069b.len() {
        assert(int069b.take(m) =~= int069b);
    } else {
        let d = int069b.drop_last();
        assert(d.take(m) =~= int069b.take(m));
        lemma_feed_prefix(caf, int069a, d, m);
    }
}

} // verus!
