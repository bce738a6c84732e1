//! Choosing which dated CSV exports to keep, naming new ones, and encoding CSV records.

pub mod row_verifier;

use vstd::prelude::*;
use vstd::relations::{sorted_by, total_ordering};
use vstd::utf8::encode_utf8;
use vstd::string::StringSliceAdditionalSpecFns;
use crate::text::concat_str;

verus! {

/// `a` comes before `b`, or is `b`, comparing bytes from the left (a prefix comes first).
pub open spec fn bytes_le(a: Seq<u8>, b: Seq<u8>) -> bool
    decreases a.len(),
{
    if a.len() == 0 {
        true
    } else if b.len() == 0 {
        false
    } else if a[0] != b[0] {
        a[0] < b[0]
    } else {
        bytes_le(a.drop_first(), b.drop_first())
    }
}

proof fn lemma_bytes_le_reflexive(a: Seq<u8>)
    ensures
        bytes_le(a, a),
    decreases a.len(),
{
    if a.len() > 0 {
        lemma_bytes_le_reflexive(a.drop_first());
    }
}

proof fn lemma_bytes_le_antisymmetric(a: Seq<u8>, b: Seq<u8>)
    requires
        bytes_le(a, b),
        bytes_le(b, a),
    ensures
        a == b,
    decreases a.len(),
{
    if a.len() > 0 && b.len() > 0 {
        lemma_bytes_le_antisymmetric(a.drop_first(), b.drop_first());
        assert(a =~= seq![a[0]] + a.drop_first());
        assert(b =~= seq![b[0]] + b.drop_first());
    }
    assert(a =~= b);
}

proof fn lemma_bytes_le_transitive(a: Seq<u8>, b: Seq<u8>, c: Seq<u8>)
    requires
        bytes_le(a, b),
        bytes_le(b, c),
    ensures
        bytes_le(a, c),
    decreases a.len(),
{
    if a.len() > 0 && b.len() > 0 && c.len() > 0 {
        if a[0] == b[0] && b[0] == c[0] {
            lemma_bytes_le_transitive(a.drop_first(), b.drop_first(), c.drop_first());
        }
    }
}

proof fn lemma_bytes_le_total(a: Seq<u8>, b: Seq<u8>)
    ensures
        bytes_le(a, b) || bytes_le(b, a),
    decreases a.len(),
{
    if a.len() > 0 && b.len() > 0 && a[0] == b[0] {
        lemma_bytes_le_total(a.drop_first(), b.drop_first());
    }
}

/// The order of paths: by their UTF-8 bytes, as `PathBuf`s of one directory are ordered.
pub open spec fn path_le() -> spec_fn(Seq<char>, Seq<char>) -> bool {
    |a: Seq<char>, b: Seq<char>| bytes_le(encode_utf8(a), encode_utf8(b))
}

/// The order of paths is a total order.
pub proof fn lemma_path_order_total()
    ensures
        total_ordering(path_le()),
{
    let le = path_le();
    assert forall|x: Seq<char>| #[trigger] le(x, x) by {
        lemma_bytes_le_reflexive(encode_utf8(x));
    }
    assert forall|x: Seq<char>, y: Seq<char>| #[trigger] le(x, y) && #[trigger] le(y, x) implies x == y by {
        lemma_bytes_le_antisymmetric(encode_utf8(x), encode_utf8(y));
        vstd::utf8::encode_utf8_decode_utf8(x);
        vstd::utf8::encode_utf8_decode_utf8(y);
    }
    assert forall|x: Seq<char>, y: Seq<char>, z: Seq<char>| #[trigger] le(x, y) && #[trigger] le(y, z) implies le(x, z) by {
        lemma_bytes_le_transitive(encode_utf8(x), encode_utf8(y), encode_utf8(z));
    }
    assert forall|x: Seq<char>, y: Seq<char>| #[trigger] le(x, y) || #[trigger] le(y, x) by {
        lemma_bytes_le_total(encode_utf8(x), encode_utf8(y));
    }
}

/// The texts of a list of strings.
pub open spec fn str_views(v: Seq<String>) -> Seq<Seq<char>> {
    v.map_values(|s: String| s@)
}

/// Whether the path `a` comes before `b` or is `b`.
pub fn path_le_exec(a: &str, b: &str) -> (r: bool)
    ensures
        r == path_le()(a@, b@),
{
    let x = a.as_bytes();
    let y = b.as_bytes();
    let mut i: usize = 0;
    assert(x@.skip(0) =~= x@);
    assert(y@.skip(0) =~= y@);
    while i < x.len() && i < y.len() && x[i] == y[i]
        invariant
            x@ == a.spec_bytes(),
            y@ == b.spec_bytes(),
            i <= x@.len(),
            i <= y@.len(),
            bytes_le(x@.skip(i as int), y@.skip(i as int)) == bytes_le(x@, y@),
        decreases x.len() - i,
    {
        assert(x@.skip(i as int).drop_first() =~= x@.skip(i + 1));
        assert(y@.skip(i as int).drop_first() =~= y@.skip(i + 1));
        i = i + 1;
    }
    if i == x.len() {
        true
    } else if i == y.len() {
        false
    } else {
        x[i] < y[i]
    }
}

/// `paths` in path order.
pub fn sort_paths(paths: &Vec<String>) -> (r: Vec<String>)
    ensures
        str_views(r@) == str_views(paths@).sort_by(path_le()),
{
    let ghost le = path_le();
    proof {
        lemma_path_order_total();
    }
    let mut r: Vec<String> = Vec::new();
    let mut i: usize = 0;
    assert(str_views(r@) =~= Seq::<Seq<char>>::empty());
    assert(str_views(paths@.take(0)) =~= Seq::<Seq<char>>::empty());
    while i < paths.len()
        invariant
            le == path_le(),
            total_ordering(le),
            i <= paths@.len(),
            sorted_by(str_views(r@), le),
            str_views(r@).to_multiset() == str_views(paths@.take(i as int)).to_multiset(),
        decreases paths.len() - i,
    {
        let x = &paths[i];
        let mut p: usize = 0;
        while p < r.len() && path_le_exec(r[p].as_str(), x.as_str())
            invariant
                le == path_le(),
                p <= r@.len(),
                forall|k: int| 0 <= k < p ==> le(r@[k]@, x@),
            decreases r.len() - p,
        {
            p = p + 1;
        }
        let ghost before = str_views(r@);
        r.insert(p, x.clone());
        proof {
            assert(str_views(r@) =~= before.insert(p as int, x@));
            vstd::seq_lib::to_multiset_insert(before, p as int, x@);
            assert(str_views(paths@.take(i + 1)) =~= str_views(paths@.take(i as int)).push(x@));
            vstd::seq_lib::to_multiset_build(str_views(paths@.take(i as int)), x@);
            let s = str_views(r@);
            assert forall|a: int, b: int| 0 <= a < b < s.len() implies #[trigger] le(s[a], s[b]) by {
                if b < p {
                    assert(s[a] == before[a] && s[b] == before[b]);
                } else if b == p {
                    assert(s[a] == before[a]);
                } else if a == p {
                    assert(s[b] == before[b - 1]);
                    if p < before.len() {
                        assert(!le(before[p as int], x@));
                        assert(le(x@, before[p as int]));
                        if b - 1 > p {
                            assert(le(before[p as int], before[b - 1]));
                        }
                    }
                } else if a < p {
                    assert(s[a] == before[a] && s[b] == before[b - 1]);
                } else {
                    assert(s[a] == before[a - 1] && s[b] == before[b - 1]);
                }
            }
        }
        i = i + 1;
    }
    proof {
        assert(paths@.take(paths@.len() as int) =~= paths@);
        str_views(paths@).lemma_sort_by_ensures(le);
        vstd::seq_lib::lemma_sorted_unique(str_views(r@), str_views(paths@).sort_by(le), le);
    }
    r
}

/// Which of the files matching a pattern to delete, and which one to read.
pub struct RetentionPlan {
    /// The last matching path in path order: the newest export.
    pub newest: String,
    /// The first matching paths in path order, all but the last `keep` of them.
    pub to_delete: Vec<String>,
    /// Whether the newest export may be returned: `keep` is not zero.
    pub keep_any: bool,
}

/// Why no retention plan exists.
#[derive(Debug, PartialEq, Eq, Structural)]
pub enum RetentionError {
    /// No file matched the pattern.
    NoMatches,
}

/// The paths that a plan deletes: all but the last `keep` of the sorted paths.
pub open spec fn spec_deleted(sorted: Seq<Seq<char>>, keep: nat) -> Seq<Seq<char>> {
    if sorted.len() > keep {
        sorted.take(sorted.len() - keep)
    } else {
        Seq::empty()
    }
}

/// Plans the upkeep of the files `paths` that matched a pattern, keeping `keep` of
/// them: in path order, the last one is the newest, and all but the last `keep` are
/// deleted. No plan exists for no path. A plan with `keep` zero deletes all of them
/// and returns none.
pub fn plan_retention(paths: &Vec<String>, keep: usize) -> (r: Result<RetentionPlan, RetentionError>)
    ensures
        paths@.len() == 0 ==> r == Err::<RetentionPlan, RetentionError>(RetentionError::NoMatches),
        paths@.len() > 0 ==> (r matches Ok(p) && {
            let sorted = str_views(paths@).sort_by(path_le());
            &&& p.newest@ == sorted.last()
            &&& str_views(p.to_delete@) == spec_deleted(sorted, keep as nat)
            &&& p.keep_any == (keep > 0)
        }),
{
    if paths.len() == 0 {
        return Err(RetentionError::NoMatches);
    }
    let sorted = sort_paths(paths);
    proof {
        lemma_path_order_total();
        str_views(paths@).lemma_sort_by_ensures(path_le());
        vstd::seq_lib::to_multiset_len(str_views(paths@));
        vstd::seq_lib::to_multiset_len(str_views(paths@).sort_by(path_le()));
    }
    let n = sorted.len();
    let newest = sorted[n - 1].clone();
    let mut to_delete: Vec<String> = Vec::new();
    if n > keep {
        let cut = n - keep;
        let mut i: usize = 0;
        while i < cut
            invariant
                cut <= n,
                n == sorted@.len(),
                i <= cut,
                str_views(to_delete@) == str_views(sorted@).take(i as int),
            decreases cut - i,
        {
            let ghost before = str_views(to_delete@);
            to_delete.push(sorted[i].clone());
            assert(str_views(to_delete@) =~= before.push(sorted@[i as int]@));
            assert(str_views(sorted@).take(i + 1) =~= str_views(sorted@).take(i as int).push(sorted@[i as int]@));
            i = i + 1;
            assert(str_views(to_delete@) =~= str_views(sorted@).take(i as int));
        }
    } else {
        assert(str_views(to_delete@) =~= Seq::<Seq<char>>::empty());
    }
    Ok(RetentionPlan { newest, to_delete, keep_any: keep > 0 })
}

/// A plan never deletes more than it should: the deleted paths are the first
/// `n - keep` in path order, each of them at or before the newest; so when at least
/// one file is kept, the newest is not among the deleted positions, and exactly
/// `min(n, keep)` files remain.
pub proof fn lemma_retention_keeps_newest(paths: Seq<Seq<char>>, keep: nat)
    requires
        paths.len() > 0,
    ensures
        ({
            let sorted = paths.sort_by(path_le());
            let deleted = spec_deleted(sorted, keep);
            &&& sorted.len() == paths.len()
            &&& deleted.len() + (if keep < paths.len() { keep } else { paths.len() }) == paths.len()
            &&& forall|i: int| 0 <= i < deleted.len() ==> path_le()(#[trigger] deleted[i], sorted.last())
            &&& keep > 0 ==> deleted.len() < sorted.len()
        }),
{
    lemma_path_order_total();
    paths.lemma_sort_by_ensures(path_le());
    let sorted = paths.sort_by(path_le());
    vstd::seq_lib::to_multiset_len(paths);
    vstd::seq_lib::to_multiset_len(sorted);
    let deleted = spec_deleted(sorted, keep);
    assert forall|i: int| 0 <= i < deleted.len() implies path_le()(#[trigger] deleted[i], sorted.last()) by {
        assert(deleted[i] == sorted[i]);
        if i < sorted.len() - 1 {
            assert(path_le()(sorted[i], sorted[sorted.len() - 1]));
        }
    }
}

/// The pattern, relative to the CSV directory, of the dated exports of `base_path`.
pub open spec fn spec_dated_glob(base_path: Seq<char>) -> Seq<char> {
    base_path + "_*.csv"@
}

/// The pattern of the dated exports of `base_path`: `{base_path}_*.csv`.
pub fn dated_csv_glob(base_path: &str) -> (r: String)
    ensures
        r@ == spec_dated_glob(base_path@),
{
    concat_str(base_path, "_*.csv")
}

/// A pattern `glob` taken relative to the CSV directory `base_dir`: `{base_dir}/{glob}`.
pub fn csv_glob_path(base_dir: &str, glob: &str) -> (r: String)
    ensures
        r@ == base_dir@ + "/"@ + glob@,
{
    let p = concat_str(base_dir, "/");
    concat_str(p.as_str(), glob)
}

/// Names the text that chrono writes for the UTC time `secs` seconds and `nanos`
/// nanoseconds after the Unix epoch with the format `%Y-%m-%d-%H-%M-%S-%f`, or `None`
/// where chrono has no such time.
pub uninterp spec fn spec_csv_stamp(secs: i64, nanos: u32) -> Option<Seq<char>>;

/// Formats a UTC time with `chrono::DateTime::from_timestamp` and `DateTime::format`
/// (`%Y-%m-%d-%H-%M-%S-%f`). The contract claims only that the text depends on the
/// two numbers alone (named by `spec_csv_stamp`).
#[verifier::external_body]
fn csv_stamp(secs: i64, nanos: u32) -> (r: Option<String>)
    ensures
        r is Some <==> spec_csv_stamp(secs, nanos) is Some,
        r matches Some(s) ==> s@ == spec_csv_stamp(secs, nanos).unwrap(),
{
    chrono::DateTime::from_timestamp(secs, nanos).map(|t| t.format("%Y-%m-%d-%H-%M-%S-%f").to_string())
}

/// The file that a dated export of `base_path` made at the given UTC time is written
/// to: `{base_dir}/{base_path}_{stamp}.csv`; `None` for a time that chrono cannot format.
pub fn dated_csv_path(base_dir: &str, base_path: &str, secs: i64, nanos: u32) -> (r: Option<String>)
    ensures
        match spec_csv_stamp(secs, nanos) {
            Some(stamp) => r matches Some(p) && p@ == base_dir@ + "/"@ + base_path@ + "_"@ + stamp + ".csv"@,
            None => r is None,
        },
{
    match csv_stamp(secs, nanos) {
        Some(stamp) => {
            let p = concat_str(base_dir, "/");
            let p = concat_str(p.as_str(), base_path);
            let p = concat_str(p.as_str(), "_");
            let p = concat_str(p.as_str(), stamp.as_str());
            Some(concat_str(p.as_str(), ".csv"))
        },
        None => None,
    }
}

/// Names the bytes that the `csv` crate writes for one record with the given fields,
/// field delimiter and record terminator (`\r\n` when `crlf`, else `\n`).
pub uninterp spec fn spec_csv_record(fields: Seq<Seq<char>>, delimiter: u8, crlf: bool) -> Seq<u8>;

/// Encodes one record with `csv::WriterBuilder` (`delimiter`, `terminator`,
/// `has_headers(false)`, `from_writer` on a `Vec<u8>`), `Writer::write_record` and
/// `Writer::into_inner`. The contract claims that the bytes depend on the fields, the
/// delimiter and the terminator alone (named by `spec_csv_record`), and that the
/// encoding succeeds: in the crate's source a writer fails only on an I/O error, which a
/// `Vec` never raises, or on a record whose field count differs from the first record's,
/// which a writer that writes one record never meets. The quoting rules are not restated.
#[verifier::external_body]
pub(crate) fn csv_record(fields: &Vec<String>, delimiter: u8, crlf: bool) -> (r: Option<Vec<u8>>)
    ensures
        r is Some,
        r matches Some(b) ==> b@ == spec_csv_record(str_views(fields@), delimiter, crlf),
{
    let mut writer = ::csv::WriterBuilder::new()
        .delimiter(delimiter)
        .has_headers(false)
        .terminator(if crlf { ::csv::Terminator::CRLF } else { ::csv::Terminator::Any(b'\n') })
        .from_writer(Vec::new());
    writer.write_record(fields).ok()?;
    writer.into_inner().ok()
}

/// The bytes of consecutive records, or `None` when one of them could not be encoded.
pub open spec fn spec_csv_records(records: Seq<Seq<Seq<char>>>, delimiter: u8, crlf: bool) -> Seq<u8>
    decreases records.len(),
{
    if records.len() == 0 {
        Seq::empty()
    } else {
        spec_csv_records(records.drop_last(), delimiter, crlf) + spec_csv_record(records.last(), delimiter, crlf)
    }
}

/// The fields of each record, as texts.
pub open spec fn record_views(records: Seq<Vec<String>>) -> Seq<Seq<Seq<char>>> {
    records.map_values(|r: Vec<String>| str_views(r@))
}

/// Encodes the records one after the other, as one CSV writer does.
pub fn csv_records(records: &Vec<Vec<String>>, delimiter: u8, crlf: bool) -> (r: Vec<u8>)
    ensures
        r@ == spec_csv_records(record_views(records@), delimiter, crlf),
{
    let mut out: Vec<u8> = Vec::new();
    let mut i: usize = 0;
    while i < records.len()
        invariant
            i <= records@.len(),
            out@ == spec_csv_records(record_views(records@).take(i as int), delimiter, crlf),
        decreases records.len() - i,
    {
        assert(record_views(records@).take(i + 1).drop_last() =~= record_views(records@).take(i as int));
        if let Some(mut bytes) = csv_record(&records[i], delimiter, crlf) {
            out.append(&mut bytes);
        }
        i = i + 1;
    }
    assert(record_views(records@).take(records@.len() as int) =~= record_views(records@));
    out
}

} // verus!
