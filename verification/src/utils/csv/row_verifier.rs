//! Checks that every row of a CSV export names the same columns as the first one.
//!
//! A `Verifier` watches a row being serialised (the serde plumbing lives outside this
//! crate and forwards each event here): it records the names of the fields written and
//! skipped. The first `reset_to_verify` turns the recorded names into the reference;
//! each later call compares the names recorded since with that reference.

use vstd::prelude::*;
use crate::text::string_lists_equal;

verus! {

/// The state of a [`Verifier`], as plain values.
pub struct VerifierState {
    pub started: bool,
    pub verify: bool,
    pub fields: Seq<Seq<char>>,
    pub skipped_fields: Seq<Seq<char>>,
    pub fields_so_far: Seq<Seq<char>>,
    pub skipped_fields_so_far: Seq<Seq<char>>,
    pub single_parse: Seq<char>,
}

/// Records the field names of serialised rows and checks that they agree.
#[derive(Debug)]
pub struct Verifier {
    started: bool,
    verify: bool,
    fields: Vec<String>,
    skipped_fields: Vec<String>,
    fields_so_far: Vec<String>,
    skipped_fields_so_far: Vec<String>,
    single_parse: String,
}

/// Why a row could not be recorded or checked.
#[derive(Debug)]
pub enum VerifierError {
    /// A value of a kind that a CSV row cannot hold (`bool`, sequences, ...), by name.
    Unsupported(String),
    /// `reset_to_verify` was called before any field was recorded.
    NoFieldsToVerify,
    /// The fields of a row differ from the reference.
    FieldsMismatch { expected: Vec<String>, found: Vec<String> },
    /// The skipped fields of a row differ from the reference.
    SkippedFieldsMismatch { expected: Vec<String>, found: Vec<String> },
    /// A map key serialised to something other than a string; the names it recorded.
    NotAKey(Vec<String>),
    /// A map inside the row.
    EmbeddedMap,
    /// A struct inside the row.
    EmbeddedStruct,
    /// A message raised by the value being serialised.
    Custom(String),
}

impl View for Verifier {
    type V = VerifierState;

    closed spec fn view(&self) -> VerifierState {
        VerifierState {
            started: self.started,
            verify: self.verify,
            fields: self.fields.deep_view(),
            skipped_fields: self.skipped_fields.deep_view(),
            fields_so_far: self.fields_so_far.deep_view(),
            skipped_fields_so_far: self.skipped_fields_so_far.deep_view(),
            single_parse: self.single_parse@,
        }
    }
}

/// The state of a fresh verifier.
pub open spec fn initial_state() -> VerifierState {
    VerifierState {
        started: false,
        verify: false,
        fields: Seq::empty(),
        skipped_fields: Seq::empty(),
        fields_so_far: Seq::empty(),
        skipped_fields_so_far: Seq::empty(),
        single_parse: Seq::empty(),
    }
}

/// How a call of `reset_to_verify` ends.
pub enum ResetOutcome {
    Accepted,
    NoFieldsToVerify,
    FieldsMismatch,
    SkippedFieldsMismatch,
}

/// What `reset_to_verify` does to a state, and how it ends.
pub open spec fn spec_reset(s: VerifierState) -> (VerifierState, ResetOutcome) {
    let s0 = VerifierState { started: false, ..s };
    if !s.verify {
        if s.fields_so_far.len() == 0 {
            (s0, ResetOutcome::NoFieldsToVerify)
        } else {
            (VerifierState {
                verify: true,
                fields: s.fields_so_far,
                fields_so_far: s.fields,
                skipped_fields: s.skipped_fields_so_far,
                skipped_fields_so_far: s.skipped_fields,
                ..s0
            }, ResetOutcome::Accepted)
        }
    } else if s.fields != s.fields_so_far {
        (s0, ResetOutcome::FieldsMismatch)
    } else if s.skipped_fields != s.skipped_fields_so_far {
        (s0, ResetOutcome::SkippedFieldsMismatch)
    } else {
        (VerifierState {
            fields_so_far: Seq::empty(),
            skipped_fields_so_far: Seq::empty(),
            ..s0
        }, ResetOutcome::Accepted)
    }
}

/// The state after a row recorded the fields `f` and skipped the fields `sk`.
pub open spec fn spec_record(s: VerifierState, f: Seq<Seq<char>>, sk: Seq<Seq<char>>) -> VerifierState {
    VerifierState {
        fields_so_far: s.fields_so_far + f,
        skipped_fields_so_far: s.skipped_fields_so_far + sk,
        ..s
    }
}

impl Verifier {
    /// A verifier that has recorded nothing.
    pub fn new() -> (v: Verifier)
        ensures
            v@ == initial_state(),
    {
        let v = Verifier {
            started: false,
            verify: false,
            fields: Vec::new(),
            skipped_fields: Vec::new(),
            fields_so_far: Vec::new(),
            skipped_fields_so_far: Vec::new(),
            single_parse: String::new(),
        };
        assert(v@.fields =~= Seq::<Seq<char>>::empty());
        assert(v@.skipped_fields =~= Seq::<Seq<char>>::empty());
        assert(v@.fields_so_far =~= Seq::<Seq<char>>::empty());
        assert(v@.skipped_fields_so_far =~= Seq::<Seq<char>>::empty());
        v
    }

    /// Ends a row. The first call takes the names recorded so far as the reference
    /// (and fails if there are none); each later call compares the names recorded
    /// since the previous call with the reference, and clears them when they agree.
    pub fn reset_to_verify(&mut self) -> (r: Result<(), VerifierError>)
        ensures
            final(self)@ == spec_reset(old(self)@).0,
            match spec_reset(old(self)@).1 {
                ResetOutcome::Accepted => r is Ok,
                ResetOutcome::NoFieldsToVerify => r matches Err(VerifierError::NoFieldsToVerify),
                ResetOutcome::FieldsMismatch => r matches Err(VerifierError::FieldsMismatch { expected, found })
                    && expected.deep_view() == old(self)@.fields
                    && found.deep_view() == old(self)@.fields_so_far,
                ResetOutcome::SkippedFieldsMismatch => r matches Err(VerifierError::SkippedFieldsMismatch { expected, found })
                    && expected.deep_view() == old(self)@.skipped_fields
                    && found.deep_view() == old(self)@.skipped_fields_so_far,
            },
    {
        self.started = false;
        if !self.verify {
            if self.fields_so_far.len() == 0 {
                return Err(VerifierError::NoFieldsToVerify);
            }
            self.verify = true;
            std::mem::swap(&mut self.fields, &mut self.fields_so_far);
            let n = self.fields.len();
            self.fields_so_far.reserve(n);
            std::mem::swap(&mut self.skipped_fields, &mut self.skipped_fields_so_far);
            return Ok(());
        }
        if !string_lists_equal(&self.fields, &self.fields_so_far) {
            return Err(VerifierError::FieldsMismatch {
                expected: self.fields.clone(),
                found: self.fields_so_far.clone(),
            });
        }
        if !string_lists_equal(&self.skipped_fields, &self.skipped_fields_so_far) {
            return Err(VerifierError::SkippedFieldsMismatch {
                expected: self.skipped_fields.clone(),
                found: self.skipped_fields_so_far.clone(),
            });
        }
        self.fields_so_far.clear();
        self.skipped_fields_so_far.clear();
        assert(self@.fields_so_far =~= Seq::<Seq<char>>::empty());
        assert(self@.skipped_fields_so_far =~= Seq::<Seq<char>>::empty());
        Ok(())
    }
    /// The verifier used to serialise one map key: already inside a row, so that a
    /// string is taken as the key's name.
    pub fn key_verifier() -> (v: Verifier)
        ensures
            v@ == (VerifierState { started: true, ..initial_state() }),
    {
        let mut v = Verifier::new();
        v.started = true;
        v
    }

    /// A row that is a struct begins; a struct inside a row is refused.
    pub fn serialize_struct(self) -> (r: Result<Verifier, VerifierError>)
        ensures
            !self@.started ==> (r matches Ok(v) && v@ == (VerifierState { started: true, ..self@ })),
            self@.started ==> r matches Err(VerifierError::EmbeddedStruct),
    {
        let mut me = self;
        if !me.started {
            me.started = true;
            Ok(me)
        } else {
            Err(VerifierError::EmbeddedStruct)
        }
    }

    /// A row that is a map begins; a map inside a row is refused.
    pub fn serialize_map(self) -> (r: Result<Verifier, VerifierError>)
        ensures
            !self@.started ==> (r matches Ok(v) && v@ == (VerifierState { started: true, ..self@ })),
            self@.started ==> r matches Err(VerifierError::EmbeddedMap),
    {
        let mut me = self;
        if !me.started {
            me.started = true;
            Ok(me)
        } else {
            Err(VerifierError::EmbeddedMap)
        }
    }

    /// A string value: inside a row (a map key) it is kept as the key's name; a bare
    /// string is not a row.
    pub fn serialize_str(self, v: &str) -> (r: Result<Verifier, VerifierError>)
        ensures
            self@.started ==> (r matches Ok(w) && w@ == (VerifierState { single_parse: v@, ..self@ })),
            !self@.started ==> (r matches Err(VerifierError::Unsupported(kind)) && kind@ == "str"@),
    {
        let mut me = self;
        if me.started {
            me.single_parse = v.to_owned();
            Ok(me)
        } else {
            Err(VerifierError::Unsupported("str".to_owned()))
        }
    }

    /// A field of a struct row was written under the name `key`.
    pub fn serialize_field(&mut self, key: &str)
        ensures
            final(self)@ == spec_record(old(self)@, seq![key@], Seq::empty()),
    {
        self.fields_so_far.push(key.to_owned());
        assert(self@.fields_so_far =~= old(self)@.fields_so_far + seq![key@]);
        assert(self@.skipped_fields_so_far =~= old(self)@.skipped_fields_so_far + Seq::<Seq<char>>::empty());
    }

    /// A field of a struct row named `key` was skipped.
    pub fn skip_field(&mut self, key: &str)
        ensures
            final(self)@ == spec_record(old(self)@, Seq::empty(), seq![key@]),
    {
        self.skipped_fields_so_far.push(key.to_owned());
        assert(self@.skipped_fields_so_far =~= old(self)@.skipped_fields_so_far + seq![key@]);
        assert(self@.fields_so_far =~= old(self)@.fields_so_far + Seq::<Seq<char>>::empty());
    }

    /// A map key was serialised into `key` (a verifier from [`Verifier::key_verifier`]):
    /// the string it saw becomes the next field name; a key that was no string is refused.
    pub fn serialize_key(&mut self, key: Verifier) -> (r: Result<(), VerifierError>)
        ensures
            key@.single_parse.len() > 0 ==> r is Ok
                && final(self)@ == spec_record(old(self)@, seq![key@.single_parse], Seq::empty()),
            key@.single_parse.len() == 0 ==> (r matches Err(VerifierError::NotAKey(names))
                && names.deep_view() == key@.fields_so_far
                && final(self)@ == old(self)@),
    {
        if key.single_parse.as_str().is_empty() {
            return Err(VerifierError::NotAKey(key.fields_so_far));
        }
        self.fields_so_far.push(key.single_parse);
        assert(self@.fields_so_far =~= old(self)@.fields_so_far + seq![key@.single_parse]);
        assert(self@.skipped_fields_so_far =~= old(self)@.skipped_fields_so_far + Seq::<Seq<char>>::empty());
        Ok(())
    }
}


/// The first row sets the reference: a verifier that recorded the fields `f` (and
/// skipped `sk`) of a first row accepts it when `f` is not empty, and then accepts a
/// later row exactly when that row wrote the same fields and skipped the same fields,
/// in the same order. Once it accepted, it is back in the same state, ready for the next row.
pub proof fn lemma_rows_checked_against_first(
    f: Seq<Seq<char>>,
    sk: Seq<Seq<char>>,
    g: Seq<Seq<char>>,
    gsk: Seq<Seq<char>>,
)
    requires
        f.len() > 0,
    ensures
        ({
            let (s1, o1) = spec_reset(spec_record(initial_state(), f, sk));
            let (s2, o2) = spec_reset(spec_record(s1, g, gsk));
            &&& o1 is Accepted
            &&& s1.fields == f
            &&& s1.skipped_fields == sk
            &&& (o2 is Accepted <==> (g == f && gsk == sk))
            &&& (o2 is Accepted ==> s2 == s1)
        }),
{
    let s0 = spec_record(initial_state(), f, sk);
    assert(s0.fields_so_far =~= f);
    assert(s0.skipped_fields_so_far =~= sk);
    let s1 = spec_reset(s0).0;
    assert(s1.fields_so_far =~= Seq::<Seq<char>>::empty());
    let t = spec_record(s1, g, gsk);
    assert(t.fields_so_far =~= g);
    assert(t.skipped_fields_so_far =~= gsk);
}

/// A first row that wrote no field is refused, and nothing but `started` changes.
pub proof fn lemma_empty_first_row_refused(sk: Seq<Seq<char>>)
    ensures
        ({
            let s = spec_record(initial_state(), Seq::empty(), sk);
            let (s1, o) = spec_reset(s);
            &&& o is NoFieldsToVerify
            &&& s1 == s
        }),
{
    let s = spec_record(initial_state(), Seq::empty(), sk);
    assert(s.fields_so_far =~= Seq::<Seq<char>>::empty());
}

/// Once a reference is set, no call of `reset_to_verify` changes it, whatever it
/// answers; a refused row stays recorded, so every later call is refused as well.
pub proof fn lemma_reference_is_kept(s: VerifierState)
    requires
        s.verify,
    ensures
        spec_reset(s).0.verify,
        spec_reset(s).0.fields == s.fields,
        spec_reset(s).0.skipped_fields == s.skipped_fields,
        !(spec_reset(s).1 is Accepted) ==> spec_reset(spec_reset(s).0).1 == spec_reset(s).1,
{
}

/// The field names one row writes and the names it skips.
pub type RowNames = (Seq<Seq<char>>, Seq<Seq<char>>);

/// Rows recorded one after the other from state `s`, each followed by a call of
/// `reset_to_verify`: the final state and the outcome of each call.
pub open spec fn spec_rows(s: VerifierState, rows: Seq<RowNames>) -> (VerifierState, Seq<ResetOutcome>)
    decreases rows.len(),
{
    if rows.len() == 0 {
        (s, Seq::empty())
    } else {
        let (s1, o) = spec_reset(spec_record(s, rows[0].0, rows[0].1));
        let (s2, os) = spec_rows(s1, rows.drop_first());
        (s2, seq![o] + os)
    }
}

/// A verifier whose reference is `f` (fields) and `sk` (skipped fields) and that has
/// recorded nothing since.
pub open spec fn is_ready(s: VerifierState, f: Seq<Seq<char>>, sk: Seq<Seq<char>>) -> bool {
    &&& s.verify
    &&& s.fields == f
    &&& s.skipped_fields == sk
    &&& s.fields_so_far == Seq::<Seq<char>>::empty()
    &&& s.skipped_fields_so_far == Seq::<Seq<char>>::empty()
}

/// From a ready verifier, as long as every earlier row was accepted, a row is accepted
/// exactly when it names the reference.
proof fn lemma_ready_rows(s: VerifierState, f: Seq<Seq<char>>, sk: Seq<Seq<char>>, rows: Seq<RowNames>)
    requires
        is_ready(s, f, sk),
    ensures
        spec_rows(s, rows).1.len() == rows.len(),
        forall|i: int|
            0 <= i < rows.len() && (forall|j: int| 0 <= j < i ==> (#[trigger] spec_rows(s, rows).1[j]) is Accepted)
                ==> (spec_rows(s, rows).1[i] is Accepted <==> rows[i] == (f, sk)),
    decreases rows.len(),
{
    if rows.len() > 0 {
        let t = spec_record(s, rows[0].0, rows[0].1);
        assert(t.fields_so_far =~= rows[0].0);
        assert(t.skipped_fields_so_far =~= rows[0].1);
        let (s1, o) = spec_reset(t);
        let rest = rows.drop_first();
        let outs = spec_rows(s, rows).1;
        let tail = spec_rows(s1, rest).1;
        assert(outs == seq![o] + tail);
        assert(o is Accepted <==> rows[0] == (f, sk));
        if o is Accepted {
            assert(s1.fields_so_far =~= Seq::<Seq<char>>::empty());
            assert(s1.skipped_fields_so_far =~= Seq::<Seq<char>>::empty());
            lemma_ready_rows(s1, f, sk, rest);
            assert forall|i: int|
                0 <= i < rows.len() && (forall|j: int| 0 <= j < i ==> (#[trigger] outs[j]) is Accepted)
                    implies (outs[i] is Accepted <==> rows[i] == (f, sk)) by {
                if i > 0 {
                    assert(outs[i] == tail[i - 1]);
                    assert(rows[i] == rest[i - 1]);
                    assert forall|j: int| 0 <= j < i - 1 implies (#[trigger] tail[j]) is Accepted by {
                        assert(outs[j + 1] == tail[j]);
                    }
                }
            }
        } else {
            lemma_rows_len(s1, rest);
            assert forall|i: int|
                0 <= i < rows.len() && (forall|j: int| 0 <= j < i ==> (#[trigger] outs[j]) is Accepted)
                    implies (outs[i] is Accepted <==> rows[i] == (f, sk)) by {
                if i > 0 {
                    assert(outs[0] == o);
                }
            }
        }
    }
}

/// One outcome for each row.
proof fn lemma_rows_len(s: VerifierState, rows: Seq<RowNames>)
    ensures
        spec_rows(s, rows).1.len() == rows.len(),
    decreases rows.len(),
{
    if rows.len() > 0 {
        let (s1, o) = spec_reset(spec_record(s, rows[0].0, rows[0].1));
        lemma_rows_len(s1, rows.drop_first());
    }
}

/// Every row is checked against the first: for rows serialised one after the other
/// into a fresh verifier, each followed by `reset_to_verify`, the first call succeeds
/// when the first row wrote a field, and each later call, as long as all earlier ones
/// succeeded, succeeds exactly when its row wrote and skipped the same names as the
/// first row, in the same order.
pub proof fn lemma_every_row_checked_against_first(rows: Seq<RowNames>)
    requires
        rows.len() > 0,
        rows[0].0.len() > 0,
    ensures
        ({
            let outs = spec_rows(initial_state(), rows).1;
            &&& outs.len() == rows.len()
            &&& outs[0] is Accepted
            &&& forall|i: int|
                1 <= i < rows.len() && (forall|j: int| 0 <= j < i ==> (#[trigger] outs[j]) is Accepted)
                    ==> (outs[i] is Accepted <==> rows[i] == rows[0])
        }),
{
    let f = rows[0].0;
    let sk = rows[0].1;
    let t = spec_record(initial_state(), f, sk);
    assert(t.fields_so_far =~= f);
    assert(t.skipped_fields_so_far =~= sk);
    let (s1, o) = spec_reset(t);
    assert(s1.fields_so_far =~= Seq::<Seq<char>>::empty());
    assert(s1.skipped_fields_so_far =~= Seq::<Seq<char>>::empty());
    let rest = rows.drop_first();
    lemma_ready_rows(s1, f, sk, rest);
    let outs = spec_rows(initial_state(), rows).1;
    let tail = spec_rows(s1, rest).1;
    assert(outs == seq![o] + tail);
    assert(rows[0] == (f, sk));
    assert forall|i: int|
        1 <= i < rows.len() && (forall|j: int| 0 <= j < i ==> (#[trigger] outs[j]) is Accepted)
            implies (outs[i] is Accepted <==> rows[i] == rows[0]) by {
        assert(outs[i] == tail[i - 1]);
        assert(rows[i] == rest[i - 1]);
        assert forall|j: int| 0 <= j < i - 1 implies (#[trigger] tail[j]) is Accepted by {
            assert(outs[j + 1] == tail[j]);
        }
    }
}

} // verus!
