//! E-mail reports of processed requests: who receives them, and what they say.

use vstd::prelude::*;
use vstd::utf8::{decode_utf8, valid_utf8};
use crate::text::concat_str;
use crate::utils::csv::str_views;
use crate::search::{first_where, lemma_first_where_prefix};

verus! {

/// Replies whose body is this many bytes or more are not mailed.
pub const MAIL_BODY_LIMIT: usize = 30000;

/// The SMTP port of the relay.
pub const SMTP_PORT: u16 = 25;

/// Who receives the reports of the requests whose path matches `path` (a regular expression).
#[derive(Debug)]
pub struct SettingsReplies {
    pub path: String,
    pub to: Vec<String>,
    pub cc: Vec<String>,
    pub bcc: Vec<String>,
}

/// How reports are sent, and to whom. Mailboxes are kept in their written form
/// (`Name <address>`).
#[derive(Debug)]
pub struct Settings {
    pub smtp_from: String,
    pub smtp_reply_to: Option<String>,
    pub smtp_server: String,
    pub smtp_login: Option<String>,
    pub smtp_password: Option<String>,
    pub replies: Vec<SettingsReplies>,
}

/// Names whether the `regex` crate finds a match of `pattern` in `text`, or `None`
/// when it refuses the pattern.
pub uninterp spec fn spec_regex_match(pattern: Seq<char>, text: Seq<char>) -> Option<bool>;

/// Compiles `pattern` with `regex::Regex::new` and tests it with `Regex::is_match`.
/// The contract claims only that the answer depends on the two texts alone (named by
/// `spec_regex_match`).
#[verifier::external_body]
fn regex_is_match(pattern: &str, text: &str) -> (r: Option<bool>)
    ensures
        r == spec_regex_match(pattern@, text@),
{
    regex::Regex::new(pattern).ok().map(|re| re.is_match(text))
}

/// Names the pretty-printed form that `serde_json` gives to the JSON document in
/// `data`, or `None` when `data` is no JSON document.
pub uninterp spec fn spec_json_pretty(data: Seq<u8>) -> Option<Seq<char>>;

/// Reads `data` with `serde_json::from_slice` into a `serde_json::Value` and writes it
/// back with `serde_json::to_string_pretty`. The contract claims only that the text
/// depends on the bytes alone (named by `spec_json_pretty`).
#[verifier::external_body]
fn json_pretty(data: &[u8]) -> (r: Option<String>)
    ensures
        r is Some <==> spec_json_pretty(data@) is Some,
        r matches Some(s) ==> s@ == spec_json_pretty(data@).unwrap(),
{
    serde_json::from_slice::<serde_json::Value>(data).ok().and_then(|v| serde_json::to_string_pretty(&v).ok())
}

/// Names the text that `String::from_utf8_lossy` decodes from `data`.
pub uninterp spec fn spec_utf8_lossy(data: Seq<u8>) -> Seq<char>;

/// Decodes `data` with std's `String::from_utf8_lossy`, which by its documentation
/// gives the text itself when `data` is valid UTF-8, and otherwise replaces invalid
/// sequences with U+FFFD (which the contract leaves unsaid, beyond naming the result).
#[verifier::external_body]
fn utf8_lossy(data: &[u8]) -> (s: String)
    ensures
        s@ == spec_utf8_lossy(data@),
        valid_utf8(data@) ==> s@ == decode_utf8(data@),
{
    String::from_utf8_lossy(data).to_string()
}

/// The recipients that the rules `replies` give a request to `uri`: for each rule, in
/// order, whose pattern matches, its `to`, `cc` and `bcc` lists are appended to the
/// ones before; `None` when a pattern is refused.
pub open spec fn spec_recipients(replies: Seq<SettingsReplies>, uri: Seq<char>) -> Option<(Seq<Seq<char>>, Seq<Seq<char>>, Seq<Seq<char>>)>
    decreases replies.len(),
{
    if replies.len() == 0 {
        Some((seq![], seq![], seq![]))
    } else {
        match spec_recipients(replies.drop_last(), uri) {
            None => None,
            Some((t, c, b)) => {
                let rule = replies.last();
                match spec_regex_match(rule.path@, uri) {
                    None => None,
                    Some(false) => Some((t, c, b)),
                    Some(true) => Some((t + str_views(rule.to@), c + str_views(rule.cc@), b + str_views(rule.bcc@))),
                }
            },
        }
    }
}

/// Rules whose pattern the `regex` crate refuses.
pub open spec fn refused_rule(uri: Seq<char>) -> spec_fn(SettingsReplies) -> bool {
    |r: SettingsReplies| spec_regex_match(r.path@, uri) is None
}

/// The rules give no recipients exactly when one of their patterns is refused.
pub proof fn lemma_recipients_refused_iff(replies: Seq<SettingsReplies>, uri: Seq<char>)
    ensures
        spec_recipients(replies, uri) is None <==> first_where(replies, refused_rule(uri)) is Some,
    decreases replies.len(),
{
    if replies.len() > 0 {
        lemma_recipients_refused_iff(replies.drop_last(), uri);
    }
}

/// The body of a report: a successful reply's bytes, pretty-printed when they are
/// JSON and decoded as UTF-8 otherwise, or a failure's message.
pub open spec fn spec_report_body(body: Result<Seq<u8>, Seq<char>>) -> Seq<char> {
    match body {
        Ok(data) => match spec_json_pretty(data) {
            Some(p) => p,
            None => spec_utf8_lossy(data),
        },
        Err(e) => e,
    }
}

/// A report ready to be sent.
#[derive(Debug)]
pub struct EmailPlan {
    pub from: String,
    pub reply_to: Option<String>,
    pub to: Vec<String>,
    pub cc: Vec<String>,
    pub bcc: Vec<String>,
    pub subject: String,
    pub body: String,
    /// Login and password, when both are set.
    pub credentials: Option<(String, String)>,
}

/// Why a report could not be planned.
#[derive(Debug)]
pub enum EmailError {
    /// A rule's path pattern is not a regular expression; the pattern.
    InvalidPattern(String),
}

fn append_all(dst: &mut Vec<String>, src: &Vec<String>)
    ensures
        str_views(final(dst)@) == str_views(old(dst)@) + str_views(src@),
{
    let mut i: usize = 0;
    let ghost start = str_views(dst@);
    while i < src.len()
        invariant
            i <= src@.len(),
            str_views(dst@) == start + str_views(src@).take(i as int),
        decreases src.len() - i,
    {
        let ghost before = str_views(dst@);
        dst.push(src[i].clone());
        assert(str_views(dst@) =~= before.push(src@[i as int]@));
        assert(str_views(src@).take(i + 1) =~= str_views(src@).take(i as int).push(src@[i as int]@));
        i = i + 1;
    }
    assert(str_views(src@).take(src@.len() as int) =~= str_views(src@));
}

/// The report of a request to `uri`: from and reply-to as set; the recipients of the
/// rules that match `uri`; the subject `Success Process: {uri}` for a reply and
/// `Failed Process: {uri}` for a failure; the body; and the credentials when both
/// login and password are set. Refused only when a rule's pattern is invalid.
pub fn plan_email(settings: &Settings, uri: &str, body: Result<&[u8], String>) -> (r: Result<EmailPlan, EmailError>)
    ensures
        match first_where(settings.replies@, refused_rule(uri@)) {
            Some(i) => r matches Err(EmailError::InvalidPattern(p)) && p@ == settings.replies@[i].path@,
            None => spec_recipients(settings.replies@, uri@) is Some,
        },
        match spec_recipients(settings.replies@, uri@) {
            None => r is Err,
            Some((t, c, b)) => r matches Ok(p) && {
                &&& p.from == settings.smtp_from
                &&& p.reply_to == settings.smtp_reply_to
                &&& str_views(p.to@) == t
                &&& str_views(p.cc@) == c
                &&& str_views(p.bcc@) == b
                &&& p.subject@ == (match body {
                    Ok(_) => "Success Process: "@,
                    Err(_) => "Failed Process: "@,
                }) + uri@
                &&& p.body@ == spec_report_body(match body {
                    Ok(d) => Ok(d@),
                    Err(e) => Err(e@),
                })
                &&& p.credentials == (match (settings.smtp_login, settings.smtp_password) {
                    (Some(l), Some(w)) => Some((l, w)),
                    _ => None,
                })
            },
        },
{
    let mut to: Vec<String> = Vec::new();
    let mut cc: Vec<String> = Vec::new();
    let mut bcc: Vec<String> = Vec::new();
    let mut i: usize = 0;
    assert(str_views(to@) =~= Seq::<Seq<char>>::empty());
    assert(str_views(cc@) =~= Seq::<Seq<char>>::empty());
    assert(str_views(bcc@) =~= Seq::<Seq<char>>::empty());
    assert(settings.replies@.take(0) =~= Seq::<SettingsReplies>::empty());
    while i < settings.replies.len()
        invariant
            i <= settings.replies@.len(),
            spec_recipients(settings.replies@.take(i as int), uri@) == Some((str_views(to@), str_views(cc@), str_views(bcc@))),
        decreases settings.replies.len() - i,
    {
        let rule = &settings.replies[i];
        assert(settings.replies@.take(i + 1).drop_last() =~= settings.replies@.take(i as int));
        assert(settings.replies@.take(i + 1).last() == *rule);
        match regex_is_match(rule.path.as_str(), uri) {
            None => {
                proof {
                    lemma_recipients_refused(settings.replies@, uri@, i + 1);
                    lemma_recipients_refused_iff(settings.replies@.take(i as int), uri@);
                    assert(first_where(settings.replies@.take(i + 1), refused_rule(uri@)) == Some(i as int));
                    lemma_first_where_prefix(settings.replies@, refused_rule(uri@), i + 1, i as int);
                }
                return Err(EmailError::InvalidPattern(rule.path.clone()));
            },
            Some(false) => {},
            Some(true) => {
                append_all(&mut to, &rule.to);
                append_all(&mut cc, &rule.cc);
                append_all(&mut bcc, &rule.bcc);
            },
        }
        i = i + 1;
    }
    assert(settings.replies@.take(settings.replies@.len() as int) =~= settings.replies@);
    proof {
        lemma_recipients_refused_iff(settings.replies@, uri@);
    }
    let (subject, text) = match body {
        Ok(data) => {
            let text = match json_pretty(data) {
                Some(p) => p,
                None => utf8_lossy(data),
            };
            (concat_str("Success Process: ", uri), text)
        },
        Err(e) => (concat_str("Failed Process: ", uri), e),
    };
    let credentials = match (&settings.smtp_login, &settings.smtp_password) {
        (Some(l), Some(w)) => Some((l.clone(), w.clone())),
        _ => None,
    };
    Ok(EmailPlan {
        from: settings.smtp_from.clone(),
        reply_to: match &settings.smtp_reply_to {
            Some(x) => Some(x.clone()),
            None => None,
        },
        to,
        cc,
        bcc,
        subject,
        body: text,
        credentials,
    })
}

/// Once the rules before some point give no recipients (a refused pattern), no
/// longer list of rules gives any.
proof fn lemma_recipients_refused(replies: Seq<SettingsReplies>, uri: Seq<char>, k: int)
    requires
        0 < k <= replies.len(),
        spec_recipients(replies.take(k), uri) is None,
    ensures
        spec_recipients(replies, uri) is None,
    decreases replies.len() - k,
{
    if k < replies.len() {
        assert(replies.take(k + 1).drop_last() =~= replies.take(k));
        lemma_recipients_refused(replies, uri, k + 1);
    } else {
        assert(replies.take(k) =~= replies);
    }
}

/// Whether a reply of `len` bytes is mailed: only below the limit.
pub fn should_mail(len: usize) -> (r: bool)
    ensures
        r == (len < MAIL_BODY_LIMIT),
{
    len < MAIL_BODY_LIMIT
}

fn strings2(a: &str, b: &str) -> (v: Vec<String>)
    ensures
        str_views(v@) == seq![a@, b@],
{
    let mut v: Vec<String> = Vec::new();
    v.push(a.to_owned());
    v.push(b.to_owned());
    assert(str_views(v@) =~= seq![a@, b@]);
    v
}

fn strings1(a: &str) -> (v: Vec<String>)
    ensures
        str_views(v@) == seq![a@],
{
    let mut v: Vec<String> = Vec::new();
    v.push(a.to_owned());
    assert(str_views(v@) =~= seq![a@]);
    v
}

impl Default for Settings {
    /// Example settings, to be edited: a local relay and two example rules.
    fn default() -> (s: Settings)
        ensures
            s.smtp_from@ == "Someone <from@address.tld>"@,
            s.smtp_reply_to matches Some(r) && r@ == "Reply To Me or delete this whole setting to not use it <elsewhere@address.tld>"@,
            s.smtp_server@ == "127.0.0.1"@,
            s.smtp_login matches Some(l) && l@ == "theloginmightsameasemail"@,
            s.smtp_password matches Some(p) && p@ == "emailpassword"@,
            s.replies@.len() == 2,
            s.replies@[0].path@ == "/blah/blorp.*"@,
            str_views(s.replies@[0].to@) == seq!["The To <to@address.tld>"@],
            str_views(s.replies@[0].cc@) == seq!["A CC <a@address.tld>"@],
            str_views(s.replies@[0].bcc@) == Seq::<Seq<char>>::empty(),
            s.replies@[1].path@ == "/blah/blorp/bloop"@,
            str_views(s.replies@[1].to@) == seq!["The To <to@address.tld>"@],
            str_views(s.replies@[1].cc@) == seq!["A CC <a@address.tld>"@, "Another CC <another@address.tld>"@],
            str_views(s.replies@[1].bcc@) == seq!["A BCC <b@address.tld>"@],
    {
        let mut replies: Vec<SettingsReplies> = Vec::new();
        let no_bcc: Vec<String> = Vec::new();
        assert(str_views(no_bcc@) =~= Seq::<Seq<char>>::empty());
        replies.push(SettingsReplies {
            path: "/blah/blorp.*".to_owned(),
            to: strings1("The To <to@address.tld>"),
            cc: strings1("A CC <a@address.tld>"),
            bcc: no_bcc,
        });
        replies.push(SettingsReplies {
            path: "/blah/blorp/bloop".to_owned(),
            to: strings1("The To <to@address.tld>"),
            cc: strings2("A CC <a@address.tld>", "Another CC <another@address.tld>"),
            bcc: strings1("A BCC <b@address.tld>"),
        });
        Settings {
            smtp_from: "Someone <from@address.tld>".to_owned(),
            smtp_reply_to: Some("Reply To Me or delete this whole setting to not use it <elsewhere@address.tld>".to_owned()),
            smtp_server: "127.0.0.1".to_owned(),
            smtp_login: Some("theloginmightsameasemail".to_owned()),
            smtp_password: Some("emailpassword".to_owned()),
            replies,
        }
    }
}

} // verus!
