//! Helpers of the paginated proxy to Canvas: following `Link` headers, substituting
//! unrolled values into a path, and splicing JSON arrays.

use vstd::prelude::*;
use vstd::string::StringSliceAdditionalSpecFns;
use vstd::utf8::encode_utf8;
use crate::utils::csv::str_views;
use crate::canvas::{spec_url_with_query, url_text_fits, url_with_query, CanvasError};
use crate::text::{
    matches_at, chars_of, concat_str, find_chars, replace_all, spec_find, spec_replace, spec_split, spec_trim_end,
    spec_trim_start, split_chars, string_from_chars, sub_chars, trim_end_chars, trim_start_chars, char_views,
};

verus! {

/// What separates a link from its parameters in a `Link` header: `; `.
pub open spec fn link_separator() -> Seq<char> {
    seq![';', ' ']
}

/// The parameter of the link to the next page: `rel="next"`.
pub open spec fn rel_next() -> Seq<char> {
    seq!['r', 'e', 'l', '=', '"', 'n', 'e', 'x', 't', '"']
}

/// `s` cut at the first occurrence of `pat`, as `str::split_once` does.
pub open spec fn spec_split_once(s: Seq<char>, pat: Seq<char>) -> Option<(Seq<char>, Seq<char>)> {
    match spec_find(s, pat) {
        Some(i) => Some((s.take(i), s.skip(i + pat.len()))),
        None => None,
    }
}

/// The URL of the first link among `parts` whose parameters are exactly `rel="next"`,
/// with the leading `<`s and trailing `>`s taken off; parts without `; ` are passed over.
pub open spec fn next_link_among(parts: Seq<Seq<char>>) -> Option<Seq<char>>
    decreases parts.len(),
{
    if parts.len() == 0 {
        None
    } else {
        match spec_split_once(parts[0], link_separator()) {
            Some((url, rel)) => if rel == rel_next() {
                Some(spec_trim_end(spec_trim_start(url, '<'), '>'))
            } else {
                next_link_among(parts.drop_first())
            },
            None => next_link_among(parts.drop_first()),
        }
    }
}

/// The URL of the next page named in a `Link` header, whose links are separated by `,`.
pub open spec fn spec_parse_link_next(links: Seq<char>) -> Option<Seq<char>> {
    next_link_among(spec_split(links, ','))
}

/// The URL of the next page named in the `Link` header `links`, if there is one.
pub fn parse_link_next(links: &str) -> (r: Option<String>)
    ensures
        match spec_parse_link_next(links@) {
            Some(u) => r matches Some(s) && s@ == u,
            None => r is None,
        },
{
    let text = chars_of(links);
    let parts = split_chars(&text, ',');
    let sep: Vec<char> = vec![';', ' '];
    let rel: Vec<char> = vec!['r', 'e', 'l', '=', '"', 'n', 'e', 'x', 't', '"'];
    assert(sep@ =~= link_separator());
    assert(rel@ =~= rel_next());
    let ghost all = char_views(parts@);
    let mut k: usize = 0;
    assert(all.skip(0) =~= all);
    while k < parts.len()
        invariant
            all == char_views(parts@),
            all == spec_split(text@, ','),
            text@ == links@,
            sep@ == link_separator(),
            rel@ == rel_next(),
            k <= parts@.len(),
            next_link_among(all.skip(k as int)) == next_link_among(all),
        decreases parts.len() - k,
    {
        let link = &parts[k];
        assert(all.skip(k as int)[0] == link@);
        assert(all.skip(k as int).drop_first() =~= all.skip(k + 1));
        match find_chars(link, &sep) {
            Some(i) => {
                proof {
                    crate::text::lemma_find_from(link@, sep@, 0);
                    assert(sep@.len() == 2);
                }
                assert(i + 2 <= link.len());
                let url = sub_chars(link, 0, i);
                let param = sub_chars(link, i + 2, link.len());
                assert(url@ =~= link@.take(i as int));
                assert(param@ =~= link@.skip(i + 2));
                let mut same = param.len() == rel.len();
                let mut j: usize = 0;
                while same && j < rel.len()
                    invariant
                        j <= rel@.len(),
                        same ==> param@.len() == rel@.len(),
                        same ==> forall|x: int| 0 <= x < j ==> param@[x] == rel@[x],
                        !same ==> param@ != rel@,
                    decreases rel.len() - j,
                {
                    if param[j] != rel[j] {
                        same = false;
                    }
                    j = j + 1;
                }
                if same {
                    assert(param@ =~= rel@);
                    let a = trim_start_chars(&url, '<');
                    let b = trim_end_chars(&a, '>');
                    return Some(string_from_chars(b.as_slice()));
                }
            },
            None => {},
        }
        k = k + 1;
    }
    None
}

/// The next page to fetch: none when only one page is wanted, else the next link of
/// the page's `Link` header, if it has one.
pub fn next_page_link(only_one_page: bool, link_header: Option<&str>) -> (r: Option<String>)
    ensures
        only_one_page ==> r is None,
        !only_one_page ==> match link_header {
            None => r is None,
            Some(h) => match spec_parse_link_next(h@) {
                Some(u) => r matches Some(s) && s@ == u,
                None => r is None,
            },
        },
{
    if only_one_page {
        None
    } else {
        match link_header {
            None => None,
            Some(h) => parse_link_next(h),
        }
    }
}

/// The link part `part` has the parameters `rel="next"`: what follows its first `; ` is
/// exactly that.
pub open spec fn names_next_page(part: Seq<char>) -> bool {
    spec_find(part, seq![';', ' ']) matches Some(j)
        && part.skip(j + 2) == seq!['r', 'e', 'l', '=', '"', 'n', 'e', 'x', 't', '"']
}

/// The URL of the link part `part`: what precedes its first `; `, without the leading
/// `<`s and trailing `>`s.
pub open spec fn link_url(part: Seq<char>) -> Seq<char> {
    match spec_find(part, seq![';', ' ']) {
        Some(j) => spec_trim_end(spec_trim_start(part.take(j), '<'), '>'),
        None => Seq::empty(),
    }
}

/// The next link among `parts` is the URL of the first part whose parameters are
/// `rel="next"`, and there is none when no part has them.
proof fn lemma_next_link_among(parts: Seq<Seq<char>>)
    ensures
        next_link_among(parts) matches Some(u) ==> exists|i: int| {
            &&& 0 <= i < parts.len()
            &&& names_next_page(#[trigger] parts[i])
            &&& u == link_url(parts[i])
            &&& forall|j: int| 0 <= j < i ==> !names_next_page(#[trigger] parts[j])
        },
        next_link_among(parts) is None <==> forall|i: int| 0 <= i < parts.len() ==> !names_next_page(#[trigger] parts[i]),
    decreases parts.len(),
{
    assert(link_separator() =~= seq![';', ' ']);
    assert(rel_next() =~= seq!['r', 'e', 'l', '=', '"', 'n', 'e', 'x', 't', '"']);
    if parts.len() > 0 {
        let rest = parts.drop_first();
        lemma_next_link_among(rest);
        let p = parts[0];
        let here = names_next_page(p);
        assert(here <==> (spec_split_once(p, link_separator()) matches Some((url, rel)) && rel == rel_next()));
        if here {
            let j = spec_find(p, seq![';', ' ']).unwrap();
            assert(spec_split_once(p, link_separator()) == Some((p.take(j), p.skip(j + 2))));
            assert(next_link_among(parts) == Some(link_url(p)));
        } else {
            assert(next_link_among(parts) == next_link_among(rest));
            assert forall|i: int| 1 <= i < parts.len() implies parts[i] == #[trigger] rest[i - 1] by {}
            if next_link_among(rest) is Some {
                let u = next_link_among(rest).unwrap();
                let i = choose|i: int| {
                    &&& 0 <= i < rest.len()
                    &&& names_next_page(#[trigger] rest[i])
                    &&& u == link_url(rest[i])
                    &&& forall|j: int| 0 <= j < i ==> !names_next_page(#[trigger] rest[j])
                };
                assert(parts[i + 1] == rest[i]);
                assert forall|j: int| 0 <= j < i + 1 implies !names_next_page(#[trigger] parts[j]) by {
                    if j > 0 {
                        assert(parts[j] == rest[j - 1]);
                    }
                }
            } else {
                assert forall|i: int| 0 <= i < parts.len() implies !names_next_page(#[trigger] parts[i]) by {
                    if i > 0 {
                        assert(parts[i] == rest[i - 1]);
                    }
                }
            }
        }
    }
}

/// The next page of a `Link` header is the URL, without `<` and `>`, of its first
/// comma-separated link whose parameters after the first `; ` are exactly `rel="next"`;
/// a header without such a link (only `current`, `prev`, `first`, `last`, ...) names no
/// next page.
pub proof fn lemma_link_next_is_rel_next(links: Seq<char>)
    ensures
        spec_parse_link_next(links) matches Some(u) ==> exists|i: int| {
            &&& 0 <= i < spec_split(links, ',').len()
            &&& names_next_page(#[trigger] spec_split(links, ',')[i])
            &&& u == link_url(spec_split(links, ',')[i])
            &&& forall|j: int| 0 <= j < i ==> !names_next_page(#[trigger] spec_split(links, ',')[j])
        },
        spec_parse_link_next(links) is None <==> forall|i: int|
            0 <= i < spec_split(links, ',').len() ==> !names_next_page(#[trigger] spec_split(links, ',')[i]),
{
    lemma_next_link_among(spec_split(links, ','));
}

/// The marker of an unrolled path segment.
pub open spec fn unroll_marker(path_key: Seq<char>) -> Seq<char> {
    "UNROLL:"@ + path_key
}

/// The path of one request of an unrolled call: `UNROLL:{path_key}:keyed` becomes
/// `{key}:{value}`, then `UNROLL:{path_key}` becomes `{value}`.
pub open spec fn spec_unroll_path(path: Seq<char>, path_key: Seq<char>, key: Seq<char>, value: Seq<char>) -> Seq<char> {
    spec_replace(
        spec_replace(path, unroll_marker(path_key) + ":keyed"@, key + ":"@ + value),
        unroll_marker(path_key),
        value,
    )
}

/// Replacing a pattern that does not occur changes nothing.
proof fn lemma_replace_absent(s: Seq<char>, pat: Seq<char>, with: Seq<char>)
    requires
        forall|i: int| !matches_at(s, pat, i),
    ensures
        spec_replace(s, pat, with) == s,
    decreases s.len(),
{
    if pat.len() > 0 && s.len() >= pat.len() {
        assert(!matches_at(s, pat, 0));
        assert(s.subrange(0, pat.len() as int) =~= s.take(pat.len() as int));
        let t = s.drop_first();
        assert forall|i: int| !matches_at(t, pat, i) by {
            if matches_at(t, pat, i) {
                assert(s.subrange(i + 1, i + 1 + pat.len()) =~= t.subrange(i, i + pat.len()));
                assert(matches_at(s, pat, i + 1));
            }
        }
        lemma_replace_absent(t, pat, with);
        assert(s =~= seq![s[0]] + t);
    }
}

/// The path of an unrolled request is the path with `str::replace` applied twice, in
/// this order and whatever the first one changed: `UNROLL:{path_key}:keyed` becomes
/// `{key}:{value}`, then `UNROLL:{path_key}` becomes `{value}`. So a path without the
/// keyed marker has each `UNROLL:{path_key}` replaced by the value.
pub proof fn lemma_unroll_path_replaces(path: Seq<char>, path_key: Seq<char>, key: Seq<char>, value: Seq<char>)
    ensures
        spec_unroll_path(path, path_key, key, value) == spec_replace(
            spec_replace(path, "UNROLL:"@ + path_key + ":keyed"@, key + ":"@ + value),
            "UNROLL:"@ + path_key,
            value,
        ),
        (forall|i: int| !matches_at(path, "UNROLL:"@ + path_key + ":keyed"@, i)) ==>
            spec_unroll_path(path, path_key, key, value) == spec_replace(path, "UNROLL:"@ + path_key, value),
{
    let keyed = "UNROLL:"@ + path_key + ":keyed"@;
    assert(unroll_marker(path_key) + ":keyed"@ =~= keyed);
    if forall|i: int| !matches_at(path, keyed, i) {
        lemma_replace_absent(path, keyed, key + ":"@ + value);
    }
}

/// The Canvas path of one request of an unrolled call.
pub fn unroll_path(canvas_path: &str, path_key: &str, key: &str, value: &str) -> (r: String)
    ensures
        r@ == spec_unroll_path(canvas_path@, path_key@, key@, value@),
{
    proof {
        reveal_strlit("UNROLL:");
    }
    let marker = concat_str("UNROLL:", path_key);
    let keyed = concat_str(marker.as_str(), ":keyed");
    let pair = concat_str(key, ":");
    let pair = concat_str(pair.as_str(), value);
    let once = replace_all(canvas_path, keyed.as_str(), pair.as_str());
    replace_all(once.as_str(), marker.as_str(), value)
}

/// The elements of a JSON array's text: the bytes between its opening `[` and closing
/// `]`, or `None` when the text is not framed by both.
pub fn strip_array_brackets(body: &[u8]) -> (r: Option<Vec<u8>>)
    ensures
        (body@.len() >= 2 && body@[0] == 91u8 && body@.last() == 93u8) ==>
            (r matches Some(inner) && inner@ == body@.subrange(1, body@.len() - 1)),
        !(body@.len() >= 2 && body@[0] == 91u8 && body@.last() == 93u8) ==> r is None,
{
    let n = body.len();
    if n < 2 || body[0] != 91u8 || body[n - 1] != 93u8 {
        return None;
    }
    let mut inner: Vec<u8> = Vec::new();
    let mut i: usize = 1;
    while i < n - 1
        invariant
            n == body@.len(),
            n >= 2,
            1 <= i <= n - 1,
            inner@ == body@.subrange(1, i as int),
        decreases n - 1 - i,
    {
        inner.push(body[i]);
        i = i + 1;
        assert(inner@ =~= body@.subrange(1, i as int));
    }
    Some(inner)
}

/// One level of a JSON document: an array with the compact text of each element, an
/// object with each key and the compact text of its value (in the order in which
/// `serde_json` keeps its keys), a string, or any other value.
pub enum JsonLevel {
    Array(Vec<String>),
    Object(Vec<(String, String)>),
    Str(String),
    Other,
}

/// A [`JsonLevel`] as plain values.
pub enum JsonLevelView {
    Array(Seq<Seq<char>>),
    Object(Seq<(Seq<char>, Seq<char>)>),
    Str(Seq<char>),
    Other,
}

/// The texts of a list of pairs of strings.
pub open spec fn pair_views(v: Seq<(String, String)>) -> Seq<(Seq<char>, Seq<char>)> {
    v.map_values(|p: (String, String)| (p.0@, p.1@))
}

impl View for JsonLevel {
    type V = JsonLevelView;

    open spec fn view(&self) -> JsonLevelView {
        match self {
            JsonLevel::Array(items) => JsonLevelView::Array(str_views(items@)),
            JsonLevel::Object(entries) => JsonLevelView::Object(pair_views(entries@)),
            JsonLevel::Str(s) => JsonLevelView::Str(s@),
            JsonLevel::Other => JsonLevelView::Other,
        }
    }
}

/// An optional [`JsonLevel`] as plain values.
pub open spec fn opt_level_view(l: Option<JsonLevel>) -> Option<JsonLevelView> {
    match l {
        Some(v) => Some(v@),
        None => None,
    }
}

/// Names the top level of the JSON document that `serde_json` reads from `text`, with
/// the parts below it written back in compact form, or `None` where the text is no JSON.
pub uninterp spec fn spec_json_level(text: Seq<char>) -> Option<JsonLevelView>;

/// Reads `text` with `serde_json::from_str` into a `serde_json::Value` and returns its
/// top level, each element or member value written back with `Value`'s `Display`
/// (`serde_json`'s compact form). The contract claims only that the outcome depends on
/// `text` alone (named by `spec_json_level`); the JSON grammar is not restated.
#[verifier::external_body]
fn json_level(text: &str) -> (r: Option<JsonLevel>)
    ensures
        opt_level_view(r) == spec_json_level(text@),
{
    serde_json::from_str::<serde_json::Value>(text).ok().map(|v| match v {
        serde_json::Value::Array(a) => JsonLevel::Array(a.iter().map(|x| x.to_string()).collect()),
        serde_json::Value::Object(m) => JsonLevel::Object(m.iter().map(|(k, x)| (k.clone(), x.to_string())).collect()),
        serde_json::Value::String(s) => JsonLevel::Str(s),
        _ => JsonLevel::Other,
    })
}

/// Why the body of a Canvas page could not be read as records.
#[derive(Debug, Clone, Copy, PartialEq, Eq)]
pub enum PageError {
    /// An object of arrays with other than exactly one member.
    MapNotOneField,
    /// Neither an array nor an object of arrays.
    Unhandled,
}

/// The text is a JSON array.
pub open spec fn is_json_array(text: Seq<char>) -> bool {
    spec_json_level(text) matches Some(JsonLevelView::Array(_))
}

/// The elements of the JSON array in `text`.
pub open spec fn json_array_items(text: Seq<char>) -> Seq<Seq<char>> {
    match spec_json_level(text) {
        Some(JsonLevelView::Array(items)) => items,
        _ => Seq::empty(),
    }
}

/// The records of a page: the elements of a JSON array, or those of the one array of an
/// object whose members are all arrays.
pub open spec fn spec_page_records(body: Seq<char>) -> Result<Seq<Seq<char>>, PageError> {
    match spec_json_level(body) {
        Some(JsonLevelView::Array(items)) => Ok(items),
        Some(JsonLevelView::Object(entries)) => {
            if forall|i: int| 0 <= i < entries.len() ==> is_json_array(#[trigger] entries[i].1) {
                if entries.len() == 1 {
                    Ok(json_array_items(entries[0].1))
                } else {
                    Err(PageError::MapNotOneField)
                }
            } else {
                Err(PageError::Unhandled)
            }
        },
        _ => Err(PageError::Unhandled),
    }
}

/// The records of a page as plain values.
pub open spec fn page_view(r: Result<Vec<String>, PageError>) -> Result<Seq<Seq<char>>, PageError> {
    match r {
        Ok(v) => Ok(str_views(v@)),
        Err(e) => Err(e),
    }
}

/// Reads the body of one Canvas page: a JSON array gives its elements, an object whose
/// members are all arrays gives the elements of its only member (an error when it has
/// more or fewer), anything else is refused. Each record is the compact text of one
/// element.
pub fn page_records(body: &str) -> (r: Result<Vec<String>, PageError>)
    ensures
        page_view(r) == spec_page_records(body@),
{
    match json_level(body) {
        Some(JsonLevel::Array(items)) => Ok(items),
        Some(JsonLevel::Object(entries)) => {
            let ghost ev = pair_views(entries@);
            assert(spec_json_level(body@) == Some(JsonLevelView::Object(ev)));
            let mut i: usize = 0;
            while i < entries.len()
                invariant
                    i <= entries@.len(),
                    ev == pair_views(entries@),
                    spec_json_level(body@) == Some(JsonLevelView::Object(ev)),
                    forall|j: int| 0 <= j < i ==> is_json_array(#[trigger] ev[j].1),
                decreases entries.len() - i,
            {
                let level = json_level(entries[i].1.as_str());
                assert(ev[i as int].1 == entries@[i as int].1@);
                match level {
                    Some(JsonLevel::Array(_)) => {},
                    _ => {
                        assert(!is_json_array(ev[i as int].1));
                        return Err(PageError::Unhandled);
                    },
                }
                i = i + 1;
            }
            if entries.len() != 1 {
                return Err(PageError::MapNotOneField);
            }
            assert(ev[0].1 == entries@[0].1@);
            match json_level(entries[0].1.as_str()) {
                Some(JsonLevel::Array(items)) => Ok(items),
                _ => Err(PageError::Unhandled),
            }
        },
        _ => Err(PageError::Unhandled),
    }
}

/// The parts joined, with `sep` between each two of them.
pub open spec fn spec_joined(parts: Seq<Seq<u8>>, sep: u8) -> Seq<u8>
    decreases parts.len(),
{
    if parts.len() == 0 {
        Seq::empty()
    } else if parts.len() == 1 {
        parts[0]
    } else {
        spec_joined(parts.drop_last(), sep) + seq![sep] + parts.last()
    }
}

/// The UTF-8 bytes of each text.
pub open spec fn utf8_views(texts: Seq<Seq<char>>) -> Seq<Seq<u8>> {
    texts.map_values(|t: Seq<char>| encode_utf8(t))
}

/// `out` with the bytes `b` appended.
fn append_bytes(out: &mut Vec<u8>, b: &[u8])
    ensures
        final(out)@ == old(out)@ + b@,
{
    let ghost start = out@;
    let mut i: usize = 0;
    while i < b.len()
        invariant
            i <= b@.len(),
            out@ == start + b@.take(i as int),
        decreases b.len() - i,
    {
        out.push(b[i]);
        i = i + 1;
        assert(out@ =~= start + b@.take(i as int));
    }
    assert(b@.take(b@.len() as int) =~= b@);
}

/// One page's share of the combined array: its records joined by `,`, then `]` after
/// the last page and `,` before the next one.
pub fn page_chunk(records: &Vec<String>, last: bool) -> (r: Vec<u8>)
    ensures
        r@ == spec_page_chunk(str_views(records@), last),
{
    let ghost parts = utf8_views(str_views(records@));
    let mut out: Vec<u8> = Vec::new();
    let mut i: usize = 0;
    while i < records.len()
        invariant
            i <= records@.len(),
            parts == utf8_views(str_views(records@)),
            out@ == spec_joined(parts.take(i as int), 44u8),
        decreases records.len() - i,
    {
        let ghost before = out@;
        if i > 0 {
            out.push(44u8);
        }
        let bytes = records[i].as_str().as_bytes();
        append_bytes(&mut out, bytes);
        proof {
            let next = parts.take(i + 1);
            assert(parts[i as int] == encode_utf8(records@[i as int]@));
            assert(next.last() == parts[i as int]);
            if i > 0 {
                assert(next.drop_last() =~= parts.take(i as int));
            } else {
                assert(before =~= Seq::<u8>::empty());
            }
        }
        i = i + 1;
        assert(out@ =~= spec_joined(parts.take(i as int), 44u8));
    }
    assert(parts.take(records@.len() as int) =~= parts);
    if last {
        out.push(93u8);
    } else {
        out.push(44u8);
    }
    out
}

/// What `page_chunk` gives for the records of one page.
pub open spec fn spec_page_chunk(records: Seq<Seq<char>>, last: bool) -> Seq<u8> {
    spec_joined(utf8_views(records), 44u8) + seq![if last { 93u8 } else { 44u8 }]
}

/// The chunks of the pages in turn, only the last one closing the array.
pub open spec fn spec_page_chunks(pages: Seq<Seq<Seq<char>>>) -> Seq<u8>
    decreases pages.len(),
{
    if pages.len() == 0 {
        Seq::empty()
    } else if pages.len() == 1 {
        spec_page_chunk(pages[0], true)
    } else {
        spec_page_chunk(pages[0], false) + spec_page_chunks(pages.drop_first())
    }
}

/// Joining two non-empty lists is joining each and putting a separator between them.
proof fn lemma_joined_concat(a: Seq<Seq<u8>>, b: Seq<Seq<u8>>, sep: u8)
    requires
        a.len() > 0,
        b.len() > 0,
    ensures
        spec_joined(a + b, sep) == spec_joined(a, sep) + seq![sep] + spec_joined(b, sep),
    decreases b.len(),
{
    if b.len() == 1 {
        assert((a + b).drop_last() =~= a);
        assert((a + b).last() == b[0]);
    } else {
        lemma_joined_concat(a, b.drop_last(), sep);
        assert((a + b).drop_last() =~= a + b.drop_last());
        assert((a + b).last() == b.last());
        assert(spec_joined(a + b, sep) =~= spec_joined(a, sep) + seq![sep] + spec_joined(b, sep));
    }
}

/// The pages of a proxied call make one JSON array: `[` followed by the chunks of the
/// pages in turn, the last one closing, is `[`, all their records joined by `,`, and
/// `]`, as long as no page is empty.
pub proof fn lemma_pages_form_one_array(pages: Seq<Seq<Seq<char>>>)
    requires
        pages.len() > 0,
        forall|i: int| 0 <= i < pages.len() ==> (#[trigger] pages[i]).len() > 0,
    ensures
        seq![91u8] + spec_page_chunks(pages) == seq![91u8] + spec_joined(utf8_views(pages.flatten()), 44u8) + seq![93u8],
{
    lemma_chunks_joined(pages);
}

/// The chunks of non-empty pages are their records joined, then `]`.
proof fn lemma_chunks_joined(pages: Seq<Seq<Seq<char>>>)
    requires
        pages.len() > 0,
        forall|i: int| 0 <= i < pages.len() ==> (#[trigger] pages[i]).len() > 0,
    ensures
        spec_page_chunks(pages) == spec_joined(utf8_views(pages.flatten()), 44u8) + seq![93u8],
        pages.flatten().len() > 0,
    decreases pages.len(),
{
    let rest = pages.drop_first();
    assert(pages.flatten() == pages[0] + rest.flatten());
    if pages.len() == 1 {
        assert(rest.flatten() =~= Seq::<Seq<char>>::empty());
        assert(pages.flatten() =~= pages[0]);
    } else {
        assert forall|i: int| 0 <= i < rest.len() implies (#[trigger] rest[i]).len() > 0 by {
            assert(rest[i] == pages[i + 1]);
        }
        lemma_chunks_joined(rest);
        assert(utf8_views(pages.flatten()) =~= utf8_views(pages[0]) + utf8_views(rest.flatten()));
        lemma_joined_concat(utf8_views(pages[0]), utf8_views(rest.flatten()), 44u8);
        assert(spec_page_chunks(pages) =~= spec_joined(utf8_views(pages.flatten()), 44u8) + seq![93u8]);
    }
}

/// The text of a JSON array is framed by `[` and `]`.
pub open spec fn is_framed(body: Seq<u8>) -> bool {
    body.len() >= 2 && body[0] == 91u8 && body.last() == 93u8
}

/// What lies between the brackets of each text.
pub open spec fn array_insides(bodies: Seq<Seq<u8>>) -> Seq<Seq<u8>> {
    bodies.map_values(|b: Seq<u8>| b.subrange(1, b.len() - 1))
}

/// The byte sequences of a list of buffers.
pub open spec fn byte_views(bodies: Seq<Vec<u8>>) -> Seq<Seq<u8>> {
    bodies.map_values(|b: Vec<u8>| b@)
}

/// One JSON array made of the arrays in `bodies`: `[`, the elements of each joined by
/// `,`, and `]`; `None` when a body is not framed by brackets.
pub fn join_json_arrays(bodies: &Vec<Vec<u8>>) -> (r: Option<Vec<u8>>)
    ensures
        (forall|i: int| 0 <= i < bodies@.len() ==> is_framed(#[trigger] bodies@[i]@)) ==>
            (r matches Some(out) && out@ == seq![91u8] + spec_joined(array_insides(byte_views(bodies@)), 44u8) + seq![93u8]),
        !(forall|i: int| 0 <= i < bodies@.len() ==> is_framed(#[trigger] bodies@[i]@)) ==> r is None,
{
    let ghost parts = array_insides(byte_views(bodies@));
    let mut joined: Vec<u8> = Vec::new();
    let mut i: usize = 0;
    while i < bodies.len()
        invariant
            i <= bodies@.len(),
            parts == array_insides(byte_views(bodies@)),
            forall|j: int| 0 <= j < i ==> is_framed(#[trigger] bodies@[j]@),
            joined@ == spec_joined(parts.take(i as int), 44u8),
        decreases bodies.len() - i,
    {
        let ghost before = joined@;
        let inner = match strip_array_brackets(bodies[i].as_slice()) {
            Some(inner) => inner,
            None => {
                assert(!is_framed(bodies@[i as int]@));
                return None;
            },
        };
        if i > 0 {
            joined.push(44u8);
        }
        append_bytes(&mut joined, inner.as_slice());
        proof {
            let next = parts.take(i + 1);
            assert(parts[i as int] == inner@);
            assert(next.last() == parts[i as int]);
            if i > 0 {
                assert(next.drop_last() =~= parts.take(i as int));
            } else {
                assert(before =~= Seq::<u8>::empty());
            }
        }
        i = i + 1;
        assert(joined@ =~= spec_joined(parts.take(i as int), 44u8));
    }
    assert(parts.take(bodies@.len() as int) =~= parts);
    let mut out: Vec<u8> = vec![91u8];
    append_bytes(&mut out, joined.as_slice());
    out.push(93u8);
    assert(out@ =~= seq![91u8] + spec_joined(parts, 44u8) + seq![93u8]);
    Some(out)
}

/// Why the `UNROLL` parameter of a proxied request could not be read.
#[derive(Debug, Clone, Copy, PartialEq, Eq)]
pub enum UnrollError {
    /// The parameter is no JSON.
    NotJson,
    /// The parameter is not a JSON object.
    NotAnObject,
    /// The object has other than exactly one member.
    NotOneKey,
    /// The member's value is not an array.
    NotAnArray,
    /// An element of the array is not an object.
    ItemNotAnObject,
    /// An element of the array has other than exactly one member.
    ItemNotOneKey,
    /// The value of an element's member is not a string.
    ItemValueNotAString,
}

/// The key and value of one element of the unrolled array: an object with one member
/// whose value is a string.
pub open spec fn spec_unroll_item(item: Seq<char>) -> Result<(Seq<char>, Seq<char>), UnrollError> {
    match spec_json_level(item) {
        Some(JsonLevelView::Object(kv)) => {
            if kv.len() != 1 {
                Err(UnrollError::ItemNotOneKey)
            } else {
                match spec_json_level(kv[0].1) {
                    Some(JsonLevelView::Str(v)) => Ok((kv[0].0, v)),
                    _ => Err(UnrollError::ItemValueNotAString),
                }
            }
        },
        _ => Err(UnrollError::ItemNotAnObject),
    }
}

/// The keys and values of all elements, or the error of the first element that has none.
pub open spec fn spec_unroll_items(items: Seq<Seq<char>>) -> Result<Seq<(Seq<char>, Seq<char>)>, UnrollError>
    decreases items.len(),
{
    if items.len() == 0 {
        Ok(Seq::empty())
    } else {
        match spec_unroll_items(items.drop_last()) {
            Err(e) => Err(e),
            Ok(ps) => match spec_unroll_item(items.last()) {
                Ok(p) => Ok(ps.push(p)),
                Err(e) => Err(e),
            },
        }
    }
}

/// The `UNROLL` parameter read: an object with one member, the path key, whose value is
/// an array of one-member objects, each giving a key and a string value.
pub open spec fn spec_unroll_request(unroll: Seq<char>) -> Result<(Seq<char>, Seq<(Seq<char>, Seq<char>)>), UnrollError> {
    match spec_json_level(unroll) {
        None => Err(UnrollError::NotJson),
        Some(JsonLevelView::Object(entries)) => {
            if entries.len() != 1 {
                Err(UnrollError::NotOneKey)
            } else {
                match spec_json_level(entries[0].1) {
                    Some(JsonLevelView::Array(items)) => match spec_unroll_items(items) {
                        Ok(ps) => Ok((entries[0].0, ps)),
                        Err(e) => Err(e),
                    },
                    _ => Err(UnrollError::NotAnArray),
                }
            }
        },
        Some(_) => Err(UnrollError::NotAnObject),
    }
}

/// An unroll request as plain values.
pub open spec fn unroll_view(r: Result<(String, Vec<(String, String)>), UnrollError>) -> Result<(Seq<char>, Seq<(Seq<char>, Seq<char>)>), UnrollError> {
    match r {
        Ok((k, ps)) => Ok((k@, pair_views(ps@))),
        Err(e) => Err(e),
    }
}

/// Once an element of the array has failed, every longer prefix fails the same way.
proof fn lemma_unroll_error_kept(items: Seq<Seq<char>>, k: int, m: int)
    requires
        0 <= k <= m <= items.len(),
        spec_unroll_items(items.take(k)) is Err,
    ensures
        spec_unroll_items(items.take(m)) == spec_unroll_items(items.take(k)),
    decreases m - k,
{
    if m > k {
        lemma_unroll_error_kept(items, k, m - 1);
        assert(items.take(m).drop_last() =~= items.take(m - 1));
    }
}

/// The key and value of one element of the unrolled array.
fn unroll_item(item: &str) -> (r: Result<(String, String), UnrollError>)
    ensures
        match r {
            Ok((k, v)) => spec_unroll_item(item@) == Ok::<(Seq<char>, Seq<char>), UnrollError>((k@, v@)),
            Err(e) => spec_unroll_item(item@) == Err::<(Seq<char>, Seq<char>), UnrollError>(e),
        },
{
    match json_level(item) {
        Some(JsonLevel::Object(kv)) => {
            if kv.len() != 1 {
                return Err(UnrollError::ItemNotOneKey);
            }
            assert(pair_views(kv@)[0] == (kv@[0].0@, kv@[0].1@));
            match json_level(kv[0].1.as_str()) {
                Some(JsonLevel::Str(v)) => Ok((kv[0].0.clone(), v)),
                _ => Err(UnrollError::ItemValueNotAString),
            }
        },
        _ => Err(UnrollError::ItemNotAnObject),
    }
}

/// Reads the `UNROLL` parameter of a proxied request: a JSON object with one member,
/// whose key names the unrolled path segment and whose value is an array of one-member
/// objects, each giving a key and a string value. Each shape that does not fit has its
/// own error; for the elements, the first one that does not fit decides.
pub fn unroll_request(unroll: &str) -> (r: Result<(String, Vec<(String, String)>), UnrollError>)
    ensures
        unroll_view(r) == spec_unroll_request(unroll@),
{
    let entries = match json_level(unroll) {
        None => return Err(UnrollError::NotJson),
        Some(JsonLevel::Object(entries)) => entries,
        Some(_) => return Err(UnrollError::NotAnObject),
    };
    if entries.len() != 1 {
        return Err(UnrollError::NotOneKey);
    }
    assert(pair_views(entries@)[0] == (entries@[0].0@, entries@[0].1@));
    let items = match json_level(entries[0].1.as_str()) {
        Some(JsonLevel::Array(items)) => items,
        _ => return Err(UnrollError::NotAnArray),
    };
    let ghost iv = str_views(items@);
    let mut pairs: Vec<(String, String)> = Vec::new();
    let mut i: usize = 0;
    assert(iv.take(0) =~= Seq::<Seq<char>>::empty());
    assert(pair_views(pairs@) =~= Seq::<(Seq<char>, Seq<char>)>::empty());
    while i < items.len()
        invariant
            i <= items@.len(),
            iv == str_views(items@),
            entries@.len() == 1,
            spec_json_level(unroll@) == Some(JsonLevelView::Object(pair_views(entries@))),
            pair_views(entries@)[0] == (entries@[0].0@, entries@[0].1@),
            spec_json_level(entries@[0].1@) == Some(JsonLevelView::Array(iv)),
            spec_unroll_items(iv.take(i as int)) == Ok::<Seq<(Seq<char>, Seq<char>)>, UnrollError>(pair_views(pairs@)),
        decreases items.len() - i,
    {
        let got = unroll_item(items[i].as_str());
        assert(iv.take(i + 1).drop_last() =~= iv.take(i as int));
        assert(iv.take(i + 1).last() == items@[i as int]@);
        match got {
            Ok(p) => {
                let ghost before = pairs@;
                let ghost pv = (p.0@, p.1@);
                pairs.push(p);
                assert(pair_views(pairs@) =~= pair_views(before).push(pv));
            },
            Err(e) => {
                proof {
                    lemma_unroll_error_kept(iv, i + 1, iv.len() as int);
                    assert(iv.take(iv.len() as int) =~= iv);
                }
                return Err(e);
            },
        }
        i = i + 1;
    }
    assert(iv.take(items@.len() as int) =~= iv);
    Ok((entries[0].0.clone(), pairs))
}

/// The Canvas instance that the proxy forwards to.
pub open spec fn canvas_instance() -> Seq<char> {
    "https://cloviscc.instructure.com/"@
}

/// The URL of the first page of a proxied request: the Canvas instance followed by
/// `canvas_path`, with `params` appended to the query in the given order.
pub fn canvas_start_url(canvas_path: &str, params: &Vec<(String, String)>) -> (r: Result<String, CanvasError>)
    requires
        url_text_fits(canvas_instance() + canvas_path@, pair_views(params@)),
    ensures
        r is Ok <==> spec_url_with_query(canvas_instance() + canvas_path@, pair_views(params@)) is Some,
        r matches Ok(s) ==> s@ == spec_url_with_query(canvas_instance() + canvas_path@, pair_views(params@)).unwrap(),
        r is Err ==> r matches Err(CanvasError::InvalidUrl(_)),
{
    proof {
        reveal_strlit("https://cloviscc.instructure.com/");
    }
    let full = concat_str("https://cloviscc.instructure.com/", canvas_path);
    match url_with_query(full.as_str(), params) {
        Ok(u) => Ok(u),
        Err(e) => Err(CanvasError::InvalidUrl(e)),
    }
}

} // verus!
