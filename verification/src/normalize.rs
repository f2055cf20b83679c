//! Normalization of the external tool's JSON read output: parsing
//! the array-of-objects text into raw records, then reconciling the
//! synonymous tag names of the XMP, IPTC, EXIF, PNG, Dublin-Core and
//! merged-metadata namespaces into one canonical record. Candidate
//! keys are probed in priority order and the first present match
//! wins; a present value of the wrong shape yields absence, never an
//! error.

use serde_json::Value;
use vstd::prelude::*;
use vstd::string::*;

use crate::models::ExifData;
use crate::models::RawItem;
use crate::models::RawRecord;
use crate::models::RawValue;
use crate::models::SpawnOutcome;
use crate::text::join_keywords;
use crate::text::join_sep;
use crate::text::str_eq;

verus! {

/// What parsing the tool's JSON output text yields: the records of
/// the output array in order, reduced to their key-value entries
/// (text not in an array-of-objects shape yields no records), or the
/// parse error's rendering when the text is not valid JSON. The
/// result depends on the text alone.
pub uninterp spec fn tool_parse_of(s: Seq<char>) -> Result<Vec<RawRecord>, String>;

/// Relies on serde_json::from_str and the variants of
/// serde_json::Value: parses the tool's JSON output into one raw
/// record per array element, keeping each object's entries in order
/// and classifying each value as text, a list, or other.
#[verifier::external_body]
fn parse_tool_output(s: &str) -> (r: Result<Vec<RawRecord>, String>)
    ensures
        r == tool_parse_of(s@),
{
    let v: Value = serde_json::from_str(s).map_err(|e| e.to_string())?;
    let items = if let Value::Array(a) = v { a } else { Vec::new() };
    Ok(items.into_iter().map(|item| RawRecord {
        entries: if let Value::Object(m) = item {
            m.into_iter().map(|(key, w)| (key, match w {
                Value::String(t) => RawValue::Text(t),
                Value::Array(a) => RawValue::List(a.into_iter().map(|x|
                    if let Value::String(t) = x { RawItem::Text(t) } else { RawItem::Other }).collect()),
                _ => RawValue::Other,
            })).collect()
        } else { Vec::new() },
    }).collect())
}

/// The value of the first entry whose key matches, if any.
pub open spec fn spec_lookup(entries: Seq<(String, RawValue)>, key: Seq<char>) -> Option<RawValue>
    decreases entries.len(),
{
    if entries.len() == 0 {
        None
    } else if entries[0].0@ == key {
        Some(entries[0].1)
    } else {
        spec_lookup(entries.drop_first(), key)
    }
}

/// Looks a key up in a record's entries, first match wins.
fn lookup_value<'a>(rec: &'a RawRecord, key: &str) -> (r: Option<&'a RawValue>)
    ensures
        match r {
            Some(v) => spec_lookup(rec.entries@, key@) == Some(*v),
            None => spec_lookup(rec.entries@, key@) is None,
        },
{
    let n = rec.entries.len();
    let mut i: usize = 0;
    proof {
        assert(rec.entries@.skip(0) =~= rec.entries@);
    }
    while i < n
        invariant
            0 <= i <= n,
            n == rec.entries.len(),
            spec_lookup(rec.entries@, key@) == spec_lookup(rec.entries@.skip(i as int), key@),
        decreases n - i,
    {
        if str_eq(rec.entries[i].0.as_str(), key) {
            proof {
                assert(rec.entries@.skip(i as int)[0] == rec.entries@[i as int]);
            }
            return Some(&rec.entries[i].1);
        }
        proof {
            assert(rec.entries@.skip(i as int)[0] == rec.entries@[i as int]);
            assert(rec.entries@.skip(i as int).drop_first() =~= rec.entries@.skip(i as int + 1));
        }
        i += 1;
    }
    proof {
        assert(rec.entries@.skip(n as int) =~= Seq::<(String, RawValue)>::empty());
    }
    None
}

/// The value of the first present candidate key, probed in order.
pub open spec fn spec_probe(entries: Seq<(String, RawValue)>, keys: Seq<Seq<char>>) -> Option<
    RawValue,
>
    decreases keys.len(),
{
    if keys.len() == 0 {
        None
    } else {
        match spec_lookup(entries, keys[0]) {
            Some(v) => Some(v),
            None => spec_probe(entries, keys.drop_first()),
        }
    }
}

/// Probes candidate keys in priority order and takes the first
/// present match.
fn probe_value<'a>(rec: &'a RawRecord, keys: &Vec<&str>) -> (r: Option<&'a RawValue>)
    ensures
        match r {
            Some(v) => spec_probe(rec.entries@, keys.deep_view()) == Some(*v),
            None => spec_probe(rec.entries@, keys.deep_view()) is None,
        },
{
    let n = keys.len();
    let mut j: usize = 0;
    proof {
        assert(keys.deep_view().skip(0) =~= keys.deep_view());
    }
    while j < n
        invariant
            0 <= j <= n,
            n == keys.len(),
            keys.deep_view().len() == n,
            spec_probe(rec.entries@, keys.deep_view()) == spec_probe(
                rec.entries@,
                keys.deep_view().skip(j as int),
            ),
        decreases n - j,
    {
        proof {
            assert(keys.deep_view().skip(j as int)[0] == keys.deep_view()[j as int]);
            assert(keys.deep_view()[j as int] == keys[j as int]@);
        }
        if let Some(v) = lookup_value(rec, keys[j]) {
            return Some(v);
        }
        proof {
            assert(keys.deep_view().skip(j as int).drop_first() =~= keys.deep_view().skip(
                j as int + 1,
            ));
        }
        j += 1;
    }
    proof {
        assert(keys.deep_view().skip(n as int) =~= Seq::<Seq<char>>::empty());
    }
    None
}

/// The candidate keys for the canonical title, in priority order.
pub open spec fn title_keys() -> Seq<Seq<char>> {
    seq![
        "XMP:Title"@,
        "Title"@,
        "IPTC:ObjectName"@,
        "ObjectName"@,
        "EXIF:ImageDescription"@,
        "ImageDescription"@,
        "PNG:Title"@,
        "MWG:Title"@,
    ]
}

/// The candidate keys for the canonical description, in priority
/// order.
pub open spec fn description_keys() -> Seq<Seq<char>> {
    seq![
        "XMP:Description"@,
        "Description"@,
        "IPTC:Caption-Abstract"@,
        "Caption-Abstract"@,
        "CaptionAbstract"@,
        "EXIF:ImageDescription"@,
        "ImageDescription"@,
        "PNG:Description"@,
        "MWG:Description"@,
    ]
}

/// The candidate keys for the canonical keywords, in priority order.
pub open spec fn keyword_keys() -> Seq<Seq<char>> {
    seq![
        "XMP:Subject"@,
        "Subject"@,
        "IPTC:Keywords"@,
        "Keywords"@,
        "XMP-dc:Subject"@,
        "dc:Subject"@,
    ]
}

/// The title candidate keys as strings.
fn title_key_list() -> (r: Vec<&'static str>)
    ensures
        r.deep_view() == title_keys(),
{
    let mut r: Vec<&'static str> = Vec::new();
    r.push("XMP:Title");
    r.push("Title");
    r.push("IPTC:ObjectName");
    r.push("ObjectName");
    r.push("EXIF:ImageDescription");
    r.push("ImageDescription");
    r.push("PNG:Title");
    r.push("MWG:Title");
    proof {
        assert(r.deep_view() =~= title_keys());
    }
    r
}

/// The description candidate keys as strings.
fn description_key_list() -> (r: Vec<&'static str>)
    ensures
        r.deep_view() == description_keys(),
{
    let mut r: Vec<&'static str> = Vec::new();
    r.push("XMP:Description");
    r.push("Description");
    r.push("IPTC:Caption-Abstract");
    r.push("Caption-Abstract");
    r.push("CaptionAbstract");
    r.push("EXIF:ImageDescription");
    r.push("ImageDescription");
    r.push("PNG:Description");
    r.push("MWG:Description");
    proof {
        assert(r.deep_view() =~= description_keys());
    }
    r
}

/// The keyword candidate keys as strings.
fn keyword_key_list() -> (r: Vec<&'static str>)
    ensures
        r.deep_view() == keyword_keys(),
{
    let mut r: Vec<&'static str> = Vec::new();
    r.push("XMP:Subject");
    r.push("Subject");
    r.push("IPTC:Keywords");
    r.push("Keywords");
    r.push("XMP-dc:Subject");
    r.push("dc:Subject");
    proof {
        assert(r.deep_view() =~= keyword_keys());
    }
    r
}

/// The text a probed value yields for title or description: a text
/// value verbatim, anything else is absence.
pub open spec fn spec_text_of(v: Option<RawValue>) -> Option<Seq<char>> {
    match v {
        Some(RawValue::Text(s)) => Some(s@),
        _ => None,
    }
}

/// The text entries of a raw list, in order, the others dropped.
pub open spec fn texts_of(items: Seq<RawItem>) -> Seq<Seq<char>>
    decreases items.len(),
{
    if items.len() == 0 {
        Seq::<Seq<char>>::empty()
    } else {
        (match items[0] {
            RawItem::Text(s) => seq![s@],
            RawItem::Other => Seq::<Seq<char>>::empty(),
        }) + texts_of(items.drop_first())
    }
}

/// The text a probed value yields for keywords: a text value
/// verbatim; a list's text entries joined with ", " when there is at
/// least one; anything else is absence.
pub open spec fn spec_keyword_text_of(v: Option<RawValue>) -> Option<Seq<char>> {
    match v {
        Some(RawValue::Text(s)) => Some(s@),
        Some(RawValue::List(items)) => {
            let ts = texts_of(items@);
            if ts.len() > 0 {
                Some(join_sep(ts, ", "@))
            } else {
                None
            }
        },
        _ => None,
    }
}

/// The canonical title of a record's entries.
pub open spec fn spec_title(entries: Seq<(String, RawValue)>) -> Option<Seq<char>> {
    spec_text_of(spec_probe(entries, title_keys()))
}

/// The canonical description of a record's entries.
pub open spec fn spec_description(entries: Seq<(String, RawValue)>) -> Option<Seq<char>> {
    spec_text_of(spec_probe(entries, description_keys()))
}

/// The canonical keywords of a record's entries.
pub open spec fn spec_keywords(entries: Seq<(String, RawValue)>) -> Option<Seq<char>> {
    spec_keyword_text_of(spec_probe(entries, keyword_keys()))
}

/// Extracts the canonical title from a raw record.
pub fn extract_title(rec: &RawRecord) -> (r: Option<String>)
    ensures
        r.deep_view() == spec_title(rec.entries@),
{
    let keys = title_key_list();
    match probe_value(rec, &keys) {
        Some(RawValue::Text(s)) => Some(s.clone()),
        _ => None,
    }
}

/// Extracts the canonical description from a raw record.
pub fn extract_description(rec: &RawRecord) -> (r: Option<String>)
    ensures
        r.deep_view() == spec_description(rec.entries@),
{
    let keys = description_key_list();
    match probe_value(rec, &keys) {
        Some(RawValue::Text(s)) => Some(s.clone()),
        _ => None,
    }
}

/// Splitting a list of raw items at any point splits its texts.
proof fn lemma_texts_of_concat(a: Seq<RawItem>, b: Seq<RawItem>)
    ensures
        texts_of(a + b) == texts_of(a) + texts_of(b),
    decreases a.len(),
{
    if a.len() == 0 {
        assert(a + b =~= b);
        assert(texts_of(a) + texts_of(b) =~= texts_of(b));
    } else {
        lemma_texts_of_concat(a.drop_first(), b);
        assert((a + b).drop_first() =~= a.drop_first() + b);
        assert((a + b)[0] == a[0]);
        assert((match a[0] {
            RawItem::Text(s) => seq![s@],
            RawItem::Other => Seq::<Seq<char>>::empty(),
        }) + (texts_of(a.drop_first()) + texts_of(b)) =~= ((match a[0] {
            RawItem::Text(s) => seq![s@],
            RawItem::Other => Seq::<Seq<char>>::empty(),
        }) + texts_of(a.drop_first())) + texts_of(b));
    }
}

/// Collects the text entries of a raw list, in order.
fn collect_texts(items: &Vec<RawItem>) -> (r: Vec<String>)
    ensures
        r.deep_view() == texts_of(items@),
{
    let n = items.len();
    let mut r: Vec<String> = Vec::new();
    proof {
        assert(r.deep_view() =~= Seq::<Seq<char>>::empty());
        assert(items@.take(0) =~= Seq::<RawItem>::empty());
    }
    let mut i: usize = 0;
    while i < n
        invariant
            0 <= i <= n,
            n == items.len(),
            r.deep_view() == texts_of(items@.take(i as int)),
        decreases n - i,
    {
        proof {
            assert(items@.take(i as int + 1) =~= items@.take(i as int) + seq![items@[i as int]]);
            lemma_texts_of_concat(items@.take(i as int), seq![items@[i as int]]);
            assert(seq![items@[i as int]].drop_first() =~= Seq::<RawItem>::empty());
            assert(seq![items@[i as int]][0] == items@[i as int]);
            assert(texts_of(Seq::<RawItem>::empty()) =~= Seq::<Seq<char>>::empty());
            assert(texts_of(seq![items@[i as int]].drop_first()) == texts_of(
                Seq::<RawItem>::empty(),
            ));
            assert(texts_of(seq![items@[i as int]]) =~= (match items@[i as int] {
                RawItem::Text(s) => seq![s@],
                RawItem::Other => Seq::<Seq<char>>::empty(),
            }));
        }
        match &items[i] {
            RawItem::Text(s) => {
                let ghost r0 = r.deep_view();
                r.push(s.clone());
                proof {
                    assert(r.deep_view() =~= r0 + seq![s@]);
                    assert(r.deep_view() =~= texts_of(items@.take(i as int + 1)));
                }
            },
            RawItem::Other => {
                proof {
                    assert(texts_of(items@.take(i as int)) + Seq::<Seq<char>>::empty()
                        =~= texts_of(items@.take(i as int)));
                }
            },
        }
        i += 1;
    }
    proof {
        assert(items@.take(n as int) =~= items@);
    }
    r
}

/// Extracts the canonical keywords from a raw record, joining a
/// multi-valued subject list with ", ".
pub fn extract_keywords(rec: &RawRecord) -> (r: Option<String>)
    ensures
        r.deep_view() == spec_keywords(rec.entries@),
{
    let keys = keyword_key_list();
    match probe_value(rec, &keys) {
        Some(RawValue::Text(s)) => Some(s.clone()),
        Some(RawValue::List(items)) => {
            let ts = collect_texts(items);
            if ts.len() > 0 {
                Some(join_keywords(&ts))
            } else {
                None
            }
        },
        _ => None,
    }
}

/// The canonical title the read output's records yield: the first
/// record's, or absence when there is none.
pub open spec fn spec_read_title(recs: Seq<RawRecord>) -> Option<Seq<char>> {
    if recs.len() == 0 {
        None
    } else {
        spec_title(recs[0].entries@)
    }
}

/// The canonical description the read output's records yield.
pub open spec fn spec_read_description(recs: Seq<RawRecord>) -> Option<Seq<char>> {
    if recs.len() == 0 {
        None
    } else {
        spec_description(recs[0].entries@)
    }
}

/// The canonical keywords the read output's records yield.
pub open spec fn spec_read_keywords(recs: Seq<RawRecord>) -> Option<Seq<char>> {
    if recs.len() == 0 {
        None
    } else {
        spec_keywords(recs[0].entries@)
    }
}

/// Builds the canonical record from the parsed read output: the
/// first record's reconciled fields, or an all-absent record when
/// the output held no record.
pub fn normalize_record(file_path: &str, records: &Vec<RawRecord>) -> (r: ExifData)
    ensures
        r.file_path@ == file_path@,
        r.title.deep_view() == spec_read_title(records@),
        r.description.deep_view() == spec_read_description(records@),
        r.keywords.deep_view() == spec_read_keywords(records@),
{
    if records.len() == 0 {
        ExifData {
            file_path: String::from_str(file_path),
            title: None,
            description: None,
            keywords: None,
        }
    } else {
        let rec = &records[0];
        ExifData {
            file_path: String::from_str(file_path),
            title: extract_title(rec),
            description: extract_description(rec),
            keywords: extract_keywords(rec),
        }
    }
}

/// Interprets what the caller observed of the read-path tool run: on
/// a zero exit, the standard output is parsed as JSON and normalized
/// into the canonical record; a non-zero exit, a missing executable,
/// a failed spawn and unparsable output each yield a descriptive
/// error.
pub fn read_exif_metadata(file_path: &str, exiftool_path: &str, outcome: &SpawnOutcome) -> (r:
    Result<ExifData, String>)
    ensures
        outcome matches SpawnOutcome::Completed { exit_ok: true, stdout, .. } ==> match tool_parse_of(
            stdout@,
        ) {
            Ok(recs) => (r matches Ok(d) && d.file_path@ == file_path@ && d.title.deep_view()
                == spec_read_title(recs@) && d.description.deep_view() == spec_read_description(
                recs@,
            ) && d.keywords.deep_view() == spec_read_keywords(recs@)),
            Err(e) => (r matches Err(m) && m@ == "Failed to parse ExifTool output: "@ + e@),
        },
        outcome matches SpawnOutcome::Completed { exit_ok: false, stderr, .. } ==> (r matches Err(m)
            && m@ == "ExifTool failed: "@ + stderr@),
        outcome matches SpawnOutcome::NotFound { .. } ==> (r matches Err(m) && m@
            == "ExifTool not found. Tried path: \""@ + exiftool_path@ + "\""@),
        outcome matches SpawnOutcome::Failed { error_text } ==> (r matches Err(m) && m@
            == "Failed to execute ExifTool: "@ + error_text@),
{
    match outcome {
        SpawnOutcome::Completed { exit_ok, exit_code: _, stdout, stderr } => {
            if *exit_ok {
                match parse_tool_output(stdout.as_str()) {
                    Ok(records) => Ok(normalize_record(file_path, &records)),
                    Err(e) => {
                        let mut m = String::from_str("Failed to parse ExifTool output: ");
                        m.append(e.as_str());
                        Err(m)
                    },
                }
            } else {
                let mut m = String::from_str("ExifTool failed: ");
                m.append(stderr.as_str());
                Err(m)
            }
        },
        SpawnOutcome::NotFound { error_text: _ } => {
            let mut m = String::from_str("ExifTool not found. Tried path: \"");
            m.append(exiftool_path);
            m.append("\"");
            proof {
                assert(m@ =~= "ExifTool not found. Tried path: \""@ + exiftool_path@ + "\""@);
            }
            Err(m)
        },
        SpawnOutcome::Failed { error_text } => {
            let mut m = String::from_str("Failed to execute ExifTool: ");
            m.append(error_text.as_str());
            Err(m)
        },
    }
}

} // verus!
