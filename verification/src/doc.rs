use vstd::prelude::*;

pub mod json;
pub mod yaml;

use crate::error::Error;
use crate::util::{i64_to_string, str_eq};

verus! {

/// A parsed configuration document: the plain shape shared by the YAML and
/// JSON front ends. The engine's own parsers work on this tree alone.
#[derive(Debug)]
pub enum DocValue {
    Null,
    Bool(bool),
    Int(i64),
    Str(String),
    List(Vec<DocValue>),
    Object(Vec<DocEntry>),
}

/// One key/value pair of an object document.
#[derive(Debug)]
pub struct DocEntry {
    pub key: String,
    pub value: DocValue,
}

/// The value under the first entry carrying `key`, where one exists.
pub open spec fn spec_object_lookup(entries: Seq<DocEntry>, key: Seq<char>) -> Option<DocValue>
    decreases entries.len(),
{
    if entries.len() == 0 {
        None
    } else if entries[0].key@ == key {
        Some(entries[0].value)
    } else {
        spec_object_lookup(entries.skip(1), key)
    }
}

impl DocValue {
    /// The value under `key` in an object document, where present: the
    /// first entry carrying the key. Anything but an object holds nothing.
    pub fn get<'a>(&'a self, key: &str) -> (r: Option<&'a DocValue>)
        ensures
            match self {
                DocValue::Object(entries) => {
                    &&& (spec_object_lookup(entries@, key@) is Some ==> (r matches Some(v) && Some(
                        *v,
                    ) == spec_object_lookup(entries@, key@)))
                    &&& (spec_object_lookup(entries@, key@) is None ==> r is None)
                },
                _ => r is None,
            },
    {
        match self {
            DocValue::Object(entries) => {
                let n = entries.len();
                let mut i: usize = 0;
                proof {
                    assert(entries@.skip(0) =~= entries@);
                }
                while i < n
                    invariant
                        0 <= i <= n,
                        n == entries@.len(),
                        *self == DocValue::Object(*entries),
                        spec_object_lookup(entries@, key@) == spec_object_lookup(
                            entries@.skip(i as int),
                            key@,
                        ),
                    decreases n - i,
                {
                    proof {
                        assert(entries@.skip(i as int)[0] == entries@[i as int]);
                        assert(entries@.skip(i as int).skip(1) =~= entries@.skip(i as int + 1));
                    }
                    let entry = &entries[i];
                    if string_equals_str(&entry.key, key) {
                        proof {
                            assert(*entry == entries@[i as int]);
                            assert(spec_object_lookup(entries@.skip(i as int), key@) == Some(
                                entries@[i as int].value,
                            ));
                            assert(entry.value == entries@[i as int].value);
                        }
                        return Some(&entry.value);
                    }
                    i = i + 1;
                }
                proof {
                    assert(entries@.skip(n as int) =~= Seq::<DocEntry>::empty());
                }
                None
            },
            _ => None,
        }
    }

    pub fn as_str(&self) -> (r: Option<&str>)
        ensures
            match self {
                DocValue::Str(s) => r matches Some(v) && v@ == s@,
                _ => r is None,
            },
    {
        match self {
            DocValue::Str(s) => Some(s.as_str()),
            _ => None,
        }
    }

    pub fn as_bool(&self) -> (r: Option<bool>)
        ensures
            match self {
                DocValue::Bool(b) => r == Some(*b),
                _ => r is None,
            },
    {
        match self {
            DocValue::Bool(b) => Some(*b),
            _ => None,
        }
    }

    pub fn as_int(&self) -> (r: Option<i64>)
        ensures
            match self {
                DocValue::Int(n) => r == Some(*n),
                _ => r is None,
            },
    {
        match self {
            DocValue::Int(n) => Some(*n),
            _ => None,
        }
    }

    pub fn is_null(&self) -> (r: bool)
        ensures
            r == (self matches DocValue::Null),
    {
        matches!(self, DocValue::Null)
    }
}

/// Whether `key` is one of the allowed key names.
pub open spec fn spec_key_allowed(allowed: Seq<&str>, key: Seq<char>) -> bool
    decreases allowed.len(),
{
    if allowed.len() == 0 {
        false
    } else {
        allowed[0]@ == key || spec_key_allowed(allowed.skip(1), key)
    }
}

/// Whether `key` equals one of the allowed key names.
pub fn key_allowed(allowed: &Vec<&str>, key: &String) -> (r: bool)
    ensures
        r == spec_key_allowed(allowed@, key@),
{
    let m = allowed.len();
    let mut j: usize = 0;
    proof {
        assert(allowed@.skip(0) =~= allowed@);
    }
    while j < m
        invariant
            0 <= j <= m,
            m == allowed@.len(),
            spec_key_allowed(allowed@, key@) == spec_key_allowed(allowed@.skip(j as int), key@),
        decreases m - j,
    {
        proof {
            assert(allowed@.skip(j as int)[0] == allowed@[j as int]);
            assert(allowed@.skip(j as int).skip(1) =~= allowed@.skip(j as int + 1));
        }
        if string_equals_str(key, allowed[j]) {
            return true;
        }
        j = j + 1;
    }
    proof {
        assert(allowed@.skip(m as int) =~= Seq::<&str>::empty());
    }
    false
}

/// Whether an object document holds only keys from the allowed list:
/// package documents reject unknown fields.
pub fn map_keys_subset(entries: &Vec<DocEntry>, allowed: &Vec<&str>) -> (r: bool)
    ensures
        r == (forall|i: int|
            0 <= i < entries@.len() ==> spec_key_allowed(allowed@, (#[trigger] entries@[i]).key@)),
{
    let n = entries.len();
    let mut i: usize = 0;
    while i < n
        invariant
            0 <= i <= n,
            n == entries@.len(),
            forall|k: int|
                0 <= k < i ==> spec_key_allowed(allowed@, (#[trigger] entries@[k]).key@),
        decreases n - i,
    {
        if !key_allowed(allowed, &entries[i].key) {
            return false;
        }
        i = i + 1;
    }
    true
}

/// String comparison against a literal, by view.
pub fn string_equals_str(s: &String, t: &str) -> (r: bool)
    ensures
        r == (s@ == t@),
{
    str_eq(s.as_str(), t)
}

/// Renders a document as JSON text. The engine uses this to put work units
/// on the wire; the JSON front end reads them back. The scalar renderings
/// are stated; the composite ones are pinned by the document parsers and
/// the round-trip tests.
pub fn doc_to_json(doc: &DocValue) -> (r: String)
    ensures
        *doc matches DocValue::Null ==> r@ == "null"@,
        *doc matches DocValue::Bool(b) ==> r@ == (if b {
            "true"@
        } else {
            "false"@
        }),
        *doc matches DocValue::Int(n) ==> r@ == crate::util::spec_dec_int(n as int),
    decreases *doc,
{
    match doc {
        DocValue::Null => String::from_str("null"),
        DocValue::Bool(b) => {
            if *b {
                String::from_str("true")
            } else {
                String::from_str("false")
            }
        },
        DocValue::Int(n) => i64_to_string(*n),
        DocValue::Str(s) => {
            let mut out = String::new();
            append_json_string(&mut out, s.as_str());
            out
        },
        DocValue::List(items) => {
            let mut out = String::from_str("[");
            let n = items.len();
            let mut i: usize = 0;
            while i < n
                invariant
                    0 <= i <= n,
                    n == items@.len(),
                    *doc == DocValue::List(*items),
                decreases n - i,
            {
                if i > 0 {
                    out.append(",");
                }
                proof {
                    assert(decreases_to!(*doc => doc->List_0));
                    assert(decreases_to!(doc->List_0 => doc->List_0@));
                    assert(decreases_to!(doc->List_0@ => doc->List_0@[i as int]));
                    assert(items@[i as int] == doc->List_0@[i as int]);
                }
                let rendered = doc_to_json(&items[i]);
                out.append(rendered.as_str());
                i = i + 1;
            }
            out.append("]");
            out
        },
        DocValue::Object(entries) => {
            let mut out = String::from_str("{");
            let n = entries.len();
            let mut i: usize = 0;
            while i < n
                invariant
                    0 <= i <= n,
                    n == entries@.len(),
                    *doc == DocValue::Object(*entries),
                decreases n - i,
            {
                if i > 0 {
                    out.append(",");
                }
                append_json_string(&mut out, entries[i].key.as_str());
                out.append(":");
                proof {
                    assert(decreases_to!(*doc => doc->Object_0));
                    assert(decreases_to!(doc->Object_0 => doc->Object_0@));
                    assert(decreases_to!(doc->Object_0@ => doc->Object_0@[i as int]));
                    assert(decreases_to!(entries@[i as int] => entries@[i as int].value));
                    assert(entries@[i as int] == doc->Object_0@[i as int]);
                }
                let rendered = doc_to_json(&entries[i].value);
                out.append(rendered.as_str());
                i = i + 1;
            }
            out.append("}");
            out
        },
    }
}

/// Appends `s` as a JSON string literal, escaping quotes, backslashes and
/// the common control characters.
fn append_json_string(out: &mut String, s: &str) {
    out.append("\"");
    let n = s.unicode_len();
    let mut start: usize = 0;
    let mut i: usize = 0;
    while i < n
        invariant
            0 <= start <= i <= n,
            n == s@.len(),
        decreases n - i,
    {
        let c = s.get_char(i);
        if c == '"' || c == '\\' || c == '\n' || c == '\r' || c == '\t' {
            out.append(s.substring_char(start, i));
            if c == '"' {
                out.append("\\\"");
            } else if c == '\\' {
                out.append("\\\\");
            } else if c == '\n' {
                out.append("\\n");
            } else if c == '\r' {
                out.append("\\r");
            } else {
                out.append("\\t");
            }
            start = i + 1;
        }
        i = i + 1;
    }
    out.append(s.substring_char(start, n));
    out.append("\"");
}

} // verus!
