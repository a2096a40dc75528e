//! The parameter of the end-to-end sample stage: key `e2eExtensionParam` of the extension
//! options blob, given as YAML-like `key: value` lines or, failing that, as a JSON object.

use vstd::prelude::*;

use bson::Document;

use crate::bson_doc::{doc_insert_null, doc_insert_str, doc_new, document_fields, spec_insert, BsonValue};
use crate::text::{has_prefix, starts_with_char, strip_prefix, trim_by, trim_set, TrimSet};

verus! {

/// Default used when the host omits options or uses a format that is not parsed.
pub const DEFAULT_E2E_EXTENSION_PARAM: &'static str = "from_extension_yaml";

/// Index of the first `'\n'` in `s`, or `-1`.
pub open spec fn newline_index(s: Seq<char>) -> int
    decreases s.len(),
{
    if s.len() == 0 {
        -1
    } else if s[0] == '\n' {
        0
    } else {
        let r = newline_index(s.drop_first());
        if r < 0 { -1 } else { r + 1 }
    }
}

/// `newline_index` finds the first line feed, and only it.
pub proof fn lemma_newline_index(s: Seq<char>)
    ensures
        -1 <= newline_index(s) < s.len(),
        newline_index(s) >= 0 ==> s[newline_index(s)] == '\n',
        forall|j: int| 0 <= j < newline_index(s) ==> s[j] != '\n',
        newline_index(s) < 0 ==> forall|j: int| 0 <= j < s.len() ==> s[j] != '\n',
    decreases s.len(),
{
    if s.len() > 0 && s[0] != '\n' {
        lemma_newline_index(s.drop_first());
        assert forall|j: int| 0 < j < s.len() implies s[j] == s.drop_first()[j - 1] by {}
    }
}

/// A line that ended with `"\r\n"` loses the `'\r'`.
pub open spec fn strip_cr(line: Seq<char>) -> Seq<char> {
    if line.len() > 0 && line.last() == '\r' {
        line.drop_last()
    } else {
        line
    }
}

/// `str::lines`: the lines of `s`, split at `'\n'` (a `'\r'` before it is dropped); a final line
/// ending is optional.
pub open spec fn spec_lines(s: Seq<char>) -> Seq<Seq<char>>
    decreases s.len(),
{
    if s.len() == 0 {
        Seq::empty()
    } else {
        let i = newline_index(s);
        if i < 0 {
            seq![s]
        } else {
            proof {
                lemma_newline_index(s);
            }
            seq![strip_cr(s.take(i))] + spec_lines(s.skip(i + 1))
        }
    }
}

/// The key prefix of a parameter line.
pub open spec fn param_prefix() -> Seq<char> {
    "e2eExtensionParam:"@
}

/// The parameter a single line gives: the line trimmed must not be empty nor a `#` comment and
/// must start with `e2eExtensionParam:`; the value is the rest trimmed of white space, then of
/// `"` and then of `'` characters, and must not be empty.
pub open spec fn param_of_line(line: Seq<char>) -> Option<Seq<char>> {
    let t = trim_set(line, TrimSet::WhiteSpace);
    if t.len() == 0 || t[0] == '#' {
        None
    } else if has_prefix(t, param_prefix()) {
        let v = trim_set(
            trim_set(trim_set(t.skip(param_prefix().len() as int), TrimSet::WhiteSpace), TrimSet::Char('"')),
            TrimSet::Char('\''),
        );
        if v.len() > 0 { Some(v) } else { None }
    } else {
        None
    }
}

/// The first parameter the lines give.
pub open spec fn first_param(lines: Seq<Seq<char>>) -> Option<Seq<char>>
    decreases lines.len(),
{
    if lines.len() == 0 {
        None
    } else {
        match param_of_line(lines[0]) {
            Some(v) => Some(v),
            None => first_param(lines.drop_first()),
        }
    }
}

/// A line that is blank after trimming gives no parameter.
pub proof fn lemma_blank_line_gives_no_param(line: Seq<char>)
    requires
        trim_set(line, TrimSet::WhiteSpace).len() == 0,
    ensures
        param_of_line(line) is None,
{
}

/// The parameter of the lines is that of the first line, anywhere in the text, that gives one:
/// lines that give none (blank lines, comments, other keys) are passed over, and there is none
/// only when no line gives one. In particular a blank first line does not end the search.
pub proof fn lemma_first_param_searches_all_lines(lines: Seq<Seq<char>>)
    ensures
        first_param(lines) is None <==> forall|i: int| 0 <= i < lines.len() ==> (#[trigger] param_of_line(lines[i])) is None,
        forall|k: int|
            0 <= k < lines.len() && #[trigger] param_of_line(lines[k]) is Some && (forall|j: int|
                0 <= j < k ==> param_of_line(lines[j]) is None) ==> first_param(lines) == param_of_line(lines[k]),
        lines.len() > 0 && trim_set(lines[0], TrimSet::WhiteSpace).len() == 0 ==> first_param(lines) == first_param(
            lines.drop_first(),
        ),
    decreases lines.len(),
{
    if lines.len() > 0 {
        let rest = lines.drop_first();
        lemma_first_param_searches_all_lines(rest);
        assert forall|i: int| 0 < i < lines.len() implies lines[i] == rest[i - 1] by {}
        if param_of_line(lines[0]) is None {
            assert((forall|i: int| 0 <= i < lines.len() ==> (#[trigger] param_of_line(lines[i])) is None) <==> (
            forall|i: int| 0 <= i < rest.len() ==> (#[trigger] param_of_line(rest[i])) is None)) by {
                if forall|i: int| 0 <= i < rest.len() ==> (#[trigger] param_of_line(rest[i])) is None {
                    assert forall|i: int| 0 <= i < lines.len() implies (#[trigger] param_of_line(lines[i])) is None by {
                        if i > 0 {
                            assert(lines[i] == rest[i - 1]);
                        }
                    }
                }
                if forall|i: int| 0 <= i < lines.len() ==> (#[trigger] param_of_line(lines[i])) is None {
                    assert forall|i: int| 0 <= i < rest.len() implies (#[trigger] param_of_line(rest[i])) is None by {
                        assert(rest[i] == lines[i + 1]);
                    }
                }
            }
            assert forall|k: int|
                0 <= k < lines.len() && #[trigger] param_of_line(lines[k]) is Some && (forall|j: int|
                    0 <= j < k ==> param_of_line(lines[j]) is None) implies first_param(lines) == param_of_line(
                lines[k],
            ) by {
                assert(k > 0);
                assert(lines[k] == rest[k - 1]);
                assert(param_of_line(rest[k - 1]) is Some);
                assert forall|j: int| 0 <= j < k - 1 implies param_of_line(rest[j]) is None by {
                    assert(rest[j] == lines[j + 1]);
                }
            }
        } else {
            assert(param_of_line(lines[0]) is Some);
        }
        if trim_set(lines[0], TrimSet::WhiteSpace).len() == 0 {
            lemma_blank_line_gives_no_param(lines[0]);
        }
    }
}

fn param_of_line_exec(line: &str) -> (r: Option<String>)
    ensures
        match param_of_line(line@) {
            Some(v) => r matches Some(x) && x@ == v,
            None => r is None,
        },
{
    proof {
        reveal_strlit("e2eExtensionParam:");
    }
    let t = trim_by(line, TrimSet::WhiteSpace);
    if t.unicode_len() == 0 || starts_with_char(t, '#') {
        return None;
    }
    match strip_prefix(t, "e2eExtensionParam:") {
        Some(rest) => {
            let v = trim_by(trim_by(trim_by(rest, TrimSet::WhiteSpace), TrimSet::Char('"')), TrimSet::Char('\''));
            if v.unicode_len() > 0 {
                Some(String::from_str(v))
            } else {
                None
            }
        },
        None => None,
    }
}

/// Parses `e2eExtensionParam: <value>` lines from the extension options YAML blob: the value of
/// the first line that gives one.
pub fn parse_e2e_extension_param(yaml: &str) -> (r: Option<String>)
    ensures
        match first_param(spec_lines(yaml@)) {
            Some(v) => r matches Some(x) && x@ == v,
            None => r is None,
        },
{
    let n = yaml.unicode_len();
    let mut start: usize = 0;
    assert(yaml@.skip(0) =~= yaml@);
    while start < n
        invariant
            n == yaml@.len(),
            start <= n,
            first_param(spec_lines(yaml@)) == first_param(spec_lines(yaml@.skip(start as int))),
        decreases n - start,
    {
        let ghost t = yaml@.skip(start as int);
        let mut j: usize = start;
        while j < n && yaml.get_char(j) != '\n'
            invariant
                n == yaml@.len(),
                start <= j <= n,
                forall|k: int| start <= k < j ==> yaml@[k] != '\n',
            decreases n - j,
        {
            j = j + 1;
        }
        let line_end = if j < n && j > start && yaml.get_char(j - 1) == '\r' { j - 1 } else { j };
        let line = yaml.substring_char(start, line_end);
        proof {
            lemma_newline_index(t);
            assert forall|k: int| 0 <= k < (j - start) implies t[k] != '\n' by {
                assert(t[k] == yaml@[start + k]);
            }
            if j < n {
                assert(t[j - start] == '\n');
                assert(newline_index(t) == j - start);
                assert(t.take(j - start) =~= yaml@.subrange(start as int, j as int));
                assert(line@ =~= strip_cr(t.take(j - start)));
                assert(t.skip(j - start + 1) =~= yaml@.skip(j + 1));
                assert(spec_lines(t) == seq![line@] + spec_lines(yaml@.skip(j + 1)));
                assert((seq![line@] + spec_lines(yaml@.skip(j + 1)))[0] == line@);
                assert((seq![line@] + spec_lines(yaml@.skip(j + 1))).drop_first() =~= spec_lines(yaml@.skip(j + 1)));
            } else {
                assert(newline_index(t) == -1);
                assert(line@ =~= t);
                assert(spec_lines(t) == seq![line@]);
                assert(seq![line@].drop_first() =~= Seq::<Seq<char>>::empty());
                assert(yaml@.skip(n as int) =~= Seq::<char>::empty());
            }
        }
        match param_of_line_exec(line) {
            Some(v) => {
                return Some(v);
            },
            None => {},
        }
        start = if j < n { j + 1 } else { n };
    }
    proof {
        assert(yaml@.skip(start as int) =~= Seq::<char>::empty());
    }
    None
}

/// The string member `key` of the JSON object `text` (what `serde_json` parses), if `text`
/// parses as JSON and that member exists and is a string.
pub uninterp spec fn json_string_member(text: Seq<char>, key: Seq<char>) -> Option<Seq<char>>;

/// `serde_json::from_str::<Value>`, then `Value::get(key)` and `Value::as_str` on the member:
/// the string member `key` of the JSON text. The result is named; which texts parse is not
/// stated.
#[verifier::external_body]
fn json_member_str(text: &str, key: &str) -> (r: Option<String>)
    ensures
        match json_string_member(text@, key@) {
            Some(v) => r matches Some(x) && x@ == v,
            None => r is None,
        },
{
    match serde_json::from_str::<serde_json::Value>(text) {
        Ok(v) => match v.get(key) {
            Some(m) => m.as_str().map(|s| s.to_string()),
            None => None,
        },
        Err(_) => None,
    }
}

/// The parameter of a JSON options blob: the text trimmed must start with `{`, and the string
/// member `e2eExtensionParam` must be non-empty.
pub open spec fn spec_param_json(text: Seq<char>) -> Option<Seq<char>> {
    let t = trim_set(text, TrimSet::WhiteSpace);
    if t.len() == 0 || t[0] != '{' {
        None
    } else {
        match json_string_member(t, "e2eExtensionParam"@) {
            Some(v) => if v.len() > 0 { Some(v) } else { None },
            None => None,
        }
    }
}

/// Some hosts pass extension options as JSON instead of YAML-like lines.
pub fn parse_e2e_extension_param_json(text: &str) -> (r: Option<String>)
    ensures
        match spec_param_json(text@) {
            Some(v) => r matches Some(x) && x@ == v,
            None => r is None,
        },
{
    let t = trim_by(text, TrimSet::WhiteSpace);
    if !starts_with_char(t, '{') {
        return None;
    }
    match json_member_str(t, "e2eExtensionParam") {
        Some(s) => if s.as_str().unicode_len() > 0 { Some(s) } else { None },
        None => None,
    }
}

/// The parameter for raw options: the default for absent or blank options; otherwise, after a
/// leading byte-order mark is dropped and white space trimmed, the first YAML-like line
/// parameter, then the JSON member, then the default.
pub open spec fn spec_resolve(raw: Option<Seq<char>>) -> Seq<char> {
    match raw {
        None => DEFAULT_E2E_EXTENSION_PARAM@,
        Some(r) => {
            let r1 = if r.len() > 0 && r[0] == '\u{feff}' { r.drop_first() } else { r };
            let r2 = trim_set(r1, TrimSet::WhiteSpace);
            if r2.len() == 0 {
                DEFAULT_E2E_EXTENSION_PARAM@
            } else {
                match first_param(spec_lines(r2)) {
                    Some(v) => v,
                    None => match spec_param_json(r2) {
                        Some(v) => v,
                        None => DEFAULT_E2E_EXTENSION_PARAM@,
                    },
                }
            }
        },
    }
}

/// Resolves the sample stage's parameter from the raw extension options.
pub fn resolve_e2e_extension_param(raw: Option<&str>) -> (r: String)
    ensures
        r@ == spec_resolve(match raw {
            Some(s) => Some(s@),
            None => None,
        }),
{
    let raw = match raw {
        None => return String::from_str(DEFAULT_E2E_EXTENSION_PARAM),
        Some(r) => r,
    };
    let r1 = if starts_with_char(raw, '\u{feff}') {
        let n = raw.unicode_len();
        let x = raw.substring_char(1, n);
        assert(x@ =~= raw@.drop_first());
        x
    } else {
        raw
    };
    let r2 = trim_by(r1, TrimSet::WhiteSpace);
    if r2.unicode_len() == 0 {
        return String::from_str(DEFAULT_E2E_EXTENSION_PARAM);
    }
    match parse_e2e_extension_param(r2) {
        Some(v) => v,
        None => match parse_e2e_extension_param_json(r2) {
            Some(v) => v,
            None => String::from_str(DEFAULT_E2E_EXTENSION_PARAM),
        },
    }
}

/// The text of `bytes` when they are valid UTF-8 (as `vstd::utf8` defines it).
pub open spec fn utf8_text(bytes: Seq<u8>) -> Option<Seq<char>> {
    if vstd::utf8::valid_utf8(bytes) {
        Some(vstd::utf8::decode_utf8(bytes))
    } else {
        None
    }
}

/// `std::str::from_utf8`, owned: the text of `bytes`, or `None` when they are not valid UTF-8.
#[verifier::external_body]
fn string_from_utf8(bytes: &[u8]) -> (r: Option<String>)
    ensures
        match utf8_text(bytes@) {
            Some(t) => r matches Some(s) && s@ == t,
            None => r is None,
        },
{
    std::str::from_utf8(bytes).ok().map(|s| s.to_string())
}

/// The parameter for the extension options the host hands over at `initialize`: absent or empty
/// options, or options that are not UTF-8, resolve as absent.
pub fn e2e_param_from_options(options: Option<&[u8]>) -> (r: String)
    ensures
        r@ == spec_resolve(match options {
            Some(b) => if b@.len() == 0 { None } else { utf8_text(b@) },
            None => None,
        }),
{
    match options {
        None => resolve_e2e_extension_param(None),
        Some(b) => {
            if b.len() == 0 {
                return resolve_e2e_extension_param(None);
            }
            match string_from_utf8(b) {
                Some(text) => resolve_e2e_extension_param(Some(text.as_str())),
                None => resolve_e2e_extension_param(None),
            }
        },
    }
}

/// Field the sample stage sets on each output document.
pub const E2E_PARAM_FIELD: &'static str = "rustSdkE2eExtensionParam";

/// The value the sample stage stores: the resolved parameter as a string, or null before one
/// was resolved.
pub open spec fn param_value(param: Option<Seq<char>>) -> BsonValue {
    match param {
        Some(p) => BsonValue::String(p),
        None => BsonValue::Null,
    }
}

/// Sets [`E2E_PARAM_FIELD`] on `out` to the resolved parameter (null when there is none).
pub fn merge_yaml_field(out: &mut Document, param: Option<&str>)
    ensures
        document_fields(*final(out)) == spec_insert(
            document_fields(*old(out)),
            E2E_PARAM_FIELD@,
            param_value(match param {
                Some(p) => Some(p@),
                None => None,
            }),
        ),
{
    match param {
        Some(p) => doc_insert_str(out, E2E_PARAM_FIELD, p),
        None => doc_insert_null(out, E2E_PARAM_FIELD),
    }
}

/// The sample stage's transform: the input row with [`E2E_PARAM_FIELD`] set (the stage
/// arguments are not read).
pub fn e2e_transform(row: &Document, _args: &Document, param: Option<&str>) -> (r: Result<Document, String>)
    ensures
        r matches Ok(out) && document_fields(out) == spec_insert(
            document_fields(*row),
            E2E_PARAM_FIELD@,
            param_value(match param {
                Some(p) => Some(p@),
                None => None,
            }),
        ),
{
    let mut out = row.clone();
    merge_yaml_field(&mut out, param);
    Ok(out)
}

/// The sample stage's row for an empty input: a document holding only [`E2E_PARAM_FIELD`] (the
/// stage arguments are not read).
pub fn e2e_eof(_args: &Document, param: Option<&str>) -> (r: Result<Document, String>)
    ensures
        r matches Ok(out) && document_fields(out) == seq![(
            E2E_PARAM_FIELD@,
            param_value(match param {
                Some(p) => Some(p@),
                None => None,
            }),
        )],
{
    let mut out = doc_new();
    merge_yaml_field(&mut out, param);
    proof {
        assert(spec_insert(Seq::<(Seq<char>, BsonValue)>::empty(), E2E_PARAM_FIELD@, param_value(match param {
            Some(p) => Some(p@),
            None => None,
        })) =~= seq![(E2E_PARAM_FIELD@, param_value(match param {
            Some(p) => Some(p@),
            None => None,
        }))]);
    }
    Ok(out)
}

} // verus!
