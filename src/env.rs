//! Shell commands that put the secrets of a `data` object into the environment.
use std::borrow::Cow;

use vstd::prelude::*;
use vstd::string::*;

use crate::error::ClientError;
use crate::json::{keys, string_at};
use crate::json::{object_field, object_key_order, object_keys, object_objects, object_strings, Object};
use crate::vault::secret_data;

verus! {

/// A character that a POSIX shell reads as itself outside quotes.
pub open spec fn is_plain_char(c: char) -> bool {
    ('a' <= c && c <= 'z') || ('A' <= c && c <= 'Z') || ('0' <= c && c <= '9') || c == '-' || c == '_'
        || c == '=' || c == '/' || c == ',' || c == '.' || c == '+'
}

/// How a character is written inside single quotes: `'` and `!` leave the
/// quotes, are escaped with a backslash, and open them again.
pub open spec fn quoted_char(c: char) -> Seq<char> {
    if c == '\'' || c == '!' {
        seq!['\'', '\\', c, '\'']
    } else {
        seq![c]
    }
}

/// The characters of `s`, each written as inside single quotes.
pub open spec fn quoted_body(s: Seq<char>) -> Seq<char>
    decreases s.len(),
{
    if s.len() == 0 {
        Seq::empty()
    } else {
        quoted_char(s[0]) + quoted_body(s.drop_first())
    }
}

/// `s` as one shell word: as it is when it is not empty and all its characters
/// are plain, else in single quotes.
pub open spec fn shell_quote(s: Seq<char>) -> Seq<char> {
    if s.len() > 0 && (forall|i: int| 0 <= i < s.len() ==> is_plain_char(#[trigger] s[i])) {
        s
    } else {
        seq!['\''] + quoted_body(s) + seq!['\'']
    }
}

/// What a POSIX shell reads from the word `w` outside quotes: a backslash
/// takes the next character as it is, a `'` opens a quoted stretch, and any
/// other character stands for itself.
pub open spec fn shell_read(w: Seq<char>) -> Seq<char>
    decreases w.len(),
{
    if w.len() == 0 {
        Seq::empty()
    } else if w[0] == '\'' {
        shell_read_quoted(w.drop_first())
    } else if w[0] == '\\' && w.len() >= 2 {
        seq![w[1]] + shell_read(w.subrange(2, w.len() as int))
    } else {
        seq![w[0]] + shell_read(w.drop_first())
    }
}

/// What a POSIX shell reads from `w` inside single quotes: every character
/// stands for itself up to the `'` that closes them.
pub open spec fn shell_read_quoted(w: Seq<char>) -> Seq<char>
    decreases w.len(),
{
    if w.len() == 0 {
        Seq::empty()
    } else if w[0] == '\'' {
        shell_read(w.drop_first())
    } else {
        seq![w[0]] + shell_read_quoted(w.drop_first())
    }
}

proof fn lemma_read_plain(s: Seq<char>)
    requires
        forall|i: int| 0 <= i < s.len() ==> is_plain_char(#[trigger] s[i]),
    ensures
        shell_read(s) == s,
    decreases s.len(),
{
    if s.len() > 0 {
        assert(is_plain_char(s[0]));
        let t = s.drop_first();
        assert forall|i: int| 0 <= i < t.len() implies is_plain_char(#[trigger] t[i]) by {
            assert(t[i] == s[i + 1]);
        }
        lemma_read_plain(t);
        assert(seq![s[0]] + t =~= s);
    }
}

proof fn lemma_read_quoted_body(s: Seq<char>, rest: Seq<char>)
    ensures
        shell_read_quoted(quoted_body(s) + rest) == s + shell_read_quoted(rest),
    decreases s.len(),
{
    if s.len() == 0 {
        assert(quoted_body(s) + rest =~= rest);
        assert(s + shell_read_quoted(rest) =~= shell_read_quoted(rest));
    } else {
        let c = s[0];
        let t = s.drop_first();
        lemma_read_quoted_body(t, rest);
        let w = quoted_body(s) + rest;
        let after = quoted_body(t) + rest;
        assert(w =~= quoted_char(c) + after);
        if c == '\'' || c == '!' {
            let w1 = w.drop_first();
            assert(w1 =~= seq!['\\', c, '\''] + after);
            assert(w1.subrange(2, w1.len() as int) =~= seq!['\''] + after);
            assert((seq!['\''] + after).drop_first() =~= after);
            assert(shell_read(w1) == seq![c] + shell_read(w1.subrange(2, w1.len() as int)));
        } else {
            assert(w.drop_first() =~= after);
        }
        assert(s =~= seq![c] + t);
        assert(s + shell_read_quoted(rest) =~= seq![c] + (t + shell_read_quoted(rest)));
    }
}

/// A value written out by `shell_quote` reads back, in a POSIX shell, as the
/// value itself.
pub proof fn lemma_shell_quote_round_trip(s: Seq<char>)
    ensures
        shell_read(shell_quote(s)) == s,
{
    if s.len() > 0 && (forall|i: int| 0 <= i < s.len() ==> is_plain_char(#[trigger] s[i])) {
        lemma_read_plain(s);
    } else {
        let w = seq!['\''] + quoted_body(s) + seq!['\''];
        lemma_read_quoted_body(s, seq!['\'']);
        assert(w.drop_first() =~= quoted_body(s) + seq!['\'']);
        assert(seq!['\''].drop_first() =~= Seq::<char>::empty());
        assert(shell_read(Seq::<char>::empty()) == Seq::<char>::empty());
        assert(shell_read_quoted(seq!['\'']) == Seq::<char>::empty());
        assert(s + Seq::<char>::empty() =~= s);
        assert(shell_quote(s) == w);
        assert(w[0] == '\'');
        assert(shell_read(w) == shell_read_quoted(w.drop_first()));
    }
}

/// Upper case, character by character, as Rust's `str::to_uppercase` has it.
pub uninterp spec fn upper_of(s: Seq<char>) -> Seq<char>;

/// Relies on shell_escape::unix::escape, whose rule `shell_quote` states.
#[verifier::external_body]
fn shell_escape(s: &str) -> (r: String)
    ensures
        r@ == shell_quote(s@),
{
    shell_escape::unix::escape(Cow::Borrowed(s)).into_owned()
}

/// Relies on str::to_uppercase.
#[verifier::external_body]
fn uppercase(s: &str) -> (r: String)
    ensures
        r@ == upper_of(s@),
{
    s.to_uppercase()
}

/// The variable name before upper-casing: the prefix and `_` before the key.
pub open spec fn prefixed(prefix: Option<Seq<char>>, key: Seq<char>) -> Seq<char> {
    match prefix {
        Some(p) => p + "_"@ + key,
        None => key,
    }
}

/// One shell command that exports `value` under `name`, and a blank line.
pub open spec fn export_text(name: Seq<char>, value: Seq<char>) -> Seq<char> {
    "export "@ + name + "="@ + value + ";\n"@
}

/// The command that exports `value`, shell-quoted, as `key` under `prefix`.
pub open spec fn export_line_spec(prefix: Option<Seq<char>>, key: Seq<char>, value: Seq<char>) -> Seq<char> {
    export_text(upper_of(prefixed(prefix, key)), shell_quote(value))
}

/// The characters of an optional string.
pub open spec fn opt_view(p: Option<&str>) -> Option<Seq<char>> {
    match p {
        Some(s) => Some(s@),
        None => None,
    }
}

/// The command that exports the already quoted `value` under the already
/// upper-cased `name`.
pub fn format_export(name: &str, value: &str) -> (r: String)
    ensures
        r@ == export_text(name@, value@),
{
    let mut s = String::from_str("export ");
    s.append(name);
    s.append("=");
    s.append(value);
    s.append(";\n");
    s
}

/// The name of the variable for `key`: `prefix`, `_` and `key`, upper-cased.
pub fn env_name(prefix: Option<&str>, key: &str) -> (r: String)
    ensures
        r@ == upper_of(prefixed(opt_view(prefix), key@)),
{
    let joined = match prefix {
        Some(p) => {
            let mut s = String::from_str(p);
            s.append("_");
            s.append(key);
            s
        },
        None => String::from_str(key),
    };
    uppercase(joined.as_str())
}

/// The command that exports `value` as `key` under `prefix`.
pub fn export_line(prefix: Option<&str>, key: &str, value: &str) -> (r: String)
    ensures
        r@ == export_line_spec(opt_view(prefix), key@, value@),
{
    let name = env_name(prefix, key);
    let quoted = shell_escape(value);
    format_export(name.as_str(), quoted.as_str())
}

/// One command for each pair of `pairs`, in their order.
pub fn export_lines(prefix: Option<&str>, pairs: &Vec<(String, String)>) -> (r: Vec<String>)
    ensures
        r@.len() == pairs@.len(),
        forall|i: int| 0 <= i < pairs@.len() ==>
            #[trigger] r@[i]@ == export_line_spec(opt_view(prefix), pairs@[i].0@, pairs@[i].1@),
{
    let mut out: Vec<String> = Vec::new();
    let mut i: usize = 0;
    while i < pairs.len()
        invariant
            0 <= i <= pairs@.len(),
            out@.len() == i,
            forall|j: int| 0 <= j < i ==>
                #[trigger] out@[j]@ == export_line_spec(opt_view(prefix), pairs@[j].0@, pairs@[j].1@),
        decreases pairs@.len() - i,
    {
        let pair = &pairs[i];
        out.push(export_line(prefix, pair.0.as_str(), pair.1.as_str()));
        i = i + 1;
    }
    out
}

/// Every key of `data` holds a JSON string.
pub open spec fn all_strings(data: Object) -> bool {
    forall|k: Seq<char>| #[trigger] object_keys(data).contains(k) ==> object_strings(data).contains_key(k)
}

/// `lines` exports every key of `data` once, in some order, with its string
/// value, as a variable named after the key under `prefix`.
pub open spec fn exports_of(data: Object, prefix: Option<Seq<char>>, lines: Seq<String>) -> bool {
    exists|ks: Seq<Seq<char>>| {
        &&& ks.no_duplicates()
        &&& ks.to_set() == object_keys(data)
        &&& lines.len() == ks.len()
        &&& forall|i: int| 0 <= i < ks.len() ==>
            #[trigger] lines[i]@ == export_line_spec(prefix, ks[i], object_strings(data)[ks[i]])
    }
}

/// `lines` exports every key of `data`, in the order in which `data` lists
/// its keys, with its string value, as a variable named after the key under
/// `prefix`.
pub open spec fn exports_in_order(data: Object, prefix: Option<Seq<char>>, lines: Seq<String>) -> bool {
    &&& lines.len() == object_key_order(data).len()
    &&& forall|i: int| 0 <= i < lines.len() ==>
        #[trigger] lines[i]@ == export_line_spec(prefix, object_key_order(data)[i],
            object_strings(data)[object_key_order(data)[i]])
}

/// The keys of `data` with their string values, or the first key met whose
/// value is no JSON string.
pub fn string_entries(data: &Object) -> (r: Result<Vec<(String, String)>, ClientError>)
    ensures
        r is Ok <==> all_strings(*data),
        r matches Ok(pairs) ==> {
            &&& pairs@.map_values(|p: (String, String)| p.0@) == object_key_order(*data)
            &&& pairs@.map_values(|p: (String, String)| p.0@).no_duplicates()
            &&& pairs@.map_values(|p: (String, String)| p.0@).to_set() == object_keys(*data)
            &&& forall|i: int| 0 <= i < pairs@.len() ==>
                #[trigger] object_strings(*data)[pairs@[i].0@] == pairs@[i].1@
        },
        r matches Err(e) ==> {
            &&& e matches ClientError::NotAString(k)
            &&& object_keys(*data).contains(k@)
            &&& !object_strings(*data).contains_key(k@)
        },
{
    let ks = keys(data);
    let ghost kv = ks@.map_values(|k: String| k@);
    let mut pairs: Vec<(String, String)> = Vec::new();
    let mut i: usize = 0;
    while i < ks.len()
        invariant
            0 <= i <= ks@.len(),
            kv == ks@.map_values(|k: String| k@),
            kv.to_set() == object_keys(*data),
            kv == object_key_order(*data),
            pairs@.len() == i,
            forall|j: int| 0 <= j < i ==> (#[trigger] pairs@[j]).0@ == kv[j],
            forall|j: int| 0 <= j < i ==> object_strings(*data).contains_key(#[trigger] kv[j]),
            forall|j: int| 0 <= j < i ==> object_strings(*data)[kv[j]] == (#[trigger] pairs@[j]).1@,
        decreases ks@.len() - i,
    {
        let k = &ks[i];
        match string_at(data, k.as_str()) {
            Some(v) => {
                pairs.push((k.clone(), v));
            },
            None => {
                proof {
                    assert(kv.contains(kv[i as int]));
                    assert(kv.to_set().contains(k@));
                }
                return Err(ClientError::NotAString(k.clone()));
            },
        }
        i = i + 1;
    }
    proof {
        assert(pairs@.map_values(|p: (String, String)| p.0@) =~= kv);
        assert forall|k: Seq<char>| #[trigger] object_keys(*data).contains(k) implies object_strings(*data).contains_key(k) by {
            assert(kv.to_set().contains(k));
            assert(kv.contains(k));
            let j = choose|j: int| 0 <= j < kv.len() && kv[j] == k;
            assert(object_strings(*data).contains_key(kv[j]));
        }
    }
    Ok(pairs)
}

/// The commands that export every secret of `data` under `prefix`, or the
/// first key met whose value is no JSON string.
pub fn env_exports(data: &Object, prefix: Option<&str>) -> (r: Result<Vec<String>, ClientError>)
    ensures
        r is Ok <==> all_strings(*data),
        r matches Ok(lines) ==> exports_of(*data, opt_view(prefix), lines@),
        r matches Ok(lines) ==> exports_in_order(*data, opt_view(prefix), lines@),
        r matches Err(e) ==> {
            &&& e matches ClientError::NotAString(k)
            &&& object_keys(*data).contains(k@)
            &&& !object_strings(*data).contains_key(k@)
        },
{
    match string_entries(data) {
        Err(e) => Err(e),
        Ok(pairs) => {
            let lines = export_lines(prefix, &pairs);
            proof {
                let ks = pairs@.map_values(|p: (String, String)| p.0@);
                assert forall|i: int| 0 <= i < ks.len() implies
                    #[trigger] lines@[i]@ == export_line_spec(opt_view(prefix), ks[i], object_strings(*data)[ks[i]]) by {
                    assert(object_strings(*data)[pairs@[i].0@] == pairs@[i].1@);
                }
                assert(exports_of(*data, opt_view(prefix), lines@));
                assert(exports_in_order(*data, opt_view(prefix), lines@));
            }
            Ok(lines)
        },
    }
}

/// The commands for the store's answer `response`: none where it reports
/// errors or its `data` is no object of strings.
pub fn env_commands(response: &Object, prefix: Option<&str>) -> (r: Result<Vec<String>, ClientError>)
    ensures
        object_keys(*response).contains("errors"@) ==> r matches Err(ClientError::Upstream(_)),
        !object_keys(*response).contains("errors"@) && !object_objects(*response).contains("data"@)
            ==> r matches Err(ClientError::DataNotObject),
        !object_keys(*response).contains("errors"@) && object_objects(*response).contains("data"@)
            ==> (r is Ok <==> all_strings(object_field(*response, "data"@))),
        !object_keys(*response).contains("errors"@) && object_objects(*response).contains("data"@)
            ==> (r is Ok || r->Err_0 is NotAString),
        r matches Ok(lines) ==> exports_of(object_field(*response, "data"@), opt_view(prefix), lines@),
        r matches Ok(lines) ==> exports_in_order(object_field(*response, "data"@), opt_view(prefix), lines@),
{
    match secret_data(response) {
        Err(e) => Err(e),
        Ok(data) => env_exports(&data, prefix),
    }
}

/// `line` sets the variable named after a key of `data`, under the prefix and
/// upper-cased, to a word that a POSIX shell reads back as that key's string.
pub open spec fn reads_back(data: Object, prefix: Option<Seq<char>>, line: Seq<char>) -> bool {
    exists|k: Seq<char>, w: Seq<char>|
        #![trigger export_text(upper_of(prefixed(prefix, k)), w)]
        {
            &&& object_keys(data).contains(k)
            &&& line == export_text(upper_of(prefixed(prefix, k)), w)
            &&& shell_read(w) == object_strings(data)[k]
        }
}

/// Every command of an export of `data` sets the variable named after one of
/// its keys, under the prefix and upper-cased, to a word that a POSIX shell
/// reads back as that key's string, exactly.
pub proof fn lemma_exports_read_back(data: Object, prefix: Option<Seq<char>>, lines: Seq<String>)
    requires
        exports_of(data, prefix, lines),
    ensures
        forall|i: int| 0 <= i < lines.len() ==> reads_back(data, prefix, #[trigger] lines[i]@),
{
    let ks = choose|ks: Seq<Seq<char>>| {
        &&& ks.no_duplicates()
        &&& ks.to_set() == object_keys(data)
        &&& lines.len() == ks.len()
        &&& forall|i: int| 0 <= i < ks.len() ==>
            #[trigger] lines[i]@ == export_line_spec(prefix, ks[i], object_strings(data)[ks[i]])
    };
    assert forall|i: int| 0 <= i < lines.len() implies reads_back(data, prefix, #[trigger] lines[i]@) by {
        let k = ks[i];
        let w = shell_quote(object_strings(data)[k]);
        assert(ks.contains(k));
        assert(ks.to_set().contains(k));
        lemma_shell_quote_round_trip(object_strings(data)[k]);
        assert(lines[i]@ == export_text(upper_of(prefixed(prefix, k)), w));
    }
}

} // verus!
