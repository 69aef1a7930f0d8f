//! Reading the emitted JSON entry document back. These spec-level readers
//! exist to state and prove that rendering a report loses nothing: parsing
//! the document yields the same name fields and the same duration string.

use vstd::prelude::*;

use crate::numfmt::dec_str;
use crate::render::{entry_json, escape_char, json_escape, json_opt_string, json_string};
use crate::view::{opt_string_view, TimeEntryOutput};

verus! {

/// What follows `prefix` at the head of `s`, when `prefix` is there.
pub open spec fn after_prefix(s: Seq<char>, prefix: Seq<char>) -> Option<Seq<char>> {
    if prefix.is_prefix_of(s) {
        Some(s.skip(prefix.len() as int))
    } else {
        None
    }
}

proof fn lemma_after_prefix(prefix: Seq<char>, rest: Seq<char>)
    ensures
        after_prefix(prefix + rest, prefix) == Some(rest),
{
    assert((prefix + rest).take(prefix.len() as int) =~= prefix);
    assert((prefix + rest).skip(prefix.len() as int) =~= rest);
}

/// A JSON string literal's body read back: the characters up to the
/// closing quote, unescaped, and what follows the closing quote.
pub open spec fn read_string_body(s: Seq<char>) -> Option<(Seq<char>, Seq<char>)>
    decreases s.len(),
{
    if s.len() == 0 {
        None
    } else if s[0] == '"' {
        Some((Seq::empty(), s.drop_first()))
    } else if s[0] == '\\' {
        if s.len() < 2 {
            None
        } else {
            let c = s[1];
            let decoded = if c == 'n' {
                '\n'
            } else if c == 'r' {
                '\r'
            } else if c == 't' {
                '\t'
            } else {
                c
            };
            match read_string_body(s.skip(2)) {
                Some(p) => Some((seq![decoded] + p.0, p.1)),
                None => None,
            }
        }
    } else {
        match read_string_body(s.drop_first()) {
            Some(p) => Some((seq![s[0]] + p.0, p.1)),
            None => None,
        }
    }
}

proof fn lemma_read_string_body(s: Seq<char>, rest: Seq<char>)
    ensures
        read_string_body(json_escape(s) + seq!['"'] + rest) == Some((s, rest)),
    decreases s.len(),
{
    if s.len() == 0 {
        let t = json_escape(s) + seq!['"'] + rest;
        assert(t =~= seq!['"'] + rest);
        assert(t[0] == '"');
        assert(t.drop_first() =~= rest);
    } else {
        lemma_read_string_body(s.drop_first(), rest);
        let t = json_escape(s) + seq!['"'] + rest;
        let tail_doc = json_escape(s.drop_first()) + seq!['"'] + rest;
        assert(json_escape(s) == escape_char(s[0]) + json_escape(s.drop_first()));
        if s[0] == '"' || s[0] == '\\' || s[0] == '\n' || s[0] == '\r' || s[0] == '\t' {
            assert(t[0] == '\\');
            assert(t.len() >= 2);
            assert(t.skip(2) =~= tail_doc);
            assert(read_string_body(t) == Some((seq![s[0]] + s.drop_first(), rest)));
        } else {
            assert(t[0] == s[0] && t[0] != '"' && t[0] != '\\');
            assert(t.drop_first() =~= tail_doc);
        }
        assert(seq![s[0]] + s.drop_first() =~= s);
    }
}

/// A whole JSON string literal read back, opening quote included.
pub open spec fn read_json_string(s: Seq<char>) -> Option<(Seq<char>, Seq<char>)> {
    if s.len() > 0 && s[0] == '"' {
        read_string_body(s.drop_first())
    } else {
        None
    }
}

proof fn lemma_read_json_string(x: Seq<char>, rest: Seq<char>)
    ensures
        read_json_string((seq!['"'] + json_escape(x) + seq!['"']) + rest) == Some((x, rest)),
{
    let t = (seq!['"'] + json_escape(x) + seq!['"']) + rest;
    assert(t[0] == '"');
    assert(t.drop_first() =~= json_escape(x) + seq!['"'] + rest);
    lemma_read_string_body(x, rest);
}

/// A JSON string literal or `null` read back.
pub open spec fn read_json_opt_string(s: Seq<char>) -> Option<(Option<Seq<char>>, Seq<char>)> {
    match after_prefix(s, "null"@) {
        Some(r) => Some((None, r)),
        None => match read_json_string(s) {
            Some(p) => Some((Some(p.0), p.1)),
            None => None,
        },
    }
}

/// Whether `c` is a decimal digit.
pub open spec fn is_dec_digit(c: char) -> bool {
    c == '0' || c == '1' || c == '2' || c == '3' || c == '4' || c == '5' || c == '6' || c == '7'
        || c == '8' || c == '9'
}

/// The longest digit prefix of `s`, and what follows it.
pub open spec fn read_digits(s: Seq<char>) -> (Seq<char>, Seq<char>)
    decreases s.len(),
{
    if s.len() == 0 || !is_dec_digit(s[0]) {
        (Seq::empty(), s)
    } else {
        let p = read_digits(s.drop_first());
        (seq![s[0]] + p.0, p.1)
    }
}

proof fn lemma_dec_str_digits(n: nat)
    ensures
        forall|i: int| 0 <= i < dec_str(n).len() ==> is_dec_digit(#[trigger] dec_str(n)[i]),
        dec_str(n).len() > 0,
    decreases n,
{
    if n >= 10 {
        lemma_dec_str_digits(n / 10);
    }
}

proof fn lemma_read_digits(d: Seq<char>, rest: Seq<char>)
    requires
        forall|i: int| 0 <= i < d.len() ==> is_dec_digit(#[trigger] d[i]),
        rest.len() == 0 || !is_dec_digit(rest[0]),
    ensures
        read_digits(d + rest) == (d, rest),
    decreases d.len(),
{
    if d.len() == 0 {
        assert(d + rest =~= rest);
    } else {
        assert(d.drop_first() + rest =~= (d + rest).drop_first());
        lemma_read_digits(d.drop_first(), rest);
        assert((d + rest)[0] == d[0]);
        assert(seq![d[0]] + d.drop_first() =~= d);
    }
}

/// A labelled number field read back: what follows the label and its
/// digits. The field must hold at least one digit.
pub open spec fn read_number_field(s: Seq<char>, label: Seq<char>) -> Option<Seq<char>> {
    match after_prefix(s, label) {
        Some(r) => {
            let p = read_digits(r);
            if p.0.len() > 0 {
                Some(p.1)
            } else {
                None
            }
        },
        None => None,
    }
}

proof fn lemma_read_number_field(label: Seq<char>, n: nat, rest: Seq<char>)
    requires
        rest.len() > 0,
        !is_dec_digit(rest[0]),
    ensures
        read_number_field((label + dec_str(n)) + rest, label) == Some(rest),
{
    assert((label + dec_str(n)) + rest =~= label + (dec_str(n) + rest));
    lemma_after_prefix(label, dec_str(n) + rest);
    lemma_dec_str_digits(n);
    lemma_read_digits(dec_str(n), rest);
}

/// A labelled string field read back: its contents and what follows.
pub open spec fn read_string_field(s: Seq<char>, label: Seq<char>) -> Option<
    (Seq<char>, Seq<char>),
> {
    match after_prefix(s, label) {
        Some(r) => read_json_string(r),
        None => None,
    }
}

proof fn lemma_read_string_field(label: Seq<char>, x: Seq<char>, rest: Seq<char>)
    ensures
        read_string_field((label + json_string(x)) + rest, label) == Some((x, rest)),
{
    assert((label + json_string(x)) + rest =~= label + (json_string(x) + rest));
    lemma_after_prefix(label, json_string(x) + rest);
    assert(json_string(x) + rest =~= (seq!['"'] + json_escape(x) + seq!['"']) + rest);
    lemma_read_json_string(x, rest);
}

proof fn lemma_read_json_opt_string(o: Option<String>, rest: Seq<char>)
    ensures
        read_json_opt_string(json_opt_string(o) + rest) == Some((opt_string_view(o), rest)),
{
    reveal_strlit("null");
    match o {
        Some(x) => {
            let t = json_opt_string(o) + rest;
            assert(t[0] == '"');
            if "null"@.is_prefix_of(t) {
                assert(t[0] == 'n');
            }
            assert(t =~= (seq!['"'] + json_escape(x@) + seq!['"']) + rest);
            lemma_read_json_string(x@, rest);
        },
        None => {
            assert(json_opt_string(o) + rest =~= "null"@ + rest);
            lemma_after_prefix("null"@, rest);
        },
    }
}

/// A labelled field holding a string or `null`, read back.
pub open spec fn read_opt_string_field(s: Seq<char>, label: Seq<char>) -> Option<
    (Option<Seq<char>>, Seq<char>),
> {
    match after_prefix(s, label) {
        Some(r) => read_json_opt_string(r),
        None => None,
    }
}

proof fn lemma_read_opt_string_field(label: Seq<char>, o: Option<String>, rest: Seq<char>)
    ensures
        read_opt_string_field((label + json_opt_string(o)) + rest, label) == Some(
            (opt_string_view(o), rest),
        ),
{
    assert((label + json_opt_string(o)) + rest =~= label + (json_opt_string(o) + rest));
    lemma_after_prefix(label, json_opt_string(o) + rest);
    lemma_read_json_opt_string(o, rest);
}

/// The name fields and the duration read back from a rendered entry
/// document: the customer, the optional project and service, and the
/// duration string, when the document has exactly the rendered shape.
pub open spec fn parse_entry_json(s: Seq<char>) -> Option<
    (Seq<char>, Option<Seq<char>>, Option<Seq<char>>, Seq<char>),
> {
    match read_number_field(s, "{\"id\":"@) {
        None => None,
        Some(s1) => match read_string_field(s1, ",\"customer\":"@) {
            None => None,
            Some((customer, s2)) => match read_opt_string_field(s2, ",\"project\":"@) {
                None => None,
                Some((project, s3)) => match read_number_field(s3, ",\"entry_type\":"@) {
                    None => None,
                    Some(s4) => match read_opt_string_field(s4, ",\"service\":"@) {
                        None => None,
                        Some((service, s5)) => match read_number_field(s5, ",\"billable\":"@) {
                            None => None,
                            Some(s6) => match read_string_field(s6, ",\"description\":"@) {
                                None => None,
                                Some((description, s7)) => match read_string_field(
                                    s7,
                                    ",\"time_insert\":"@,
                                ) {
                                    None => None,
                                    Some((time_insert, s8)) => match read_string_field(
                                        s8,
                                        ",\"time_since\":"@,
                                    ) {
                                        None => None,
                                        Some((time_since, s9)) => match read_string_field(
                                            s9,
                                            ",\"duration\":"@,
                                        ) {
                                            None => None,
                                            Some((duration, s10)) => {
                                                if s10 == "}"@ {
                                                    Some((customer, project, service, duration))
                                                } else {
                                                    None
                                                }
                                            },
                                        },
                                    },
                                },
                            },
                        },
                    },
                },
            },
        },
    }
}

/// Law: the JSON document of a report round-trips. Parsing the rendered
/// document back yields the same customer name, the same optional project
/// and service names, and the same duration string; the duration is read
/// back as a string, not recomputed.
#[verifier::rlimit(80)]
pub proof fn lemma_entry_json_roundtrip(o: TimeEntryOutput)
    ensures
        parse_entry_json(entry_json(o)) == Some(
            (o.customer@, opt_string_view(o.project), opt_string_view(o.service), o.duration@),
        ),
{
    reveal_strlit(",\"customer\":");
    reveal_strlit(",\"service\":");
    reveal_strlit(",\"description\":");
    reveal_strlit("}");
    let s10 = "}"@;
    let s9 = ",\"duration\":"@ + json_string(o.duration@) + s10;
    let s8 = ",\"time_since\":"@ + json_string(o.time_since@) + s9;
    let s7 = ",\"time_insert\":"@ + json_string(o.time_insert@) + s8;
    let s6 = ",\"description\":"@ + json_string(o.description@) + s7;
    let s5 = ",\"billable\":"@ + dec_str(o.billable.code_spec() as nat) + s6;
    let s4 = ",\"service\":"@ + json_opt_string(o.service) + s5;
    let s3 = ",\"entry_type\":"@ + dec_str(o.entry_type.code_spec() as nat) + s4;
    let s2 = ",\"project\":"@ + json_opt_string(o.project) + s3;
    let s1 = ",\"customer\":"@ + json_string(o.customer@) + s2;
    let s0 = "{\"id\":"@ + dec_str(o.id as nat) + s1;
    assert(entry_json(o) =~= s0);

    assert(s1[0] == ',');
    lemma_read_number_field("{\"id\":"@, o.id as nat, s1);
    lemma_read_string_field(",\"customer\":"@, o.customer@, s2);
    lemma_read_opt_string_field(",\"project\":"@, o.project, s3);
    assert(s4[0] == ',');
    lemma_read_number_field(",\"entry_type\":"@, o.entry_type.code_spec() as nat, s4);
    lemma_read_opt_string_field(",\"service\":"@, o.service, s5);
    assert(s6[0] == ',');
    lemma_read_number_field(",\"billable\":"@, o.billable.code_spec() as nat, s6);
    lemma_read_string_field(",\"description\":"@, o.description@, s7);
    lemma_read_string_field(",\"time_insert\":"@, o.time_insert@, s8);
    lemma_read_string_field(",\"time_since\":"@, o.time_since@, s9);
    lemma_read_string_field(",\"duration\":"@, o.duration@, s10);
}

} // verus!
