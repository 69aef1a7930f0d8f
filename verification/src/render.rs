//! Rendering of reports: the line-oriented text report, the JSON
//! documents, and the string escaping they need.

use vstd::prelude::*;

use crate::clock::bool_str;
use crate::model::Service;
use crate::numfmt::dec_str;
use crate::numfmt::u64_to_string;
use crate::view::{JsonOutput, StopOutput, TimeEntryOutput};

verus! {

/// Relies on std's `String::push`: appends one character.
#[verifier::external_body]
fn push_char(s: &mut String, c: char)
    ensures
        final(s)@ == old(s)@.push(c),
{
    s.push(c);
}

/// How one character appears inside a JSON string literal: the quote, the
/// backslash and the three common control characters get a two-character
/// escape, everything else stands for itself.
pub open spec fn escape_char(c: char) -> Seq<char> {
    if c == '"' {
        seq!['\\', '"']
    } else if c == '\\' {
        seq!['\\', '\\']
    } else if c == '\n' {
        seq!['\\', 'n']
    } else if c == '\r' {
        seq!['\\', 'r']
    } else if c == '\t' {
        seq!['\\', 't']
    } else {
        seq![c]
    }
}

/// The body of a JSON string literal holding `s`.
pub open spec fn json_escape(s: Seq<char>) -> Seq<char>
    decreases s.len(),
{
    if s.len() == 0 {
        Seq::empty()
    } else {
        escape_char(s[0]) + json_escape(s.drop_first())
    }
}

proof fn lemma_json_escape_snoc(s: Seq<char>, c: char)
    ensures
        json_escape(s.push(c)) == json_escape(s) + escape_char(c),
    decreases s.len(),
{
    if s.len() == 0 {
        assert(s.push(c).drop_first() =~= s);
        assert(json_escape(s.push(c)) =~= json_escape(s) + escape_char(c));
    } else {
        lemma_json_escape_snoc(s.drop_first(), c);
        assert(s.push(c).drop_first() =~= s.drop_first().push(c));
        assert(json_escape(s.push(c)) =~= json_escape(s) + escape_char(c));
    }
}

/// Reading a JSON string literal's body back: a backslash takes the next
/// character (undoing the three control escapes), everything else stands
/// for itself.
pub open spec fn json_unescape(s: Seq<char>) -> Seq<char>
    decreases s.len(),
{
    if s.len() == 0 {
        Seq::empty()
    } else if s[0] == '\\' && s.len() >= 2 {
        let c = s[1];
        let decoded = if c == 'n' {
            '\n'
        } else if c == 'r' {
            '\r'
        } else if c == 't' {
            '\t'
        } else {
            c
        };
        seq![decoded] + json_unescape(s.skip(2))
    } else {
        seq![s[0]] + json_unescape(s.drop_first())
    }
}

/// Law: escaping loses nothing. Reading an escaped string back gives the
/// original, whatever characters it held.
pub proof fn lemma_json_escape_roundtrip(s: Seq<char>)
    ensures
        json_unescape(json_escape(s)) == s,
    decreases s.len(),
{
    if s.len() > 0 {
        lemma_json_escape_roundtrip(s.drop_first());
        let e = json_escape(s);
        let tail = json_escape(s.drop_first());
        if s[0] == '"' || s[0] == '\\' || s[0] == '\n' || s[0] == '\r' || s[0] == '\t' {
            assert(e[0] == '\\');
            assert(e.len() >= 2);
            assert(e.skip(2) =~= tail);
            assert(json_unescape(e) =~= seq![s[0]] + json_unescape(tail));
        } else {
            assert(e[0] == s[0] && e[0] != '\\');
            assert(e.drop_first() =~= tail);
            assert(json_unescape(e) =~= seq![s[0]] + json_unescape(tail));
        }
        assert(seq![s[0]] + s.drop_first() =~= s);
    }
}

/// Escapes `s` for use inside a JSON string literal.
#[verifier::loop_isolation(false)]
pub fn escape_str(s: &String) -> (r: String)
    ensures
        r@ == json_escape(s@),
{
    let slice = s.as_str();
    let n = slice.unicode_len();
    let mut out = String::new();
    let mut i: usize = 0;
    while i < n
        invariant
            out@ == json_escape(s@.take(i as int)),
            0 <= i <= n,
        decreases n - i,
    {
        let c = slice.get_char(i);
        if c == '"' {
            out.append("\\\"");
            proof {
                reveal_strlit("\\\"");
            }
        } else if c == '\\' {
            out.append("\\\\");
            proof {
                reveal_strlit("\\\\");
            }
        } else if c == '\n' {
            out.append("\\n");
            proof {
                reveal_strlit("\\n");
            }
        } else if c == '\r' {
            out.append("\\r");
            proof {
                reveal_strlit("\\r");
            }
        } else if c == '\t' {
            out.append("\\t");
            proof {
                reveal_strlit("\\t");
            }
        } else {
            push_char(&mut out, c);
        }
        proof {
            lemma_json_escape_snoc(s@.take(i as int), s@[i as int]);
            assert(s@.take(i + 1) =~= s@.take(i as int).push(s@[i as int]));
            assert(out@ =~= json_escape(s@.take(i + 1)));
        }
        i += 1;
    }
    proof {
        assert(s@.take(n as int) =~= s@);
    }
    out
}

/// A JSON string literal holding `s`.
pub open spec fn json_string(s: Seq<char>) -> Seq<char> {
    seq!['"'] + json_escape(s) + seq!['"']
}

/// A JSON string literal holding `s`, or `null` when `s` is absent.
pub open spec fn json_opt_string(o: Option<String>) -> Seq<char> {
    match o {
        Some(s) => json_string(s@),
        None => "null"@,
    }
}

/// Renders `s` as a JSON string literal.
pub fn quote_str(s: &String) -> (r: String)
    ensures
        r@ == json_string(s@),
{
    let mut out = String::from_str("\"");
    let body = escape_str(s);
    out.append(body.as_str());
    out.append("\"");
    proof {
        reveal_strlit("\"");
        assert(out@ =~= json_string(s@));
    }
    out
}

fn quote_opt_str(o: &Option<String>) -> (r: String)
    ensures
        r@ == json_opt_string(*o),
{
    match o {
        Some(s) => quote_str(s),
        None => String::from_str("null"),
    }
}

/// The JSON document of one time-entry report: every field of the report,
/// in declaration order, with the two wire enumerations as their integer
/// codes and absent project or service as `null`.
pub open spec fn entry_json(o: TimeEntryOutput) -> Seq<char> {
    "{\"id\":"@ + dec_str(o.id as nat) + ",\"customer\":"@ + json_string(o.customer@)
        + ",\"project\":"@ + json_opt_string(o.project) + ",\"entry_type\":"@ + dec_str(
        o.entry_type.code_spec() as nat,
    ) + ",\"service\":"@ + json_opt_string(o.service) + ",\"billable\":"@ + dec_str(
        o.billable.code_spec() as nat,
    ) + ",\"description\":"@ + json_string(o.description@) + ",\"time_insert\":"@ + json_string(
        o.time_insert@,
    ) + ",\"time_since\":"@ + json_string(o.time_since@) + ",\"duration\":"@ + json_string(
        o.duration@,
    ) + "}"@
}

/// Renders one time-entry report as a JSON document.
#[verifier::rlimit(40)]
pub fn render_entry_json(o: &TimeEntryOutput) -> (r: String)
    ensures
        r@ == entry_json(*o),
{
    let mut s = String::from_str("{\"id\":");
    let id_str = u64_to_string(o.id as u64);
    s.append(id_str.as_str());
    s.append(",\"customer\":");
    let customer = quote_str(&o.customer);
    s.append(customer.as_str());
    s.append(",\"project\":");
    let project = quote_opt_str(&o.project);
    s.append(project.as_str());
    s.append(",\"entry_type\":");
    let entry_type = u64_to_string(o.entry_type.code() as u64);
    s.append(entry_type.as_str());
    s.append(",\"service\":");
    let service = quote_opt_str(&o.service);
    s.append(service.as_str());
    s.append(",\"billable\":");
    let billable = u64_to_string(o.billable.code() as u64);
    s.append(billable.as_str());
    s.append(",\"description\":");
    let description = quote_str(&o.description);
    s.append(description.as_str());
    s.append(",\"time_insert\":");
    let time_insert = quote_str(&o.time_insert);
    s.append(time_insert.as_str());
    s.append(",\"time_since\":");
    let time_since = quote_str(&o.time_since);
    s.append(time_since.as_str());
    s.append(",\"duration\":");
    let duration = quote_str(&o.duration);
    s.append(duration.as_str());
    s.append("}");
    proof {
        assert(s@ =~= entry_json(*o));
    }
    s
}

/// The JSON document of an optional time-entry report.
pub open spec fn opt_entry_json(o: Option<TimeEntryOutput>) -> Seq<char> {
    match o {
        Some(e) => entry_json(e),
        None => "null"@,
    }
}

fn render_opt_entry_json(o: &Option<TimeEntryOutput>) -> (r: String)
    ensures
        r@ == opt_entry_json(*o),
{
    match o {
        Some(e) => render_entry_json(e),
        None => String::from_str("null"),
    }
}

/// The JSON document of a status or start report.
pub open spec fn status_json(o: JsonOutput) -> Seq<char> {
    "{\"running\":"@ + bool_str(o.running) + ",\"time_entry\":"@ + opt_entry_json(o.time_entry)
        + "}"@
}

/// Renders a status or start report as a JSON document.
pub fn render_status_json(o: &JsonOutput) -> (r: String)
    ensures
        r@ == status_json(*o),
{
    let mut s = String::from_str("{\"running\":");
    if o.running {
        s.append("true");
    } else {
        s.append("false");
    }
    s.append(",\"time_entry\":");
    let entry = render_opt_entry_json(&o.time_entry);
    s.append(entry.as_str());
    s.append("}");
    proof {
        assert(s@ =~= status_json(*o));
    }
    s
}

/// The JSON document of a stop report.
pub open spec fn stop_json(o: StopOutput) -> Seq<char> {
    "{\"stopped\":"@ + bool_str(o.stopped) + ",\"time_entry\":"@ + opt_entry_json(o.time_entry)
        + "}"@
}

/// Renders a stop report as a JSON document.
pub fn render_stop_json(o: &StopOutput) -> (r: String)
    ensures
        r@ == stop_json(*o),
{
    let mut s = String::from_str("{\"stopped\":");
    if o.stopped {
        s.append("true");
    } else {
        s.append("false");
    }
    s.append(",\"time_entry\":");
    let entry = render_opt_entry_json(&o.time_entry);
    s.append(entry.as_str());
    s.append("}");
    proof {
        assert(s@ =~= stop_json(*o));
    }
    s
}

/// The JSON document a failed command emits.
pub open spec fn error_json(msg: Seq<char>) -> Seq<char> {
    "{\"error_message\":"@ + json_string(msg) + "}"@
}

/// Renders a failure message as the JSON error document.
pub fn render_error_json(msg: &String) -> (r: String)
    ensures
        r@ == error_json(msg@),
{
    let mut s = String::from_str("{\"error_message\":");
    let quoted = quote_str(msg);
    s.append(quoted.as_str());
    s.append("}");
    proof {
        assert(s@ =~= error_json(msg@));
    }
    s
}

/// The duration-only JSON document of a status query: with a running
/// entry exactly the duration, with none exactly the not-running record.
pub open spec fn duration_json(duration: Option<String>) -> Seq<char> {
    match duration {
        Some(d) => "{\"duration\": \""@ + json_escape(d@) + "\"}"@,
        None => "{\"running\": false, \"duration\": null}"@,
    }
}

/// Renders the duration-only JSON document of a status query.
pub fn render_duration_json(duration: &Option<String>) -> (r: String)
    ensures
        r@ == duration_json(*duration),
{
    match duration {
        Some(d) => {
            let mut s = String::from_str("{\"duration\": \"");
            let body = escape_str(d);
            s.append(body.as_str());
            s.append("\"}");
            proof {
                assert(s@ =~= duration_json(*duration));
            }
            s
        },
        None => String::from_str("{\"running\": false, \"duration\": null}"),
    }
}

/// One optional line of the text report.
pub open spec fn opt_line(label: Seq<char>, v: Option<String>) -> Seq<char> {
    match v {
        Some(s) => label + s@ + "\n"@,
        None => Seq::empty(),
    }
}

/// The line-oriented text report of a time entry: one labelled line per
/// field, the project and service lines only when present.
pub open spec fn entry_text(o: TimeEntryOutput) -> Seq<char> {
    "ID:\t\t"@ + dec_str(o.id as nat) + "\n"@ + "Customer:\t"@ + o.customer@ + "\n"@ + opt_line(
        "Project:\t"@,
        o.project,
    ) + "Entry type:\t"@ + o.entry_type.label_spec() + "\n"@ + opt_line("Service:\t"@, o.service)
        + "Billable:\t"@ + o.billable.label_spec() + "\n"@ + "Description:\t"@ + o.description@
        + "\n"@ + "Time inserted:\t"@ + o.time_insert@ + "\n"@ + "Time started:\t"@ + o.time_since@
        + "\n"@ + "Duration:\t"@ + o.duration@ + "\n"@
}

/// Renders the text report of a time entry, trailing newline included.
#[verifier::rlimit(40)]
pub fn render_entry_text(o: &TimeEntryOutput) -> (r: String)
    ensures
        r@ == entry_text(*o),
{
    let mut s = String::from_str("ID:\t\t");
    let id_str = u64_to_string(o.id as u64);
    s.append(id_str.as_str());
    s.append("\n");
    s.append("Customer:\t");
    s.append(o.customer.as_str());
    s.append("\n");
    if let Some(p) = &o.project {
        s.append("Project:\t");
        s.append(p.as_str());
        s.append("\n");
    }
    s.append("Entry type:\t");
    s.append(o.entry_type.label());
    s.append("\n");
    if let Some(sv) = &o.service {
        s.append("Service:\t");
        s.append(sv.as_str());
        s.append("\n");
    }
    s.append("Billable:\t");
    s.append(o.billable.label());
    s.append("\n");
    s.append("Description:\t");
    s.append(o.description.as_str());
    s.append("\n");
    s.append("Time inserted:\t");
    s.append(o.time_insert.as_str());
    s.append("\n");
    s.append("Time started:\t");
    s.append(o.time_since.as_str());
    s.append("\n");
    s.append("Duration:\t");
    s.append(o.duration.as_str());
    s.append("\n");
    proof {
        assert(s@ =~= entry_text(*o));
    }
    s
}

/// The one text line a service listing shows for `s`: the name, a marker
/// when the service is inactive, and the note when there is one.
pub open spec fn service_line_spec(s: Service) -> Seq<char> {
    s.name@ + (if s.active {
        Seq::<char>::empty()
    } else {
        " (inactive)"@
    }) + (match s.note {
        Some(n) => " \t\tNote: "@ + n@,
        None => Seq::<char>::empty(),
    })
}

/// Renders the text line of one service, without a trailing newline.
pub fn service_line(s: &Service) -> (r: String)
    ensures
        r@ == service_line_spec(*s),
{
    let mut out = s.name.clone();
    if !s.active {
        out.append(" (inactive)");
    }
    if let Some(n) = &s.note {
        out.append(" \t\tNote: ");
        out.append(n.as_str());
    }
    proof {
        assert(out@ =~= service_line_spec(*s));
    }
    out
}

} // verus!
