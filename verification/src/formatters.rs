//! Rendering of command output: a human-readable form and a JSON form,
//! each pinned to a specification of the exact character sequence it
//! produces.

use vstd::prelude::*;
use vstd::string::StrSliceExecFns;
use crate::cli::{Output, OutputV};
use crate::engine::{ExecOutputV, RtBox, RtBoxExecOutput, RtBoxV, rtbox_views};
use crate::error::{RtBoxError, RtBoxErrorV, opt_str_view};
use crate::text::{
    chars_string, dec_of, debug_esc_of, join_of, json_esc_char, json_esc_of, pad_of, prefix_of,
    push_dec, push_debug_escaped, push_json_escaped, push_padded, push_prefix, push_str_chars,
    str_views,
};

verus! {

/// An optional string as it appears in a `Debug`-style rendering.
pub open spec fn dbg_opt_of(o: Option<Seq<char>>) -> Seq<char> {
    match o {
        None => "None"@,
        Some(s) => "Some(\""@ + debug_esc_of(s) + "\")"@,
    }
}

/// The human rendering of an error: its three fields spelled out.
pub open spec fn human_error_of(e: RtBoxErrorV) -> Seq<char> {
    "RtBoxError { command: "@ + dbg_opt_of(e.command) + ", message: "@ + dbg_opt_of(e.message)
        + ", root_cause: "@ + dbg_opt_of(e.root_cause) + " }"@
}

/// The human rendering of a successful creation.
pub open spec fn human_create_of(b: RtBoxV) -> Seq<char> {
    "Successfully created '"@ + b.name + "' using image "@ + b.image
        + ". To enter please run:\n> rtbox enter "@ + b.name
}

/// One table row of the human listing: truncated id, then name, status
/// and image in padded columns.
pub open spec fn human_row_of(b: RtBoxV) -> Seq<char> {
    pad_of(prefix_of(b.id, 12), 12) + " | "@ + pad_of(b.name, 20) + " | "@ + pad_of(b.status, 20)
        + " | "@ + b.image
}

/// The rows of the human listing, one line per record.
pub open spec fn human_rows_of(l: Seq<RtBoxV>) -> Seq<char> {
    join_of(Seq::new(l.len(), |i: int| human_row_of(l[i])), "\n"@)
}

/// The human listing: the column header line, then one row per record.
pub open spec fn human_list_of(l: Seq<RtBoxV>) -> Seq<char> {
    pad_of("ID"@, 12) + " | "@ + pad_of("NAME"@, 20) + " | "@ + pad_of("STATUS"@, 20) + " | "@
        + "IMAGE"@ + "\n"@ + human_rows_of(l)
}

/// What the human formatter prints for each kind of output; nothing for
/// the kinds without a human rendering.
pub open spec fn human_output_of(o: OutputV) -> Option<Seq<char>> {
    match o {
        OutputV::Create(b) => Some(human_create_of(b)),
        OutputV::List(l) => Some(human_list_of(l)),
        OutputV::Error(e) => Some(human_error_of(e)),
        OutputV::Run(_) => None,
        OutputV::Rm => None,
    }
}

/// A JSON string literal: quoted and escaped.
pub open spec fn json_string_of(s: Seq<char>) -> Seq<char> {
    seq!['"'] + json_esc_of(s) + seq!['"']
}

/// An optional string in JSON: `null` when absent.
pub open spec fn json_opt_str_of(o: Option<Seq<char>>) -> Seq<char> {
    match o {
        None => "null"@,
        Some(s) => json_string_of(s),
    }
}

/// The JSON object for an error, fields in declaration order.
pub open spec fn json_error_of(e: RtBoxErrorV) -> Seq<char> {
    "{\"command\":"@ + json_opt_str_of(e.command) + ",\"message\":"@ + json_opt_str_of(e.message)
        + ",\"root_cause\":"@ + json_opt_str_of(e.root_cause) + "}"@
}

/// The JSON object for a record.
pub open spec fn json_rtbox_of(b: RtBoxV) -> Seq<char> {
    "{\"id\":"@ + json_string_of(b.id) + ",\"name\":"@ + json_string_of(b.name) + ",\"image\":"@
        + json_string_of(b.image) + ",\"status\":"@ + json_string_of(b.status) + "}"@
}

/// The JSON array of records.
pub open spec fn json_rtbox_list_of(l: Seq<RtBoxV>) -> Seq<char> {
    "["@ + join_of(Seq::new(l.len(), |i: int| json_rtbox_of(l[i])), ","@) + "]"@
}

/// The JSON array for captured output: one single-character string per
/// character.
pub open spec fn json_chars_of(s: Seq<char>) -> Seq<char> {
    "["@ + join_of(Seq::new(s.len(), |i: int| json_string_of(seq![s[i]])), ","@) + "]"@
}

/// The JSON object for an execution result.
pub open spec fn json_exec_of(o: ExecOutputV) -> Seq<char> {
    "{\"stdout\":"@ + json_chars_of(o.stdout) + ",\"stderr\":"@ + json_chars_of(o.stderr)
        + ",\"return_code\":"@ + dec_of(o.return_code as nat) + "}"@
}

/// The JSON rendering of each kind of output, tagged by its variant.
pub open spec fn json_output_of(o: OutputV) -> Seq<char> {
    match o {
        OutputV::Create(b) => "{\"Create\":"@ + json_rtbox_of(b) + "}"@,
        OutputV::List(l) => "{\"List\":"@ + json_rtbox_list_of(l) + "}"@,
        OutputV::Run(e) => "{\"Run\":"@ + json_exec_of(e) + "}"@,
        OutputV::Rm => "{\"Rm\":null}"@,
        OutputV::Error(e) => "{\"Error\":"@ + json_error_of(e) + "}"@,
    }
}

/// Appends an optional string in `Debug` style.
fn push_dbg_opt(out: &mut Vec<char>, o: &Option<String>)
    ensures
        final(out)@ == old(out)@ + dbg_opt_of(opt_str_view(*o)),
{
    match o {
        None => {
            push_str_chars(out, "None");
        },
        Some(s) => {
            push_str_chars(out, "Some(\"");
            push_debug_escaped(out, s.as_str());
            push_str_chars(out, "\")");
            assert(out@ =~= old(out)@ + dbg_opt_of(opt_str_view(*o)));
        },
    }
}

/// The human rendering of an error.
pub fn human_error_string(e: &RtBoxError) -> (r: String)
    ensures
        r@ == human_error_of(e@),
{
    let mut buf: Vec<char> = Vec::new();
    push_str_chars(&mut buf, "RtBoxError { command: ");
    push_dbg_opt(&mut buf, &e.command);
    push_str_chars(&mut buf, ", message: ");
    push_dbg_opt(&mut buf, &e.message);
    push_str_chars(&mut buf, ", root_cause: ");
    push_dbg_opt(&mut buf, &e.root_cause);
    push_str_chars(&mut buf, " }");
    proof {
        assert(buf@ =~= human_error_of(e@));
    }
    chars_string(&buf)
}

/// The human rendering of a successful creation.
pub fn human_create_string(b: &RtBox) -> (r: String)
    ensures
        r@ == human_create_of(b@),
{
    let mut buf: Vec<char> = Vec::new();
    push_str_chars(&mut buf, "Successfully created '");
    push_str_chars(&mut buf, b.name.as_str());
    push_str_chars(&mut buf, "' using image ");
    push_str_chars(&mut buf, b.image.as_str());
    push_str_chars(&mut buf, ". To enter please run:\n> rtbox enter ");
    push_str_chars(&mut buf, b.name.as_str());
    proof {
        assert(buf@ =~= human_create_of(b@));
    }
    chars_string(&buf)
}

/// One row of the human listing.
pub fn human_row_string(b: &RtBox) -> (r: String)
    ensures
        r@ == human_row_of(b@),
{
    let mut id_prefix: Vec<char> = Vec::new();
    push_prefix(&mut id_prefix, b.id.as_str(), 12);
    let id_short = chars_string(&id_prefix);
    let mut buf: Vec<char> = Vec::new();
    push_padded(&mut buf, id_short.as_str(), 12);
    push_str_chars(&mut buf, " | ");
    push_padded(&mut buf, b.name.as_str(), 20);
    push_str_chars(&mut buf, " | ");
    push_padded(&mut buf, b.status.as_str(), 20);
    push_str_chars(&mut buf, " | ");
    push_str_chars(&mut buf, b.image.as_str());
    proof {
        assert(buf@ =~= human_row_of(b@));
    }
    chars_string(&buf)
}

/// The human listing of records.
pub fn human_list_string(l: &Vec<RtBox>) -> (r: String)
    ensures
        r@ == human_list_of(rtbox_views(l@)),
{
    let mut buf: Vec<char> = Vec::new();
    push_padded(&mut buf, "ID", 12);
    push_str_chars(&mut buf, " | ");
    push_padded(&mut buf, "NAME", 20);
    push_str_chars(&mut buf, " | ");
    push_padded(&mut buf, "STATUS", 20);
    push_str_chars(&mut buf, " | ");
    push_str_chars(&mut buf, "IMAGE");
    push_str_chars(&mut buf, "\n");
    let n = l.len();
    let mut rows: Vec<String> = Vec::new();
    for i in 0..n
        invariant
            n == l@.len(),
            rows@.len() == i,
            forall|j: int| 0 <= j < i ==> #[trigger] rows@[j]@ == human_row_of(l@[j]@),
    {
        rows.push(human_row_string(&l[i]));
    }
    proof {
        assert(str_views(rows@) =~= Seq::new(
            rtbox_views(l@).len(),
            |i: int| human_row_of(rtbox_views(l@)[i]),
        ));
    }
    crate::text::push_joined(&mut buf, &rows, "\n");
    proof {
        assert(buf@ =~= human_list_of(rtbox_views(l@)));
    }
    chars_string(&buf)
}

/// What the human formatter prints for this output, if anything.
pub fn human_output(command_output: &Output) -> (r: Option<String>)
    ensures
        match r {
            Some(s) => human_output_of(command_output@) == Some(s@),
            None => human_output_of(command_output@) is None,
        },
{
    match command_output {
        Output::Create(b) => Some(human_create_string(b)),
        Output::List(l) => Some(human_list_string(l)),
        Output::Error(e) => Some(human_error_string(e)),
        Output::Run(_) => None,
        Output::Rm(_) => None,
    }
}

/// Appends one character, escaped as in a JSON string.
fn push_json_char(out: &mut Vec<char>, c: char)
    ensures
        final(out)@ == old(out)@ + json_esc_char(c),
{
    let code = c as u32;
    if c == '"' {
        out.push('\\');
        out.push('"');
    } else if c == '\\' {
        out.push('\\');
        out.push('\\');
    } else if c == '\n' {
        out.push('\\');
        out.push('n');
    } else if c == '\r' {
        out.push('\\');
        out.push('r');
    } else if c == '\t' {
        out.push('\\');
        out.push('t');
    } else if code == 8 {
        out.push('\\');
        out.push('b');
    } else if code == 12 {
        out.push('\\');
        out.push('f');
    } else if code < 32 {
        out.push('\\');
        out.push('u');
        out.push('0');
        out.push('0');
        out.push(crate::text::hex_char_exec((code / 16) as u64));
        out.push(crate::text::hex_char_exec((code % 16) as u64));
    } else {
        out.push(c);
    }
    assert(out@ =~= old(out)@ + json_esc_char(c));
}

/// Appends a quoted, escaped JSON string.
fn push_json_string(out: &mut Vec<char>, s: &str)
    ensures
        final(out)@ == old(out)@ + json_string_of(s@),
{
    out.push('"');
    push_json_escaped(out, s);
    out.push('"');
    assert(out@ =~= old(out)@ + json_string_of(s@));
}

/// Appends an optional string in JSON.
fn push_json_opt(out: &mut Vec<char>, o: &Option<String>)
    ensures
        final(out)@ == old(out)@ + json_opt_str_of(opt_str_view(*o)),
{
    match o {
        None => {
            push_str_chars(out, "null");
        },
        Some(s) => {
            push_json_string(out, s.as_str());
        },
    }
}

/// The JSON rendering of an error.
pub fn json_error_string(e: &RtBoxError) -> (r: String)
    ensures
        r@ == json_error_of(e@),
{
    let mut buf: Vec<char> = Vec::new();
    push_str_chars(&mut buf, "{\"command\":");
    push_json_opt(&mut buf, &e.command);
    push_str_chars(&mut buf, ",\"message\":");
    push_json_opt(&mut buf, &e.message);
    push_str_chars(&mut buf, ",\"root_cause\":");
    push_json_opt(&mut buf, &e.root_cause);
    push_str_chars(&mut buf, "}");
    proof {
        assert(buf@ =~= json_error_of(e@));
    }
    chars_string(&buf)
}

/// Appends the JSON object for one record.
fn push_json_rtbox(out: &mut Vec<char>, b: &RtBox)
    ensures
        final(out)@ == old(out)@ + json_rtbox_of(b@),
{
    push_str_chars(out, "{\"id\":");
    push_json_string(out, b.id.as_str());
    push_str_chars(out, ",\"name\":");
    push_json_string(out, b.name.as_str());
    push_str_chars(out, ",\"image\":");
    push_json_string(out, b.image.as_str());
    push_str_chars(out, ",\"status\":");
    push_json_string(out, b.status.as_str());
    push_str_chars(out, "}");
    assert(out@ =~= old(out)@ + json_rtbox_of(b@));
}

/// The JSON object for one record.
fn json_rtbox_string(b: &RtBox) -> (r: String)
    ensures
        r@ == json_rtbox_of(b@),
{
    let mut buf: Vec<char> = Vec::new();
    push_json_rtbox(&mut buf, b);
    proof {
        assert(buf@ =~= json_rtbox_of(b@));
    }
    chars_string(&buf)
}

/// Appends the JSON array of records.
fn push_json_rtbox_list(out: &mut Vec<char>, l: &Vec<RtBox>)
    ensures
        final(out)@ == old(out)@ + json_rtbox_list_of(rtbox_views(l@)),
{
    push_str_chars(out, "[");
    let n = l.len();
    let mut items: Vec<String> = Vec::new();
    for i in 0..n
        invariant
            n == l@.len(),
            items@.len() == i,
            forall|j: int| 0 <= j < i ==> #[trigger] items@[j]@ == json_rtbox_of(l@[j]@),
    {
        items.push(json_rtbox_string(&l[i]));
    }
    proof {
        assert(str_views(items@) =~= Seq::new(
            rtbox_views(l@).len(),
            |i: int| json_rtbox_of(rtbox_views(l@)[i]),
        ));
    }
    crate::text::push_joined(out, &items, ",");
    push_str_chars(out, "]");
    assert(out@ =~= old(out)@ + json_rtbox_list_of(rtbox_views(l@)));
}

/// The JSON string for a single character.
fn json_char_string(c: char) -> (r: String)
    ensures
        r@ == json_string_of(seq![c]),
{
    let mut buf: Vec<char> = Vec::new();
    buf.push('"');
    push_json_char(&mut buf, c);
    buf.push('"');
    proof {
        assert(seq![c].drop_last() =~= Seq::<char>::empty());
        assert(seq![c].last() == c);
        assert(json_esc_of(Seq::<char>::empty()) =~= Seq::<char>::empty());
        assert(json_esc_of(seq![c]) =~= json_esc_char(c));
        assert(buf@ =~= json_string_of(seq![c]));
    }
    chars_string(&buf)
}

/// Appends the JSON array for captured output characters.
fn push_json_chars(out: &mut Vec<char>, v: &Vec<char>)
    ensures
        final(out)@ == old(out)@ + json_chars_of(v@),
{
    push_str_chars(out, "[");
    let n = v.len();
    let mut items: Vec<String> = Vec::new();
    for i in 0..n
        invariant
            n == v@.len(),
            items@.len() == i,
            forall|j: int| 0 <= j < i ==> #[trigger] items@[j]@ == json_string_of(seq![v@[j]]),
    {
        items.push(json_char_string(v[i]));
    }
    proof {
        assert(str_views(items@) =~= Seq::new(v@.len(), |i: int| json_string_of(seq![v@[i]])));
    }
    crate::text::push_joined(out, &items, ",");
    push_str_chars(out, "]");
    assert(out@ =~= old(out)@ + json_chars_of(v@));
}

/// The JSON rendering of an execution result.
pub fn json_exec_string(o: &RtBoxExecOutput) -> (r: String)
    ensures
        r@ == json_exec_of(o@),
{
    let mut buf: Vec<char> = Vec::new();
    push_str_chars(&mut buf, "{\"stdout\":");
    push_json_chars(&mut buf, &o.stdout);
    push_str_chars(&mut buf, ",\"stderr\":");
    push_json_chars(&mut buf, &o.stderr);
    push_str_chars(&mut buf, ",\"return_code\":");
    push_dec(&mut buf, o.return_code);
    push_str_chars(&mut buf, "}");
    proof {
        assert(buf@ =~= json_exec_of(o@));
    }
    chars_string(&buf)
}

/// The JSON rendering of an output value.
pub fn json_output_string(command_output: &Output) -> (r: String)
    ensures
        r@ == json_output_of(command_output@),
{
    let mut buf: Vec<char> = Vec::new();
    match command_output {
        Output::Create(b) => {
            push_str_chars(&mut buf, "{\"Create\":");
            push_json_rtbox(&mut buf, b);
            push_str_chars(&mut buf, "}");
        },
        Output::List(l) => {
            push_str_chars(&mut buf, "{\"List\":");
            push_json_rtbox_list(&mut buf, l);
            push_str_chars(&mut buf, "}");
        },
        Output::Run(o) => {
            push_str_chars(&mut buf, "{\"Run\":");
            let exec_json = json_exec_string(o);
            push_str_chars(&mut buf, exec_json.as_str());
            push_str_chars(&mut buf, "}");
        },
        Output::Rm(_) => {
            push_str_chars(&mut buf, "{\"Rm\":null}");
        },
        Output::Error(e) => {
            push_str_chars(&mut buf, "{\"Error\":");
            let error_json = json_error_string(e);
            push_str_chars(&mut buf, error_json.as_str());
            push_str_chars(&mut buf, "}");
        },
    }
    proof {
        assert(buf@ =~= json_output_of(command_output@));
    }
    chars_string(&buf)
}

impl RtBoxError {
    /// This error as a single line of text: its JSON rendering.
    pub fn to_text(&self) -> (r: String)
        ensures
            r@ == json_error_of(self@),
    {
        json_error_string(self)
    }
}

/// A renderer of command output: what is printed for an output value,
/// if anything.
pub trait OutputFormatter {
    fn format(&self, command_output: &Output) -> Option<String>;
}

/// Renders output for people: creation notices, a listing table, and
/// `Debug`-style errors.
pub struct HumanFormatter {}

impl OutputFormatter for HumanFormatter {
    fn format(&self, command_output: &Output) -> Option<String> {
        human_output(command_output)
    }
}

/// Renders every output as one JSON value.
pub struct JsonFormatter {}

impl OutputFormatter for JsonFormatter {
    fn format(&self, command_output: &Output) -> Option<String> {
        Some(json_output_string(command_output))
    }
}

} // verus!
