//! How the `trayd` CLI subcommands read the daemon's replies: what each
//! prints, and when a reply is an error.

use vstd::prelude::*;

use crate::ipc::protocol::{response_outcome, ErrorCode, ItemInfo, ItemStatus, Response, ResultPayload};

verus! {

/// What a subcommand does with a reply.
#[derive(Debug)]
pub enum CliReport {
    /// Print these lines to stdout and succeed.
    Print(Vec<String>),
    /// The reply was a success of an unexpected kind: warn and succeed.
    Unexpected(ResultPayload),
    /// The daemon answered with an error: fail with it.
    Remote { code: ErrorCode, message: String },
}

/// The lines of a `Print` report, as character sequences.
pub open spec fn printed(r: CliReport) -> Option<Seq<Seq<char>>> {
    match r {
        CliReport::Print(lines) => Some(lines@.map_values(|l: String| l@)),
        _ => None,
    }
}

/// Whether `r` reports the outcome `Err((code, message))` of a reply.
pub open spec fn reports_error(r: CliReport, out: Result<ResultPayload, (ErrorCode, Seq<char>)>) -> bool {
    match out {
        Err((code, message)) => r matches CliReport::Remote { code: c, message: m } && c == code && m@
            == message,
        Ok(p) => true,
    }
}

/// Whether `r` reports a success `p` that the subcommand did not expect.
pub open spec fn reports_unexpected(r: CliReport, p: ResultPayload) -> bool {
    r matches CliReport::Unexpected(q) && q == p
}

/// The debug text of an item status (its variant name).
pub open spec fn status_debug(s: ItemStatus) -> Seq<char> {
    match s {
        ItemStatus::Passive => "Passive"@,
        ItemStatus::Active => "Active"@,
        ItemStatus::NeedsAttention => "NeedsAttention"@,
    }
}

/// The `trayd list` line of an item: `id: title [Status]`, with
/// `<untitled>` for an item without title.
pub open spec fn item_line(i: ItemInfo) -> Seq<char> {
    let title = match i.title {
        Some(t) => t@,
        None => "<untitled>"@,
    };
    i.id@ + ": "@ + title + " ["@ + status_debug(i.status) + "]"@
}

/// The output of `trayd list` for an item list.
pub open spec fn list_lines(items: Seq<ItemInfo>) -> Seq<Seq<char>> {
    if items.len() == 0 {
        seq!["(no tray items registered)"@]
    } else {
        items.map_values(|i: ItemInfo| item_line(i))
    }
}

/// A `trayd list` line reads `id: title [Status]`, where the status is the
/// variant name (`Passive`, `Active` or `NeedsAttention`); distinct statuses
/// print differently, so two items that differ only in status give
/// different lines.
pub proof fn lemma_list_line_status(a: ItemInfo, b: ItemInfo)
    ensures
        a.status == ItemStatus::Passive ==> status_debug(a.status) == "Passive"@,
        a.status == ItemStatus::Active ==> status_debug(a.status) == "Active"@,
        a.status == ItemStatus::NeedsAttention ==> status_debug(a.status) == "NeedsAttention"@,
        item_line(a) == a.id@ + ": "@ + (match a.title {
            Some(t) => t@,
            None => "<untitled>"@,
        }) + " ["@ + status_debug(a.status) + "]"@,
        a.status != b.status ==> status_debug(a.status) != status_debug(b.status),
        a.id == b.id && a.title == b.title && a.status != b.status ==> item_line(a) != item_line(b),
{
    reveal_strlit("Passive");
    reveal_strlit("Active");
    reveal_strlit("NeedsAttention");
    reveal_strlit("]");
    if a.status != b.status {
        assert(status_debug(a.status).len() != status_debug(b.status).len() || status_debug(a.status)[0]
            != status_debug(b.status)[0]);
        if a.id == b.id && a.title == b.title && item_line(a) == item_line(b) {
            let title = match a.title {
                Some(t) => t@,
                None => "<untitled>"@,
            };
            let pre = a.id@ + ": "@ + title + " ["@;
            let la = pre + status_debug(a.status) + "]"@;
            let lb = pre + status_debug(b.status) + "]"@;
            assert(la == item_line(a));
            assert(lb == item_line(b));
            assert(la.len() == lb.len());
            assert(status_debug(a.status).len() == status_debug(b.status).len());
            assert(la[pre.len() as int] == status_debug(a.status)[0]);
            assert(lb[pre.len() as int] == status_debug(b.status)[0]);
        }
    }
}

fn remote(e: crate::ipc::protocol::ErrorPayload) -> (r: CliReport)
    ensures
        r matches CliReport::Remote { code, message } && code == e.code && message@ == e.message@,
{
    CliReport::Remote { code: e.code, message: e.message }
}

fn one_line(s: String) -> (r: Vec<String>)
    ensures
        r@.map_values(|l: String| l@) == seq![s@],
{
    let mut v: Vec<String> = Vec::new();
    v.push(s);
    assert(v@.map_values(|l: String| l@) =~= seq![s@]);
    v
}

/// `trayd ping`: prints `pong: trayd <version>`.
pub fn ping_report(resp: Response) -> (r: CliReport)
    ensures
        reports_error(r, response_outcome(resp)),
        match response_outcome(resp) {
            Ok(ResultPayload::Pong { version }) => printed(r) == Some(seq!["pong: trayd "@ + version@]),
            Ok(p) => reports_unexpected(r, p),
            Err(_) => true,
        },
{
    match resp.into_result() {
        Ok(ResultPayload::Pong { version }) => {
            let line = "pong: trayd ".to_owned().concat(version.as_str());
            CliReport::Print(one_line(line))
        },
        Ok(other) => CliReport::Unexpected(other),
        Err(err) => remote(err),
    }
}

fn status_name(s: ItemStatus) -> (r: String)
    ensures
        r@ == status_debug(s),
{
    match s {
        ItemStatus::Passive => "Passive".to_owned(),
        ItemStatus::Active => "Active".to_owned(),
        ItemStatus::NeedsAttention => "NeedsAttention".to_owned(),
    }
}

fn line_of(i: &ItemInfo) -> (r: String)
    ensures
        r@ == item_line(*i),
{
    let title: &str = match &i.title {
        Some(t) => t.as_str(),
        None => "<untitled>",
    };
    let status = status_name(i.status);
    let r = i.id.clone().concat(": ").concat(title).concat(" [").concat(status.as_str()).concat("]");
    assert(r@ =~= item_line(*i));
    r
}

/// The lines `trayd list` prints for `items`.
pub fn list_output(items: &Vec<ItemInfo>) -> (r: Vec<String>)
    ensures
        r@.map_values(|l: String| l@) == list_lines(items@),
{
    if items.len() == 0 {
        return one_line("(no tray items registered)".to_owned());
    }
    let mut out: Vec<String> = Vec::new();
    let mut i: usize = 0;
    while i < items.len()
        invariant
            i <= items@.len(),
            items@.len() > 0,
            out@.map_values(|l: String| l@) == items@.take(i as int).map_values(|x: ItemInfo| item_line(x)),
        decreases items.len() - i,
    {
        let ghost before = out@;
        let line = line_of(&items[i]);
        out.push(line);
        assert(out@ == before.push(line));
        assert(out@.map_values(|l: String| l@) =~= before.map_values(|l: String| l@).push(line@));
        assert(items@.take(i + 1) =~= items@.take(i as int).push(items@[i as int]));
        assert(out@.map_values(|l: String| l@) =~= items@.take(i + 1).map_values(|x: ItemInfo| item_line(x)));
        i = i + 1;
    }
    assert(items@.take(items@.len() as int) =~= items@);
    out
}

/// `trayd list`: prints one line per item, or a note when there is none.
pub fn list_report(resp: Response) -> (r: CliReport)
    ensures
        reports_error(r, response_outcome(resp)),
        match response_outcome(resp) {
            Ok(ResultPayload::List { items }) => printed(r) == Some(list_lines(items@)),
            Ok(p) => reports_unexpected(r, p),
            Err(_) => true,
        },
{
    match resp.into_result() {
        Ok(ResultPayload::List { items }) => CliReport::Print(list_output(&items)),
        Ok(other) => CliReport::Unexpected(other),
        Err(err) => remote(err),
    }
}

/// `trayd activate`: prints nothing on success.
pub fn activate_report(resp: Response) -> (r: CliReport)
    ensures
        reports_error(r, response_outcome(resp)),
        match response_outcome(resp) {
            Ok(ResultPayload::Success) => printed(r) == Some(Seq::<Seq<char>>::empty()),
            Ok(p) => reports_unexpected(r, p),
            Err(_) => true,
        },
{
    match resp.into_result() {
        Ok(ResultPayload::Success) => {
            let v: Vec<String> = Vec::new();
            assert(v@.map_values(|l: String| l@) =~= Seq::<Seq<char>>::empty());
            CliReport::Print(v)
        },
        Ok(other) => CliReport::Unexpected(other),
        Err(err) => remote(err),
    }
}

/// `trayd subscribe`, on the daemon's first reply: a `subscribed` ack starts
/// the stream silently; another success is unexpected (the stream still
/// starts); an error ends the command.
pub fn subscribe_ack_report(resp: Response) -> (r: CliReport)
    ensures
        reports_error(r, response_outcome(resp)),
        match response_outcome(resp) {
            Ok(ResultPayload::Subscribed) => printed(r) == Some(Seq::<Seq<char>>::empty()),
            Ok(p) => reports_unexpected(r, p),
            Err(_) => true,
        },
{
    match resp.into_result() {
        Ok(ResultPayload::Subscribed) => {
            let v: Vec<String> = Vec::new();
            assert(v@.map_values(|l: String| l@) =~= Seq::<Seq<char>>::empty());
            CliReport::Print(v)
        },
        Ok(other) => CliReport::Unexpected(other),
        Err(err) => remote(err),
    }
}

} // verus!
