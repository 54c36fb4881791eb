//! The release-notes renderer: a single pass over the markdown event stream of
//! the release body, emitting a fixed fragment per event. Only a small dialect
//! is accepted — level-2 headings, tables, links and plain text — and any
//! other construct aborts the render rather than mis-rendering it. The body is
//! always transformed, never shown raw, and a rendered body is followed by a
//! pause for one keypress; the pause itself is a terminal concern and stays
//! with the caller.

use vstd::prelude::*;

use crate::errors::AppError;
use pulldown_cmark::Event::End;
use pulldown_cmark::Event::Start;
use pulldown_cmark::Event::Text;
use pulldown_cmark::Options;
use pulldown_cmark::Parser;
use pulldown_cmark::Tag;
use pulldown_cmark::TagEnd;

verus! {

/// One token of the markdown event stream, reduced to what the renderer
/// reads. Events whose fragments coincide share a variant: both table-head
/// and table-row starts open a line (`RowStart`), both their ends close it
/// (`RowEnd`), and every event the dialect keeps but renders as nothing —
/// heading, table and cell ends, link start and end — is `Silent`. Every
/// construct outside the dialect is `Unsupported`.
pub enum MdEvent {
    /// A heading opens; only level 2 is rendered.
    Heading { level: u8 },
    /// A table opens.
    TableStart,
    /// A header or body row opens.
    RowStart,
    /// A header or body row closes.
    RowEnd,
    /// A table cell opens.
    CellStart,
    /// A kept construct that emits nothing.
    Silent,
    /// A plain text token, kept verbatim.
    Text { text: String },
    /// A construct outside the dialect; rendering it is refused.
    Unsupported,
}

/// The fragment one event emits, or `None` for an event the renderer refuses:
/// a heading of a level other than 2, and every construct outside the dialect.
pub open spec fn fragment_of(e: MdEvent) -> Option<Seq<char>> {
    match e {
        MdEvent::Heading { level } => if level == 2 {
            Some("## "@)
        } else {
            None
        },
        MdEvent::TableStart => Some("\n| - | - |"@),
        MdEvent::RowStart => Some("\n"@),
        MdEvent::RowEnd => Some("|"@),
        MdEvent::CellStart => Some("|"@),
        MdEvent::Silent => Some(Seq::empty()),
        MdEvent::Text { text } => Some(text@),
        MdEvent::Unsupported => None,
    }
}

/// The concatenated fragments of the first `n` events, or `None` as soon as
/// one of them is refused.
pub open spec fn rendered_prefix(events: Seq<MdEvent>, n: int) -> Option<Seq<char>>
    decreases n,
{
    if n <= 0 {
        Some(Seq::empty())
    } else {
        match rendered_prefix(events, n - 1) {
            None => None,
            Some(acc) => match fragment_of(events[n - 1]) {
                None => None,
                Some(f) => Some(acc + f),
            },
        }
    }
}

/// The rendered text of a whole event stream, or `None` when any event of it
/// is refused.
pub open spec fn render_spec(events: Seq<MdEvent>) -> Option<Seq<char>> {
    rendered_prefix(events, events.len() as int)
}

proof fn lemma_prefix_none_stays(events: Seq<MdEvent>, n: int, m: int)
    requires
        0 <= n <= m,
        rendered_prefix(events, n) is None,
    ensures
        rendered_prefix(events, m) is None,
    decreases m,
{
    if n < m {
        lemma_prefix_none_stays(events, n, m - 1);
    }
}

proof fn lemma_prefix_none_iff(events: Seq<MdEvent>, n: int)
    requires
        0 <= n <= events.len(),
    ensures
        rendered_prefix(events, n) is None <==> (exists|i: int|
            0 <= i < n && fragment_of(events[i]) is None),
    decreases n,
{
    if n > 0 {
        lemma_prefix_none_iff(events, n - 1);
        if fragment_of(events[n - 1]) is None {
            assert(0 <= n - 1 < n && fragment_of(events[n - 1]) is None);
        }
    }
}

/// The renderer fails exactly on streams that hold a refused event — a
/// heading of a level other than 2, or a construct outside the dialect — and
/// never renders such a stream partially.
pub proof fn lemma_render_fails_iff_unsupported(events: Seq<MdEvent>)
    ensures
        render_spec(events) is None <==> (exists|i: int|
            0 <= i < events.len() && fragment_of(events[i]) is None),
{
    lemma_prefix_none_iff(events, events.len() as int);
}

/// Renders an event stream into the flat text block shown on the terminal.
/// The result is the concatenation of every event's fragment; the first
/// refused event aborts the render with the unsupported-markdown error.
pub fn render_notes(events: &Vec<MdEvent>) -> (r: Result<String, AppError>)
    ensures
        match r {
            Ok(s) => render_spec(events@) == Some(s@),
            Err(e) => e is UnsupportedMarkdown && render_spec(events@) is None,
        },
{
    let mut out = String::new();
    let mut i: usize = 0;
    while i < events.len()
        invariant
            i <= events@.len(),
            rendered_prefix(events@, i as int) == Some(out@),
        decreases events@.len() - i,
    {
        let kept: bool = match &events[i] {
            MdEvent::Heading { level } => {
                if *level == 2 {
                    out.append("## ");
                    true
                } else {
                    false
                }
            },
            MdEvent::TableStart => {
                out.append("\n| - | - |");
                true
            },
            MdEvent::RowStart => {
                out.append("\n");
                true
            },
            MdEvent::RowEnd => {
                out.append("|");
                true
            },
            MdEvent::CellStart => {
                out.append("|");
                true
            },
            MdEvent::Silent => true,
            MdEvent::Text { text } => {
                out.append(text.as_str());
                true
            },
            MdEvent::Unsupported => false,
        };
        if !kept {
            proof {
                lemma_prefix_none_stays(events@, i + 1, events@.len() as int);
            }
            return Err(AppError::UnsupportedMarkdown);
        }
        i = i + 1;
    }
    Ok(out)
}

/// What a markdown body parses to: the event stream that the release body
/// yields with tables enabled, already reduced to the renderer's dialect.
/// The stream is fixed by the text alone.
pub uninterp spec fn md_events_of(body: Seq<char>) -> Seq<MdEvent>;

/// Relies on pulldown_cmark's `Parser::new_ext` with `ENABLE_TABLES`: parsing
/// a markdown string yields a fixed event stream, a function of the text
/// alone; each event is carried over one-for-one into the renderer's dialect.
#[verifier::external_body]
fn parse_markdown(body: &str) -> (r: Vec<MdEvent>)
    ensures
        r@ == md_events_of(body@),
{
    let mut opts = Options::empty();
    opts.insert(Options::ENABLE_TABLES);
    Parser::new_ext(body, opts).map(|ev| match ev {
        Start(Tag::Heading { level, .. }) => MdEvent::Heading { level: level as u8 },
        Start(Tag::Table(_)) => MdEvent::TableStart,
        Start(Tag::TableHead) | Start(Tag::TableRow) => MdEvent::RowStart,
        End(TagEnd::TableHead) | End(TagEnd::TableRow) => MdEvent::RowEnd,
        Start(Tag::TableCell) => MdEvent::CellStart,
        Start(Tag::Link { .. }) | End(TagEnd::Heading(_)) => MdEvent::Silent,
        End(TagEnd::Table) | End(TagEnd::TableCell) | End(TagEnd::Link) => MdEvent::Silent,
        Text(t) => MdEvent::Text { text: t.to_string() },
        _ => MdEvent::Unsupported,
    }).collect()
}

/// Parses a release body and renders it in one step.
pub fn render_body(body: &str) -> (r: Result<String, AppError>)
    ensures
        match r {
            Ok(s) => render_spec(md_events_of(body@)) == Some(s@),
            Err(e) => e is UnsupportedMarkdown && render_spec(md_events_of(body@)) is None,
        },
{
    let events = parse_markdown(body);
    render_notes(&events)
}

/// The renderer's outer step: a release without a body is skipped entirely
/// (no text, no pause), and a release with one either renders fully or aborts.
pub fn render_release_notes(body: &Option<String>) -> (r: Result<Option<String>, AppError>)
    ensures
        match body {
            None => r matches Ok(o) && o is None,
            Some(b) => match r {
                Ok(o) => o matches Some(s) && render_spec(md_events_of(b@)) == Some(s@),
                Err(e) => e is UnsupportedMarkdown && render_spec(md_events_of(b@)) is None,
            },
        },
{
    match body {
        None => Ok(None),
        Some(b) => match render_body(b.as_str()) {
            Ok(s) => Ok(Some(s)),
            Err(e) => Err(e),
        },
    }
}

} // verus!
