//! The HTTP relay's per-iteration decisions: the request line written
//! upstream, and the step that ends a session or re-resolves the next
//! pipelined request into a fresh target.
use vstd::prelude::*;
use vstd::string::StringExecFns;

use crate::target::{parse_spec, ParseError, Target, TargetSpec};

verus! {

/// The request line the relay writes upstream for a target.
pub open spec fn request_line_spec(t: TargetSpec) -> Seq<char> {
    t.method + " "@ + t.path_query + " HTTP/1.1\r\n"@
}

/// Builds the upstream request line `METHOD PATH_QUERY HTTP/1.1\r\n`.
pub fn request_line(t: &Target) -> (r: String)
    ensures
        r@ == request_line_spec(t@),
{
    let mut line = t.method.clone();
    line.append(" ");
    line.append(t.path_query.as_str());
    line.append(" HTTP/1.1\r\n");
    line
}

/// What one completed exchange leads to, given the next request line read
/// off the client (`None` when the client closed): the session ends cleanly,
/// or the line is re-resolved into the next target, or its parse error ends
/// the session.
pub open spec fn session_step_spec(next_line: Option<Seq<char>>) -> Result<
    Option<TargetSpec>,
    ParseError,
> {
    match next_line {
        None => Ok(None),
        Some(l) => match parse_spec(l) {
            Ok(t) => Ok(Some(t)),
            Err(e) => Err(e),
        },
    }
}

/// Decides how the relay session continues after one exchange. A client
/// that closed ends the session successfully; otherwise the next request
/// line is re-resolved into the target for the next iteration.
pub fn next_session_step(next_line: Option<&str>) -> (r: Result<Option<Target>, ParseError>)
    ensures
        next_line is None ==> (r matches Ok(o) && o is None),
        next_line matches Some(l) ==> {
            &&& (r is Ok) == (parse_spec(l@) is Ok)
            &&& (r matches Ok(o) ==> o matches Some(t) && parse_spec(l@) matches Ok(ts) && t@
                == ts)
            &&& (r matches Err(e) ==> parse_spec(l@) matches Err(es) && e == es)
        },
{
    match next_line {
        None => Ok(None),
        Some(l) => match Target::from_str(l) {
            Ok(t) => Ok(Some(t)),
            Err(e) => Err(e),
        },
    }
}

/// The targets a relay session works through, given the follow-up request
/// lines arriving on the client connection: one per line, re-resolved in
/// arrival order, stopping at the first line that does not parse.
pub open spec fn pipeline_targets(lines: Seq<Seq<char>>) -> Seq<TargetSpec>
    decreases lines.len(),
{
    if lines.len() == 0 {
        Seq::empty()
    } else {
        match session_step_spec(Some(lines.first())) {
            Ok(Some(t)) => seq![t] + pipeline_targets(lines.drop_first()),
            _ => Seq::empty(),
        }
    }
}

/// Pipelining order: when every follow-up request line parses, the session
/// handles exactly one target per line, each re-resolved from its own line,
/// in the order the lines arrived.
pub proof fn lemma_pipeline_order(lines: Seq<Seq<char>>)
    requires
        forall|i: int| 0 <= i < lines.len() ==> (#[trigger] parse_spec(lines[i])) is Ok,
    ensures
        pipeline_targets(lines).len() == lines.len(),
        forall|i: int| 0 <= i < lines.len() ==> pipeline_targets(lines)[i] == parse_spec(
            lines[i],
        )->Ok_0,
    decreases lines.len(),
{
    if lines.len() > 0 {
        let rest = lines.drop_first();
        assert(forall|i: int| 0 <= i < rest.len() ==> rest[i] == lines[i + 1]);
        lemma_pipeline_order(rest);
        assert(forall|i: int| 1 <= i < lines.len() ==> pipeline_targets(lines)[i]
            == pipeline_targets(rest)[i - 1]);
    }
}

} // verus!
