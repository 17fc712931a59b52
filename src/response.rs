//! What every operation answers: ordered text lines and a rendering hint.
use vstd::prelude::*;
use vstd::string::*;

verus! {

/// The lines an operation produced, and whether they form a listing
/// (`verbose`, shown quoted line by line) or a short acknowledgement.
#[derive(Clone, Debug, PartialEq, Eq)]
pub struct Response {
    pub lines: Vec<String>,
    pub verbose: bool,
}

/// The view of a response: its lines and its hint.
pub type ResponseView = (Seq<Seq<char>>, bool);

impl View for Response {
    type V = ResponseView;

    open spec fn view(&self) -> ResponseView {
        (self.lines.deep_view(), self.verbose)
    }
}

/// Each line behind a quote marker and followed by a line break.
pub open spec fn quoted(lines: Seq<Seq<char>>) -> Seq<char>
    decreases lines.len(),
{
    if lines.len() == 0 {
        Seq::empty()
    } else {
        quoted(lines.drop_last()) + "> "@ + lines.last() + "\n"@
    }
}

/// The lines joined by line breaks.
pub open spec fn joined(lines: Seq<Seq<char>>) -> Seq<char>
    decreases lines.len(),
{
    if lines.len() == 0 {
        Seq::empty()
    } else if lines.len() == 1 {
        lines[0]
    } else {
        joined(lines.drop_last()) + "\n"@ + lines.last()
    }
}

impl Response {
    /// A response of a single line.
    pub fn single(line: String, verbose: bool) -> (r: Response)
        ensures
            r@ == (seq![line@], verbose),
    {
        let mut lines: Vec<String> = Vec::new();
        lines.push(line);
        assert(lines.deep_view() =~= seq![line@]);
        Response { lines, verbose }
    }

    /// A response of the lines given.
    pub fn from_lines(lines: Vec<String>, verbose: bool) -> (r: Response)
        ensures
            r@ == (lines.deep_view(), verbose),
    {
        Response { lines, verbose }
    }
}

/// Renders a response as one text: a listing quotes each line, an
/// acknowledgement joins its lines with line breaks.
pub fn format_response(response: &Response) -> (r: String)
    ensures
        r@ == if response.verbose {
            quoted(response@.0)
        } else {
            joined(response@.0)
        },
{
    let lines = &response.lines;
    let ghost all = lines.deep_view();
    let mut r = String::new();
    let mut i: usize = 0;
    proof {
        reveal_strlit("> ");
        reveal_strlit("\n");
        assert(all.subrange(0, 0) =~= Seq::<Seq<char>>::empty());
    }
    while i < lines.len()
        invariant
            i <= lines.len(),
            all == lines.deep_view(),
            r@ == if response.verbose {
                quoted(all.subrange(0, i as int))
            } else {
                joined(all.subrange(0, i as int))
            },
        decreases lines.len() - i,
    {
        let ghost before = all.subrange(0, i as int);
        let ghost after = all.subrange(0, i + 1);
        proof {
            assert(after.drop_last() =~= before);
            assert(after.last() == lines@[i as int]@);
        }
        if response.verbose {
            r.append("> ");
            r.append(lines[i].as_str());
            r.append("\n");
        } else {
            if i > 0 {
                r.append("\n");
            } else {
                assert(after =~= seq![all[0]]);
            }
            r.append(lines[i].as_str());
        }
        i += 1;
    }
    assert(all.subrange(0, lines.len() as int) =~= all);
    r
}

} // verus!
