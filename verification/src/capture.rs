use vstd::prelude::*;

verus! {

/// Which child pipe a captured line came from.
#[derive(Clone, Copy, PartialEq, Eq, Structural, Debug)]
pub enum StreamSource {
    Stdout,
    Stderr,
}

/// The tag a captured line is prefixed with, naming its stream of origin.
pub open spec fn spec_tag(source: StreamSource) -> Seq<char> {
    match source {
        StreamSource::Stdout => "[STDOUT] "@,
        StreamSource::Stderr => "[STDERR] "@,
    }
}

/// What one drain forwards to the log sink for the lines it has read: every
/// non-empty line, tagged with its stream of origin, in the order read; empty
/// lines are skipped.
pub open spec fn spec_captured(source: StreamSource, lines: Seq<Seq<char>>) -> Seq<Seq<char>>
    decreases lines.len(),
{
    if lines.len() == 0 {
        Seq::empty()
    } else {
        let rest = spec_captured(source, lines.drop_last());
        if lines.last().len() == 0 {
            rest
        } else {
            rest.push(spec_tag(source) + lines.last())
        }
    }
}

/// Order preservation within one stream: the forwarded lines of two batches
/// read back to back are the forwarded lines of the first batch followed by
/// those of the second. A drain therefore emits the non-empty lines of its own
/// pipe in exactly the order the child wrote them.
pub proof fn lemma_captured_append(source: StreamSource, a: Seq<Seq<char>>, b: Seq<Seq<char>>)
    ensures
        spec_captured(source, a + b) == spec_captured(source, a) + spec_captured(source, b),
    decreases b.len(),
{
    if b.len() == 0 {
        assert(a + b =~= a);
        assert(spec_captured(source, a) + spec_captured(source, b) =~= spec_captured(source, a));
    } else {
        lemma_captured_append(source, a, b.drop_last());
        assert((a + b).drop_last() =~= a + b.drop_last());
        assert((a + b).last() == b.last());
        if b.last().len() != 0 {
            assert((spec_captured(source, a) + spec_captured(source, b.drop_last())).push(
                spec_tag(source) + b.last(),
            ) =~= spec_captured(source, a) + spec_captured(source, b.drop_last()).push(
                spec_tag(source) + b.last(),
            ));
        }
    }
}

/// The non-empty lines of a stream, each tagged with the stream's origin, in
/// the stream's own order.
pub open spec fn spec_tagged_nonempty(source: StreamSource, lines: Seq<Seq<char>>) -> Seq<
    Seq<char>,
> {
    lines.filter(|l: Seq<char>| l.len() > 0).map_values(|l: Seq<char>| spec_tag(source) + l)
}

/// Completeness of one drain: what it forwards is exactly the non-empty lines
/// of its stream, each tagged with its origin, in the order the child wrote
/// them — no line is lost, none is invented, none is reordered.
pub proof fn lemma_captured_is_tagged_filter(source: StreamSource, lines: Seq<Seq<char>>)
    ensures
        spec_captured(source, lines) == spec_tagged_nonempty(source, lines),
    decreases lines.len(),
{
    reveal(Seq::filter);
    if lines.len() == 0 {
        assert(spec_tagged_nonempty(source, lines) =~= Seq::<Seq<char>>::empty());
    } else {
        lemma_captured_is_tagged_filter(source, lines.drop_last());
        if lines.last().len() == 0 {
            assert(spec_tagged_nonempty(source, lines) =~= spec_tagged_nonempty(
                source,
                lines.drop_last(),
            ));
        } else {
            assert(spec_tagged_nonempty(source, lines) =~= spec_tagged_nonempty(
                source,
                lines.drop_last(),
            ).push(spec_tag(source) + lines.last()));
        }
    }
}

/// Shapes one line read from a child pipe: an empty line is skipped, any other
/// is forwarded tagged with its stream of origin.
pub fn format_captured_line(source: StreamSource, line: &str) -> (r: Option<String>)
    ensures
        line@.len() == 0 ==> r is None,
        line@.len() > 0 ==> (r matches Some(s) && s@ == spec_tag(source) + line@),
{
    if line.unicode_len() == 0 {
        return None;
    }
    let mut s = match source {
        StreamSource::Stdout => "[STDOUT] ".to_owned(),
        StreamSource::Stderr => "[STDERR] ".to_owned(),
    };
    s.append(line);
    Some(s)
}

/// The effect of one whole drain, as data: the lines it forwards to the sink
/// for a stream that consisted of `lines` — exactly [`spec_captured`].
pub fn capture_lines(source: StreamSource, lines: &Vec<String>) -> (r: Vec<String>)
    ensures
        r.deep_view() == spec_captured(source, lines.deep_view()),
{
    let n = lines.len();
    let mut r: Vec<String> = Vec::new();
    let mut i: usize = 0;
    proof {
        assert(lines.deep_view().take(0) =~= Seq::<Seq<char>>::empty());
        assert(r.deep_view() =~= Seq::<Seq<char>>::empty());
    }
    while i < n
        invariant
            i <= n,
            n == lines@.len(),
            r.deep_view() == spec_captured(source, lines.deep_view().take(i as int)),
        decreases n - i,
    {
        let ghost pre = r.deep_view();
        match format_captured_line(source, &lines[i]) {
            Some(s) => {
                r.push(s);
                proof {
                    assert(r.deep_view() =~= pre.push(s@));
                }
            },
            None => {},
        }
        proof {
            let dv = lines.deep_view();
            assert(dv.take(i as int + 1).drop_last() =~= dv.take(i as int));
            assert(dv.take(i as int + 1).last() == dv[i as int]);
        }
        i = i + 1;
    }
    proof {
        assert(lines.deep_view().take(n as int) =~= lines.deep_view());
    }
    r
}

} // verus!
