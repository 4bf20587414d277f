//! The line store: a note file modeled as an ordered sequence of lines.
//!
//! A document on disk is newline-delimited UTF-8 text. In memory it is a
//! `Vec<String>` of lines without their terminators. Splitting, joining,
//! single-line replacement and the prefix styling convention (`~` struck,
//! `*` emphasized) all live here as pure functions; reading and writing the
//! bytes is the caller's business.

use vstd::prelude::*;

verus! {

/// Presentation class of a line, derived from its first character and never
/// stored separately from the text.
#[derive(Clone, Copy, Debug, PartialEq, Eq, Structural)]
pub enum LineStyle {
    /// The line begins with `~`: rendered struck through ("done").
    Struck,
    /// The line begins with `*`: rendered emphasized ("important").
    Emphasized,
    /// Anything else, including the empty line.
    Plain,
}

/// The style a line classifies as: `~` strikes, `*` emphasizes, everything
/// else (the empty line included) is plain.
pub open spec fn style_spec(line: Seq<char>) -> LineStyle {
    if line.len() == 0 {
        LineStyle::Plain
    } else if line[0] == '~' {
        LineStyle::Struck
    } else if line[0] == '*' {
        LineStyle::Emphasized
    } else {
        LineStyle::Plain
    }
}

/// Classify a line by its first character.
pub fn style_of(line: &str) -> (r: LineStyle)
    ensures
        r == style_spec(line@),
{
    if line.unicode_len() == 0 {
        LineStyle::Plain
    } else {
        let c = line.get_char(0);
        if c == '~' {
            LineStyle::Struck
        } else if c == '*' {
            LineStyle::Emphasized
        } else {
            LineStyle::Plain
        }
    }
}

/// A stored line carries no terminator of its own.
pub open spec fn line_ok(line: Seq<char>) -> bool {
    forall|k: int| 0 <= k < line.len() ==> line[k] != '\n'
}

/// Lines of a document text, split at `'\n'`. Every terminator is dropped;
/// a final line without a terminator still counts, a trailing terminator
/// does not open an extra empty line.
pub open spec fn split_lines_spec(text: Seq<char>) -> Seq<Seq<char>>
    decreases text.len(),
{
    if text.len() == 0 {
        Seq::empty()
    } else if text[0] == '\n' {
        seq![Seq::<char>::empty()] + split_lines_spec(text.drop_first())
    } else {
        let rest = split_lines_spec(text.drop_first());
        if rest.len() == 0 {
            seq![seq![text[0]]]
        } else {
            seq![seq![text[0]] + rest[0]] + rest.drop_first()
        }
    }
}

/// Document text of a line sequence: every line, the last included, is
/// followed by one `'\n'`.
pub open spec fn join_lines_spec(lines: Seq<Seq<char>>) -> Seq<char>
    decreases lines.len(),
{
    if lines.len() == 0 {
        Seq::empty()
    } else {
        lines[0] + seq!['\n'] + join_lines_spec(lines.drop_first())
    }
}

/// Splitting text that starts with one terminator-free line and its `'\n'`
/// yields that line followed by the split of the remainder.
proof fn lemma_split_line_prefix(a: Seq<char>, b: Seq<char>)
    requires
        line_ok(a),
    ensures
        split_lines_spec(a + seq!['\n'] + b) == seq![a] + split_lines_spec(b),
    decreases a.len(),
{
    let t = a + seq!['\n'] + b;
    if a.len() == 0 {
        assert(t[0] == '\n');
        assert(t.drop_first() =~= b);
        assert(a =~= Seq::<char>::empty());
        assert(seq![Seq::<char>::empty()] =~= seq![a]);
        assert(split_lines_spec(t) =~= seq![a] + split_lines_spec(b));
    } else {
        assert(t[0] == a[0]);
        assert(a[0] != '\n');
        assert(t.drop_first() =~= a.drop_first() + seq!['\n'] + b);
        assert(line_ok(a.drop_first()));
        lemma_split_line_prefix(a.drop_first(), b);
        let rest = split_lines_spec(t.drop_first());
        assert(rest == seq![a.drop_first()] + split_lines_spec(b));
        assert(rest[0] == a.drop_first());
        assert(seq![t[0]] + rest[0] =~= a);
        assert(rest.drop_first() =~= split_lines_spec(b));
        assert(split_lines_spec(t) =~= seq![a] + split_lines_spec(b));
    }
}

/// Terminator-free nonempty text splits into exactly itself.
proof fn lemma_split_single(a: Seq<char>)
    requires
        line_ok(a),
        a.len() > 0,
    ensures
        split_lines_spec(a) == seq![a],
    decreases a.len(),
{
    assert(a[0] != '\n');
    if a.len() == 1 {
        assert(a.drop_first() =~= Seq::<char>::empty());
        assert(split_lines_spec(Seq::<char>::empty()) == Seq::<Seq<char>>::empty());
        assert(seq![a[0]] =~= a);
        assert(split_lines_spec(a) =~= seq![a]);
    } else {
        assert(line_ok(a.drop_first()));
        lemma_split_single(a.drop_first());
        let rest = split_lines_spec(a.drop_first());
        assert(rest[0] == a.drop_first());
        assert(seq![a[0]] + a.drop_first() =~= a);
        assert(rest.drop_first() =~= Seq::<Seq<char>>::empty());
        assert(split_lines_spec(a) =~= seq![a]);
    }
}

/// Joining one more line appends it and one terminator.
proof fn lemma_join_snoc(lines: Seq<Seq<char>>, x: Seq<char>)
    ensures
        join_lines_spec(lines.push(x)) == join_lines_spec(lines) + x + seq!['\n'],
    decreases lines.len(),
{
    if lines.len() == 0 {
        assert(lines.push(x)[0] == x);
        assert(lines.push(x).drop_first() =~= Seq::<Seq<char>>::empty());
        assert(join_lines_spec(Seq::<Seq<char>>::empty()) == Seq::<char>::empty());
        assert(join_lines_spec(lines.push(x)) =~= join_lines_spec(lines) + x + seq!['\n']);
    } else {
        let l0 = lines[0];
        let rest = lines.drop_first();
        lemma_join_snoc(rest, x);
        assert(lines.push(x)[0] == l0);
        assert(lines.push(x).drop_first() =~= rest.push(x));
        assert(join_lines_spec(lines.push(x)) == l0 + seq!['\n'] + join_lines_spec(
            rest.push(x),
        ));
        assert(l0 + seq!['\n'] + (join_lines_spec(rest) + x + seq!['\n']) =~= l0 + seq!['\n']
            + join_lines_spec(rest) + x + seq!['\n']);
    }
}

/// Law: serializing a document of terminator-free lines and parsing the
/// result restores the document exactly.
pub proof fn lemma_split_join(lines: Seq<Seq<char>>)
    requires
        forall|i: int| 0 <= i < lines.len() ==> line_ok(#[trigger] lines[i]),
    ensures
        split_lines_spec(join_lines_spec(lines)) == lines,
    decreases lines.len(),
{
    if lines.len() == 0 {
        assert(split_lines_spec(join_lines_spec(lines)) =~= lines);
    } else {
        assert(forall|i: int|
            0 <= i < lines.drop_first().len() ==> line_ok(#[trigger] lines.drop_first()[i]));
        lemma_split_join(lines.drop_first());
        lemma_split_line_prefix(lines[0], join_lines_spec(lines.drop_first()));
        assert(split_lines_spec(join_lines_spec(lines)) =~= seq![lines[0]] + lines.drop_first());
        assert(seq![lines[0]] + lines.drop_first() =~= lines);
    }
}

/// Law: replacing line `k` of a document, serializing, and parsing the result
/// yields the original line sequence with exactly line `k` changed: same
/// length, `k` now the new text, every other index untouched.
pub proof fn lemma_edit_round_trip(lines: Seq<Seq<char>>, k: int, x: Seq<char>)
    requires
        0 <= k < lines.len(),
        forall|i: int| 0 <= i < lines.len() ==> line_ok(#[trigger] lines[i]),
        line_ok(x),
    ensures
        split_lines_spec(join_lines_spec(lines.update(k, x))) == lines.update(k, x),
        split_lines_spec(join_lines_spec(lines.update(k, x))).len() == lines.len(),
        split_lines_spec(join_lines_spec(lines.update(k, x)))[k] == x,
        forall|j: int|
            0 <= j < lines.len() && j != k
                ==> split_lines_spec(join_lines_spec(lines.update(k, x)))[j] == lines[j],
{
    let updated = lines.update(k, x);
    assert(forall|i: int| 0 <= i < updated.len() ==> line_ok(#[trigger] updated[i]));
    lemma_split_join(updated);
}

/// Split document text into its lines.
pub fn split_lines(text: &str) -> (r: Vec<String>)
    ensures
        r.deep_view() == split_lines_spec(text@),
{
    let n: usize = text.unicode_len();
    let mut out: Vec<String> = Vec::new();
    let mut start: usize = 0;
    let mut i: usize = 0;
    proof {
        assert(text@.skip(0) =~= text@);
        assert(out.deep_view() + split_lines_spec(text@) =~= split_lines_spec(text@));
    }
    while i < n
        invariant
            start <= i <= n,
            n == text@.len(),
            forall|k: int| start <= k < i ==> text@[k] != '\n',
            split_lines_spec(text@) == out.deep_view() + split_lines_spec(
                text@.skip(start as int),
            ),
        decreases n - i,
    {
        let c = text.get_char(i);
        if c == '\n' {
            let seg = text.substring_char(start, i);
            let ghost pre = out.deep_view();
            out.push(String::from_str(seg));
            proof {
                assert(out.deep_view() =~= pre.push(seg@));
                assert(text@.skip(start as int) =~= text@.subrange(start as int, i as int)
                    + seq!['\n'] + text@.skip(i + 1));
                lemma_split_line_prefix(
                    text@.subrange(start as int, i as int),
                    text@.skip(i + 1),
                );
                assert(pre + (seq![seg@] + split_lines_spec(text@.skip(i + 1)))
                    =~= out.deep_view() + split_lines_spec(text@.skip(i + 1)));
            }
            start = i + 1;
        }
        i = i + 1;
    }
    if start < n {
        let seg = text.substring_char(start, n);
        let ghost pre = out.deep_view();
        out.push(String::from_str(seg));
        proof {
            assert(out.deep_view() =~= pre.push(seg@));
            assert(text@.skip(start as int) =~= seg@);
            lemma_split_single(seg@);
            assert(pre + seq![seg@] =~= out.deep_view());
            assert(out.deep_view() + split_lines_spec(Seq::<char>::empty())
                =~= out.deep_view());
            assert(text@.skip(n as int) =~= Seq::<char>::empty());
        }
    } else {
        proof {
            assert(text@.skip(start as int) =~= Seq::<char>::empty());
            assert(out.deep_view() + split_lines_spec(Seq::<char>::empty())
                =~= out.deep_view());
        }
    }
    out
}

/// Serialize lines back into document text, one `'\n'` after every line.
pub fn join_lines(lines: &Vec<String>) -> (r: String)
    ensures
        r@ == join_lines_spec(lines.deep_view()),
{
    let ghost all = lines.deep_view();
    let mut r = String::new();
    proof {
        assert(all.take(0) =~= Seq::<Seq<char>>::empty());
    }
    let mut i: usize = 0;
    while i < lines.len()
        invariant
            i <= lines.len(),
            all == lines.deep_view(),
            r@ == join_lines_spec(all.take(i as int)),
        decreases lines.len() - i,
    {
        r.append(lines[i].as_str());
        r.append("\n");
        proof {
            reveal_strlit("\n");
            assert("\n"@ =~= seq!['\n']);
            assert(all[i as int] == lines@[i as int]@);
            lemma_join_snoc(all.take(i as int), all[i as int]);
            assert(all.take(i + 1) =~= all.take(i as int).push(all[i as int]));
        }
        i = i + 1;
    }
    proof {
        assert(all.take(lines.len() as int) =~= all);
    }
    r
}

/// Lines of a note file, from the outcome of reading it whole: an unreadable
/// file (`None`) degrades to a document of zero lines instead of failing.
pub fn parse_notes_file(content: Option<&str>) -> (r: Vec<String>)
    ensures
        content matches Some(text) ==> r.deep_view() == split_lines_spec(text@),
        content is None ==> r.deep_view() == Seq::<Seq<char>>::empty(),
{
    match content {
        Some(text) => split_lines(text),
        None => {
            let r: Vec<String> = Vec::new();
            proof {
                assert(r.deep_view() =~= Seq::<Seq<char>>::empty());
            }
            r
        },
    }
}

/// New document text with line `line_number` of `content` replaced by
/// `line`, or `None` when the document has no such line.
pub fn edit_note(content: &str, line: &str, line_number: usize) -> (r: Option<String>)
    ensures
        line_number < split_lines_spec(content@).len() ==> (r matches Some(out) && out@
            == join_lines_spec(split_lines_spec(content@).update(line_number as int, line@))),
        line_number >= split_lines_spec(content@).len() ==> r is None,
{
    let mut lines = split_lines(content);
    if line_number >= lines.len() {
        None
    } else {
        lines.set(line_number, String::from_str(line));
        proof {
            assert(lines.deep_view() =~= split_lines_spec(content@).update(
                line_number as int,
                line@,
            ));
        }
        Some(join_lines(&lines))
    }
}

/// The line with its first character removed; the empty line stays empty.
/// Presentation contexts that strip the styling prefix use this.
pub fn drop_first(s: String) -> (r: String)
    ensures
        s@.len() == 0 ==> r@ == s@,
        s@.len() > 0 ==> r@ == s@.drop_first(),
{
    let n: usize = s.as_str().unicode_len();
    if n == 0 {
        s
    } else {
        String::from_str(s.as_str().substring_char(1, n))
    }
}

} // verus!
