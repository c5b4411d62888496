//! Markdown rendering: commit lines and the category sections that group them.
use vstd::prelude::*;
use vstd::string::*;
use crate::text::{capitalize, capitalized};

verus! {

/// A rendered commit: its category and its Markdown line.
pub type EntryView = (Seq<char>, Seq<char>);

/// `https://github.com/<org>/<repo>`.
pub open spec fn repo_url(org: Seq<char>, repo: Seq<char>) -> Seq<char> {
    "https://github.com/"@ + org + "/"@ + repo
}

/// Link to pull request `pr` of the repository.
pub open spec fn pr_link(org: Seq<char>, repo: Seq<char>, pr: Seq<char>) -> Seq<char> {
    repo_url(org, repo) + "/pull/"@ + pr
}

/// Link to commit `sha` of the repository.
pub open spec fn sha_link(org: Seq<char>, repo: Seq<char>, sha: Seq<char>) -> Seq<char> {
    repo_url(org, repo) + "/commit/"@ + sha
}

/// The first seven characters of a hash (all of it when shorter).
pub open spec fn short_sha(sha: Seq<char>) -> Seq<char> {
    if sha.len() <= 7 {
        sha
    } else {
        sha.take(7)
    }
}

/// `- <summary> ([#<pr>](<pr link>)) ([<short sha>](<sha link>))` and a newline.
pub open spec fn commit_line(
    summary: Seq<char>,
    pr: Seq<char>,
    sha: Seq<char>,
    org: Seq<char>,
    repo: Seq<char>,
) -> Seq<char> {
    "- "@ + summary + " ([#"@ + pr + "]("@ + pr_link(org, repo, pr) + ")) (["@ + short_sha(sha)
        + "]("@ + sha_link(org, repo, sha) + "))\n"@
}

/// The categories of the entries, in order.
pub open spec fn categories(es: Seq<EntryView>) -> Seq<Seq<char>> {
    Seq::new(es.len(), |i: int| es[i].0)
}

/// The distinct keys of `ks`, each at the place it first occurs.
pub open spec fn first_seen(ks: Seq<Seq<char>>) -> Seq<Seq<char>>
    decreases ks.len(),
{
    if ks.len() == 0 {
        Seq::empty()
    } else {
        let p = first_seen(ks.drop_last());
        if p.contains(ks.last()) {
            p
        } else {
            p.push(ks.last())
        }
    }
}

/// The lines of the entries of category `k`, in order, concatenated.
pub open spec fn lines_in(es: Seq<EntryView>, k: Seq<char>) -> Seq<char>
    decreases es.len(),
{
    if es.len() == 0 {
        Seq::empty()
    } else {
        lines_in(es.drop_last(), k) + if es.last().0 == k {
            es.last().1
        } else {
            Seq::empty()
        }
    }
}

/// A second-level heading `## <Category>`, a blank line, the lines, and a blank line.
pub open spec fn section(k: Seq<char>, lines: Seq<char>) -> Seq<char> {
    "## "@ + capitalized(k) + "\n\n"@ + lines + "\n"@
}

/// The sections for the keys `ks`, in order.
pub open spec fn sections(es: Seq<EntryView>, ks: Seq<Seq<char>>) -> Seq<char>
    decreases ks.len(),
{
    if ks.len() == 0 {
        Seq::empty()
    } else {
        sections(es, ks.drop_last()) + section(ks.last(), lines_in(es, ks.last()))
    }
}

/// The changelog body: one section per category, in first-seen order.
pub open spec fn body_text(es: Seq<EntryView>) -> Seq<char> {
    sections(es, first_seen(categories(es)))
}

/// The view of a list of (category, line) pairs.
pub open spec fn entries_view(entries: Seq<(String, String)>) -> Seq<EntryView> {
    Seq::new(entries.len(), |i: int| (entries[i].0@, entries[i].1@))
}

/// A key that occurs in `ks` occurs among its first-seen keys.
proof fn lemma_first_seen_covers(ks: Seq<Seq<char>>, k: Seq<char>)
    requires
        ks.contains(k),
    ensures
        first_seen(ks).contains(k),
    decreases ks.len(),
{
    let p = first_seen(ks.drop_last());
    if ks.last() != k {
        let m = choose|m: int| 0 <= m < ks.len() && ks[m] == k;
        assert(ks.drop_last()[m] == k);
        lemma_first_seen_covers(ks.drop_last(), k);
        let idx = choose|idx: int| 0 <= idx < p.len() && p[idx] == k;
        assert(first_seen(ks)[idx] == k);
    } else if !p.contains(k) {
        assert(first_seen(ks)[p.len() as int] == k);
    }
}

/// A category that no entry has collects no lines.
proof fn lemma_lines_in_absent(es: Seq<EntryView>, k: Seq<char>)
    requires
        forall|i: int| 0 <= i < es.len() ==> es[i].0 != k,
    ensures
        lines_in(es, k) == Seq::<char>::empty(),
    decreases es.len(),
{
    if es.len() > 0 {
        lemma_lines_in_absent(es.drop_last(), k);
        assert(lines_in(es, k) =~= Seq::<char>::empty());
    }
}

/// Renders (category, line) pairs as the changelog body: a section per category in the order
/// categories first occur, each holding the lines of its entries in their order.
pub fn render_body(entries: &Vec<(String, String)>) -> (r: String)
    ensures
        r@ == body_text(entries_view(entries@)),
{
    let ghost es = entries_view(entries@);
    let mut cats: Vec<String> = Vec::new();
    let mut texts: Vec<String> = Vec::new();
    let n = entries.len();
    let mut i: usize = 0;
    while i < n
        invariant
            n == entries@.len(),
            es == entries_view(entries@),
            i <= n,
            cats@.len() == texts@.len(),
            cats@.len() == first_seen(categories(es.take(i as int))).len(),
            forall|j: int| 0 <= j < cats@.len() ==> cats@[j]@ == first_seen(categories(es.take(i as int)))[j],
            forall|j: int| 0 <= j < cats@.len() ==> texts@[j]@ == lines_in(es.take(i as int), cats@[j]@),
            forall|a: int, b: int| 0 <= a < b < cats@.len() ==> cats@[a]@ != cats@[b]@,
        decreases n - i,
    {
        let ghost pre = es.take(i as int);
        let ghost post = es.take(i as int + 1);
        let ghost fs = first_seen(categories(pre));
        assert(post.drop_last() =~= pre);
        assert(categories(post).drop_last() =~= categories(pre));
        assert(categories(post).last() == es[i as int].0);
        let cat = &entries[i].0;
        let line = &entries[i].1;
        assert(post.last() == (cat@, line@));
        let mut j: usize = 0;
        while j < cats.len()
            invariant
                cats@.len() == texts@.len(),
                j <= cats@.len(),
                forall|m: int| 0 <= m < j ==> cats@[m]@ != cat@,
            ensures
                j <= cats@.len(),
                forall|m: int| 0 <= m < j ==> cats@[m]@ != cat@,
                j < cats@.len() ==> cats@[j as int]@ == cat@,
            decreases cats@.len() - j,
        {
            if cats[j] == *cat {
                break;
            }
            j = j + 1;
        }
        let found = j < cats.len();
        if found {
            assert(fs[j as int] == cat@);
            assert(fs.contains(cat@));
            assert(first_seen(categories(post)) == fs);
            let mut t = texts[j].clone();
            t.append(line.as_str());
            texts.set(j, t);
            assert forall|m: int| 0 <= m < cats@.len() implies texts@[m]@ == lines_in(
                post,
                cats@[m]@,
            ) by {
                if m != j {
                    assert(cats@[m]@ != cats@[j as int]@);
                }
            }
        } else {
            assert(!fs.contains(cat@)) by {
                if fs.contains(cat@) {
                    let m = choose|m: int| 0 <= m < fs.len() && fs[m] == cat@;
                    assert(cats@[m]@ == cat@);
                }
            }
            assert(forall|m: int| 0 <= m < pre.len() ==> pre[m].0 != cat@) by {
                assert forall|m: int| 0 <= m < pre.len() implies pre[m].0 != cat@ by {
                    if pre[m].0 == cat@ {
                        assert(categories(pre)[m] == cat@);
                        lemma_first_seen_covers(categories(pre), cat@);
                    }
                }
            }
            proof { lemma_lines_in_absent(pre, cat@); }
            assert(first_seen(categories(post)) == fs.push(cat@));
            assert forall|m: int| 0 <= m < cats@.len() implies texts@[m]@ == lines_in(
                post,
                cats@[m]@,
            ) by {
                assert(cats@[m]@ != cat@);
            }
            cats.push(cat.clone());
            texts.push(line.clone());
        }
        i = i + 1;
    }
    assert(es.take(n as int) =~= es);
    let ghost fs = first_seen(categories(es));
    let mut body = String::new();
    let mut k: usize = 0;
    while k < cats.len()
        invariant
            es == entries_view(entries@),
            cats@.len() == texts@.len(),
            cats@.len() == fs.len(),
            forall|j: int| 0 <= j < cats@.len() ==> cats@[j]@ == fs[j],
            forall|j: int| 0 <= j < cats@.len() ==> texts@[j]@ == lines_in(es, cats@[j]@),
            k <= cats@.len(),
            body@ == sections(es, fs.take(k as int)),
        decreases cats@.len() - k,
    {
        assert(fs.take(k as int + 1).drop_last() =~= fs.take(k as int));
        body.append("## ");
        let heading = capitalize(cats[k].as_str());
        body.append(heading.as_str());
        body.append("\n\n");
        body.append(texts[k].as_str());
        body.append("\n");
        assert(body@ =~= sections(es, fs.take(k as int + 1)));
        k = k + 1;
    }
    assert(fs.take(k as int) =~= fs);
    body
}

} // verus!
