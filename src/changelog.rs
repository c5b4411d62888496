//! From a commit history to a changelog section: the release boundary, the classification of
//! each commit message, and the assembly of header and body.
use vstd::prelude::*;
use vstd::string::*;
use crate::commit::Commit;
use crate::date::{LocalDate, date_text, format_date, local_today};
use crate::render::{EntryView, body_text, commit_line, pr_link, render_body, repo_url, sha_link, short_sha};
use crate::text::{all_digits, find_char, has_prefix, index_of, is_digit, last_index_of, rfind_char, starts_with};

verus! {

/// What a run is about: the repository, the changelog file and the version being released.
pub struct Args {
    pub org: String,
    pub repo: String,
    pub file_path: String,
    /// The version being released, `v<major>.<minor>.<patch>`.
    pub target_version: String,
    /// The branch or commit the history starts at.
    pub sha: String,
}

/// Why a commit message cannot be classified.
#[derive(Debug, Clone, Copy, PartialEq, Eq, Structural)]
pub enum ClassifyError {
    /// The message has no `:` after its type.
    MissingSeparator,
    /// The first line does not end in a space and a `(#<digits>)` token.
    MissingPrReference,
}

/// The first line of a commit message, split into its summary and its pull-request number.
pub struct CommitMessageParts {
    /// The bare pull-request number (the digits of the trailing `(#<digits>)`).
    pub pr_num: String,
    /// The words of the first line between its type token and its pull-request token.
    pub message: String,
}

/// The commit history that a changelog section is made from, newest first.
pub struct SanitizedInfo {
    pub commits: Vec<Commit>,
}

/// A commit that opens a release: its message begins with `chore(release)`.
pub open spec fn is_release_marker(m: Seq<char>) -> bool {
    starts_with(m, "chore(release)"@)
}

/// Index of the newest release commit, or the length of the history when there is none.
pub open spec fn release_boundary(cs: Seq<Commit>) -> int {
    if exists|i: int|
        0 <= i < cs.len() && is_release_marker(cs[i].message()) && forall|j: int|
            0 <= j < i ==> !is_release_marker(cs[j].message())
    {
        choose|i: int|
            0 <= i < cs.len() && is_release_marker(cs[i].message()) && forall|j: int|
                0 <= j < i ==> !is_release_marker(cs[j].message())
    } else {
        cs.len() as int
    }
}

/// The commits made since the last release: those before the first release commit.
pub open spec fn since_release(cs: Seq<Commit>) -> Seq<Commit> {
    cs.take(release_boundary(cs))
}

/// The first line of a message, without a trailing carriage return.
pub open spec fn first_line(m: Seq<char>) -> Seq<char> {
    let l = m.take(index_of(m, '\n'));
    if l.len() > 0 && l.last() == '\r' {
        l.drop_last()
    } else {
        l
    }
}

/// The message has a `:` that ends its type.
pub open spec fn has_separator(m: Seq<char>) -> bool {
    index_of(m, ':') < m.len()
}

/// The text before the first `:`, cut at its first `(`: `feat` for `feat(api): ...`.
pub open spec fn category_of(m: Seq<char>) -> Seq<char> {
    let t = m.take(index_of(m, ':'));
    t.take(index_of(t, '('))
}

/// `(#<digits>)` with at least one digit.
pub open spec fn is_pr_token(t: Seq<char>) -> bool {
    &&& t.len() >= 4
    &&& t[0] == '('
    &&& t[1] == '#'
    &&& t[t.len() - 1] == ')'
    &&& forall|i: int| 2 <= i < t.len() - 1 ==> is_digit(#[trigger] t[i])
}

/// The text after the last space of a line.
pub open spec fn pr_token_of(l: Seq<char>) -> Seq<char> {
    l.subrange(last_index_of(l, ' ') + 1, l.len() as int)
}

/// The first line ends in a space and a `(#<digits>)` token.
pub open spec fn has_pr_reference(m: Seq<char>) -> bool {
    let l = first_line(m);
    last_index_of(l, ' ') >= 0 && is_pr_token(pr_token_of(l))
}

/// The words of the first line between its type token and its pull-request token: the text
/// between the first and the last space (empty when they are the same space).
pub open spec fn summary_of(m: Seq<char>) -> Seq<char> {
    let l = first_line(m);
    let first = index_of(l, ' ');
    let last = last_index_of(l, ' ');
    if first < last {
        l.subrange(first + 1, last)
    } else {
        Seq::empty()
    }
}

/// The digits of the trailing `(#<digits>)` token.
pub open spec fn pr_number_of(m: Seq<char>) -> Seq<char> {
    let t = pr_token_of(first_line(m));
    t.subrange(2, t.len() - 1)
}

/// The message can be classified.
pub open spec fn classifies(m: Seq<char>) -> bool {
    has_separator(m) && has_pr_reference(m)
}

/// Why a message that does not classify fails: the separator is looked for first.
pub open spec fn error_of(m: Seq<char>) -> ClassifyError {
    if !has_separator(m) {
        ClassifyError::MissingSeparator
    } else {
        ClassifyError::MissingPrReference
    }
}

/// Commit `i` is the first of `cs` that does not classify.
pub open spec fn fails_first_at(cs: Seq<Commit>, i: int) -> bool {
    &&& 0 <= i < cs.len()
    &&& !classifies(cs[i].message())
    &&& forall|j: int| 0 <= j < i ==> classifies(cs[j].message())
}

/// The category and the rendered line of a commit.
pub open spec fn entry_of(c: Commit, org: Seq<char>, repo: Seq<char>) -> EntryView {
    let m = c.message();
    (category_of(m), commit_line(summary_of(m), pr_number_of(m), c.sha@, org, repo))
}

/// The entries of a list of commits.
pub open spec fn entries_of(cs: Seq<Commit>, org: Seq<char>, repo: Seq<char>) -> Seq<EntryView> {
    Seq::new(cs.len(), |i: int| entry_of(cs[i], org, repo))
}

/// A version without its leading `v`.
pub open spec fn version_number(v: Seq<char>) -> Seq<char> {
    if v.len() > 0 && v[0] == 'v' {
        v.drop_first()
    } else {
        v
    }
}

/// `\n## [<version>](<repo url>/compare/<previous tag>..<target>)(<date>)\n`.
pub open spec fn header_text(tag: Seq<char>, args: Args, d: LocalDate) -> Seq<char> {
    "\n## ["@ + version_number(args.target_version@) + "]("@ + repo_url(args.org@, args.repo@)
        + "/compare/"@ + tag + ".."@ + args.target_version@ + ")("@ + date_text(d) + ")\n"@
}

/// Header, a newline, and body.
pub open spec fn merged(header: Seq<char>, body: Seq<char>) -> Seq<char> {
    header + "\n"@ + body
}

/// The changelog section for the commits `cs`, dated `d`.
pub open spec fn changelog_text(cs: Seq<Commit>, tag: Seq<char>, args: Args, d: LocalDate) -> Seq<
    char,
> {
    merged(header_text(tag, args, d), body_text(entries_of(cs, args.org@, args.repo@)))
}

/// Renders the release header for the previous tag `tag_name`, dated `date`.
pub fn release_header(tag_name: &String, args: &Args, date: &LocalDate) -> (r: String)
    ensures
        r@ == header_text(tag_name@, *args, *date),
{
    let t = args.target_version.as_str();
    let n = t.unicode_len();
    let version = if n > 0 && t.get_char(0) == 'v' {
        t.substring_char(1, n)
    } else {
        t
    };
    assert(version@ =~= version_number(t@));
    let mut r = String::new();
    r.append("\n## [");
    r.append(version);
    r.append("](");
    r.append("https://github.com/");
    r.append(args.org.as_str());
    r.append("/");
    r.append(args.repo.as_str());
    r.append("/compare/");
    r.append(tag_name.as_str());
    r.append("..");
    r.append(t);
    r.append(")(");
    let day = format_date(date);
    r.append(day.as_str());
    r.append(")\n");
    assert(r@ =~= header_text(tag_name@, *args, *date));
    r
}

impl SanitizedInfo {
    /// Keeps only the commits before the newest release commit (all of them when there is none).
    pub fn extract_commits(&mut self)
        ensures
            final(self).commits@ == since_release(old(self).commits@),
    {
        let ghost cs = self.commits@;
        let n = self.commits.len();
        let mut i: usize = 0;
        while i < n
            invariant
                cs == self.commits@,
                n == cs.len(),
                i <= n,
                forall|j: int| 0 <= j < i ==> !is_release_marker(cs[j].message()),
            ensures
                i <= n,
                forall|j: int| 0 <= j < i ==> !is_release_marker(cs[j].message()),
                i < n ==> is_release_marker(cs[i as int].message()),
            decreases n - i,
        {
            if has_prefix(self.commits[i].commit.message.as_str(), "chore(release)") {
                break;
            }
            i = i + 1;
        }
        assert(release_boundary(cs) == i as int) by {
            if i < n {
                assert(forall|k: int|
                    0 <= k < cs.len() && is_release_marker(cs[k].message()) && (forall|j: int|
                        0 <= j < k ==> !is_release_marker(cs[j].message())) ==> k == i);
            }
        }
        self.commits.truncate(i);
        assert(self.commits@ =~= since_release(cs));
    }

    /// The category of a commit: the text before the first `:`, cut at its first `(`.
    pub fn extract_prefix(&self, c: &Commit) -> (r: Result<String, ClassifyError>)
        ensures
            match r {
                Ok(p) => has_separator(c.message()) && p@ == category_of(c.message()),
                Err(e) => !has_separator(c.message()) && e == ClassifyError::MissingSeparator,
            },
    {
        let m = c.commit.message.as_str();
        let colon = find_char(m, ':');
        if colon == m.unicode_len() {
            return Err(ClassifyError::MissingSeparator);
        }
        let t = m.substring_char(0, colon);
        let paren = find_char(t, '(');
        Ok(String::from_str(t.substring_char(0, paren)))
    }

    /// Splits the first line of a commit message into its summary and the number of the
    /// trailing `(#<digits>)` token.
    pub fn extract_message_parts(&self, c: &Commit) -> (r: Result<CommitMessageParts, ClassifyError>)
        ensures
            match r {
                Ok(p) => {
                    &&& has_pr_reference(c.message())
                    &&& p.message@ == summary_of(c.message())
                    &&& p.pr_num@ == pr_number_of(c.message())
                },
                Err(e) => !has_pr_reference(c.message()) && e == ClassifyError::MissingPrReference,
            },
    {
        let m = c.commit.message.as_str();
        let nl = find_char(m, '\n');
        let l0 = m.substring_char(0, nl);
        let n0 = l0.unicode_len();
        let line = if n0 > 0 && l0.get_char(n0 - 1) == '\r' {
            l0.substring_char(0, n0 - 1)
        } else {
            l0
        };
        assert(line@ =~= first_line(m@));
        let n = line.unicode_len();
        match rfind_char(line, ' ') {
            None => Err(ClassifyError::MissingPrReference),
            Some(sp) => {
                let tok = line.substring_char(sp + 1, n);
                assert(tok@ =~= pr_token_of(line@));
                let k = tok.unicode_len();
                if k < 4 || tok.get_char(0) != '(' || tok.get_char(1) != '#' || tok.get_char(k - 1)
                    != ')' {
                    return Err(ClassifyError::MissingPrReference);
                }
                let digits = tok.substring_char(2, k - 1);
                if !all_digits(digits) {
                    assert(!is_pr_token(tok@)) by {
                        let i = choose|i: int| 0 <= i < digits@.len() && !is_digit(#[trigger] digits@[i]);
                        assert(tok@[i + 2] == digits@[i]);
                    }
                    return Err(ClassifyError::MissingPrReference);
                }
                assert forall|i: int| 2 <= i < tok@.len() - 1 implies is_digit(#[trigger] tok@[i]) by {
                    assert(digits@[i - 2] == tok@[i]);
                }
                let first = find_char(line, ' ');
                let summary = if first < sp {
                    String::from_str(line.substring_char(first + 1, sp))
                } else {
                    String::new()
                };
                Ok(CommitMessageParts { pr_num: String::from_str(digits), message: summary })
            },
        }
    }

    /// Link to pull request `pr_num` (bare digits) of the repository.
    pub fn create_pr_link(&self, args: &Args, pr_num: &String) -> (r: String)
        ensures
            r@ == pr_link(args.org@, args.repo@, pr_num@),
    {
        let mut r = String::new();
        r.append("https://github.com/");
        r.append(args.org.as_str());
        r.append("/");
        r.append(args.repo.as_str());
        r.append("/pull/");
        r.append(pr_num.as_str());
        assert(r@ =~= pr_link(args.org@, args.repo@, pr_num@));
        r
    }

    /// Link to commit `sha` of the repository.
    pub fn create_sha_link(&self, args: &Args, sha: &String) -> (r: String)
        ensures
            r@ == sha_link(args.org@, args.repo@, sha@),
    {
        let mut r = String::new();
        r.append("https://github.com/");
        r.append(args.org.as_str());
        r.append("/");
        r.append(args.repo.as_str());
        r.append("/commit/");
        r.append(sha.as_str());
        assert(r@ =~= sha_link(args.org@, args.repo@, sha@));
        r
    }

    /// The Markdown line of a commit, linking its pull request and its hash.
    pub fn create_commit(&self, args: &Args, m_parts: &CommitMessageParts, c: &Commit) -> (r: String)
        ensures
            r@ == commit_line(m_parts.message@, m_parts.pr_num@, c.sha@, args.org@, args.repo@),
    {
        let pr_link = self.create_pr_link(args, &m_parts.pr_num);
        let sha_link = self.create_sha_link(args, &c.sha);
        let sha = c.sha.as_str();
        let n = sha.unicode_len();
        let short = if n <= 7 {
            sha
        } else {
            sha.substring_char(0, 7)
        };
        assert(short@ =~= short_sha(c.sha@));
        let mut r = String::new();
        r.append("- ");
        r.append(m_parts.message.as_str());
        r.append(" ([#");
        r.append(m_parts.pr_num.as_str());
        r.append("](");
        r.append(pr_link.as_str());
        r.append(")) ([");
        r.append(short);
        r.append("](");
        r.append(sha_link.as_str());
        r.append("))\n");
        assert(r@ =~= commit_line(m_parts.message@, m_parts.pr_num@, c.sha@, args.org@, args.repo@));
        r
    }

    /// The header, a newline, and the body.
    pub fn merge_changelog_contents(&self, header: &String, body: &String) -> (r: String)
        ensures
            r@ == merged(header@, body@),
    {
        let mut r = header.clone();
        r.append("\n");
        r.append(body.as_str());
        r
    }

    /// The release header for the previous tag `tag_name`, dated today.
    pub fn create_release_header(&self, tag_name: &String, args: &Args) -> (r: String)
        ensures
            exists|d: LocalDate| d.wf() && r@ == header_text(tag_name@, *args, d),
    {
        let date = local_today();
        release_header(tag_name, args, &date)
    }

    /// The changelog section for all of `self.commits`, dated `date`; fails with the error of
    /// the first commit whose message does not classify.
    pub fn render_changelog(&self, args: &Args, tag_name: &String, date: &LocalDate) -> (r: Result<
        String,
        ClassifyError,
    >)
        ensures
            match r {
                Ok(s) => {
                    &&& forall|i: int|
                        0 <= i < self.commits@.len() ==> classifies(
                            #[trigger] self.commits@[i].message(),
                        )
                    &&& s@ == changelog_text(self.commits@, tag_name@, *args, *date)
                },
                Err(e) => exists|i: int|
                    fails_first_at(self.commits@, i) && e == error_of(
                        #[trigger] self.commits@[i].message(),
                    ),
            },
    {
        let ghost cs = self.commits@;
        let ghost org = args.org@;
        let ghost repo = args.repo@;
        let mut entries: Vec<(String, String)> = Vec::new();
        let n = self.commits.len();
        let mut i: usize = 0;
        while i < n
            invariant
                cs == self.commits@,
                n == cs.len(),
                i <= n,
                org == args.org@,
                repo == args.repo@,
                forall|j: int| 0 <= j < i ==> classifies(#[trigger] cs[j].message()),
                entries@.len() == i,
                forall|j: int|
                    0 <= j < i ==> (#[trigger] entries@[j]).0@ == entry_of(cs[j], org, repo).0
                        && entries@[j].1@ == entry_of(cs[j], org, repo).1,
            decreases n - i,
        {
            let c = &self.commits[i];
            let prefix = match self.extract_prefix(c) {
                Ok(p) => p,
                Err(e) => {
                    assert(fails_first_at(cs, i as int));
                    return Err(e);
                },
            };
            let parts = match self.extract_message_parts(c) {
                Ok(p) => p,
                Err(e) => {
                    assert(fails_first_at(cs, i as int));
                    return Err(e);
                },
            };
            let line = self.create_commit(args, &parts, c);
            entries.push((prefix, line));
            i = i + 1;
        }
        let body = render_body(&entries);
        assert(crate::render::entries_view(entries@) =~= entries_of(cs, org, repo));
        let header = release_header(tag_name, args, date);
        Ok(self.merge_changelog_contents(&header, &body))
    }

    /// Drops the commits from the last release on, then renders the changelog section for the
    /// rest, dated today.
    pub fn create_changelog_contents(&mut self, args: &Args, tag_name: &String) -> (r: Result<
        String,
        ClassifyError,
    >)
        ensures
            final(self).commits@ == since_release(old(self).commits@),
            match r {
                Ok(s) => {
                    &&& forall|i: int|
                        0 <= i < final(self).commits@.len() ==> classifies(
                            #[trigger] final(self).commits@[i].message(),
                        )
                    &&& exists|d: LocalDate|
                        d.wf() && s@ == changelog_text(final(self).commits@, tag_name@, *args, d)
                },
                Err(e) => exists|i: int|
                    fails_first_at(final(self).commits@, i) && e == error_of(
                        #[trigger] final(self).commits@[i].message(),
                    ),
            },
    {
        self.extract_commits();
        let date = local_today();
        self.render_changelog(args, tag_name, &date)
    }
}

/// Without a release commit the whole history is kept, in order.
pub proof fn lemma_no_marker_keeps_all(cs: Seq<Commit>)
    requires
        forall|i: int| 0 <= i < cs.len() ==> !is_release_marker(#[trigger] cs[i].message()),
    ensures
        since_release(cs) == cs,
{
    assert(cs.take(cs.len() as int) =~= cs);
}

/// With exactly one release commit, at index `k`, exactly the `k` commits before it are kept.
pub proof fn lemma_single_marker_cut(cs: Seq<Commit>, k: int)
    requires
        0 <= k < cs.len(),
        is_release_marker(cs[k].message()),
        forall|i: int| 0 <= i < cs.len() && i != k ==> !is_release_marker(#[trigger] cs[i].message()),
    ensures
        since_release(cs) == cs.take(k),
{
    assert(forall|m: int|
        0 <= m < cs.len() && is_release_marker(cs[m].message()) && (forall|j: int|
            0 <= j < m ==> !is_release_marker(cs[j].message())) ==> m == k);
}

/// Rendering is a function of what is rendered: the same commits, context and date always give
/// the same changelog section.
pub proof fn lemma_rendering_is_deterministic(
    a: Seq<Commit>,
    b: Seq<Commit>,
    tag: Seq<char>,
    args: Args,
    d: LocalDate,
)
    requires
        a.len() == b.len(),
        forall|i: int|
            0 <= i < a.len() ==> (#[trigger] a[i]).sha@ == b[i].sha@ && a[i].message() == b[i].message(),
    ensures
        changelog_text(a, tag, args, d) == changelog_text(b, tag, args, d),
{
    assert(entries_of(a, args.org@, args.repo@) =~= entries_of(b, args.org@, args.repo@));
}

} // verus!
