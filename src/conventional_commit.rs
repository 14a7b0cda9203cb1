use vstd::prelude::*;
use vstd::string::*;
use crate::bump_type::BumpType;
use crate::text::{
    alphabetic, chars_of, contains_run, contains_seq, find_char, index_from, is_alphabetic,
    lemma_index_from, opt_view, owned, replace_all, same_text, replaced, trim, trimmed,
};

verus! {

/// Why a message is not a conventional commit.
#[derive(Debug, Clone, Copy, PartialEq, Eq, Structural)]
pub enum ParseError {
    /// The header has no `:`.
    MissingSeparator,
    /// The header opens a scope with `(` and never closes it.
    UnclosedScope,
}

/// What a parsed message holds, as character sequences.
pub struct CommitModel {
    pub commit_type: Seq<char>,
    pub scope: Option<Seq<char>>,
    pub description: Seq<char>,
    pub body: Option<Seq<char>>,
    pub footer: Option<Seq<char>>,
    pub breaking_change: bool,
}

/// A commit message read as `type(scope)!: description`, then body and footer.
#[derive(Debug, Clone, PartialEq)]
pub struct ConventionalCommit {
    pub commit_type: String,
    pub scope: Option<String>,
    pub description: String,
    pub body: Option<String>,
    pub footer: Option<String>,
    pub breaking_change: bool,
}

impl View for ConventionalCommit {
    type V = CommitModel;

    open spec fn view(&self) -> CommitModel {
        CommitModel {
            commit_type: self.commit_type@,
            scope: opt_view(self.scope),
            description: self.description@,
            body: opt_view(self.body),
            footer: opt_view(self.footer),
            breaking_change: self.breaking_change,
        }
    }
}

/// The text `BREAKING CHANGE:`.
pub open spec fn breaking_marker() -> Seq<char> {
    seq!['B', 'R', 'E', 'A', 'K', 'I', 'N', 'G', ' ', 'C', 'H', 'A', 'N', 'G', 'E', ':']
}

/// The first line of a message.
pub open spec fn header_of(m: Seq<char>) -> Seq<char> {
    m.take(index_from(m, '\n', 0))
}

/// A letter or a dash, what a footer token is made of.
pub open spec fn token_char(c: char) -> bool {
    alphabetic(c) || c == '-'
}

/// The line opens with a token of letters and dashes immediately followed by `:`.
pub open spec fn token_colon(line: Seq<char>) -> bool {
    exists|k: int|
        1 <= k < line.len() && #[trigger] line[k] == ':' && forall|j: int|
            0 <= j < k ==> token_char(#[trigger] line[j])
}

/// A line that switches to the footer: it holds `BREAKING CHANGE:`, or it opens
/// with a token followed by `:`.
pub open spec fn opens_footer(line: Seq<char>) -> bool {
    contains_seq(line, breaking_marker()) || token_colon(line)
}

/// `line` added to the lines gathered so far, joined by newlines.
pub open spec fn add_line(acc: Option<Seq<char>>, line: Seq<char>) -> Option<Seq<char>> {
    match acc {
        Some(t) => Some(t + seq!['\n'] + line),
        None => Some(line),
    }
}

/// The state (in footer, body, footer) after one more line: blank lines are
/// skipped, and once in the footer every later line stays there.
pub open spec fn next_sections(
    st: (bool, Option<Seq<char>>, Option<Seq<char>>),
    line: Seq<char>,
) -> (bool, Option<Seq<char>>, Option<Seq<char>>) {
    if trimmed(line).len() == 0 {
        st
    } else if st.0 || opens_footer(line) {
        (true, st.1, add_line(st.2, line))
    } else {
        (false, add_line(st.1, line), st.2)
    }
}

/// The state after the lines of `m` from `start`, where the line being read
/// began at `start` and the characters before `pos` have been seen.
pub open spec fn sections(
    m: Seq<char>,
    start: int,
    pos: int,
    st: (bool, Option<Seq<char>>, Option<Seq<char>>),
) -> (bool, Option<Seq<char>>, Option<Seq<char>>)
    decreases m.len() - pos,
{
    if pos >= m.len() {
        next_sections(st, m.subrange(start, m.len() as int))
    } else if m[pos] == '\n' {
        sections(m, pos + 1, pos + 1, next_sections(st, m.subrange(start, pos)))
    } else {
        sections(m, start, pos + 1, st)
    }
}

/// Body and footer of a message: the lines after the first.
pub open spec fn body_and_footer(m: Seq<char>) -> (bool, Option<Seq<char>>, Option<Seq<char>>) {
    let e = index_from(m, '\n', 0);
    if e < m.len() {
        sections(m, e + 1, e + 1, (false, None, None))
    } else {
        (false, None, None)
    }
}

/// A breaking change: a `!` anywhere in the header, or `BREAKING CHANGE:` in the
/// footer.
pub open spec fn marks_breaking(m: Seq<char>) -> bool {
    let footer = body_and_footer(m).2;
    header_of(m).contains('!') || (footer is Some && contains_seq(footer->0, breaking_marker()))
}

/// What parsing `m` gives.
pub open spec fn parse_model(m: Seq<char>) -> Result<CommitModel, ParseError> {
    let h = header_of(m);
    let c = index_from(h, ':', 0);
    let t = replaced(h.take(c), seq!['!'], Seq::empty());
    let p = index_from(t, '(', 0);
    let q = index_from(t, ')', p + 1);
    let footer = body_and_footer(m).2;
    if c >= h.len() {
        Err(ParseError::MissingSeparator)
    } else if p < t.len() && q >= t.len() {
        Err(ParseError::UnclosedScope)
    } else {
        Ok(
            CommitModel {
                commit_type: if p < t.len() {
                    t.take(p)
                } else {
                    t
                },
                scope: if p < t.len() {
                    Some(t.subrange(p + 1, q))
                } else {
                    None
                },
                description: trimmed(h.skip(c + 1)),
                body: body_and_footer(m).1,
                footer,
                breaking_change: marks_breaking(m),
            },
        )
    }
}

/// The bump that a parsed commit asks for.
pub open spec fn bump_of(c: CommitModel) -> BumpType {
    if c.breaking_change {
        BumpType::Major
    } else if c.commit_type == seq!['f', 'e', 'a', 't'] {
        BumpType::Minor
    } else if c.commit_type == seq!['f', 'i', 'x'] || c.commit_type == seq!['p', 'e', 'r', 'f']
        || c.commit_type == seq!['s', 'e', 'c', 'u', 'r', 'i', 't', 'y'] {
        BumpType::Patch
    } else {
        BumpType::NoBump
    }
}

/// Whether `v` holds `c`.
fn has_char(v: &Vec<char>, c: char) -> (r: bool)
    ensures
        r == v@.contains(c),
{
    let i = find_char(v, c, 0);
    proof {
        lemma_index_from(v@, c, 0);
    }
    i < v.len()
}

/// Whether the line opens with a token of letters and dashes and then `:`.
fn starts_with_token_colon(v: &Vec<char>) -> (r: bool)
    ensures
        r == token_colon(v@),
{
    let mut i: usize = 0;
    while i < v.len()
        invariant
            i <= v.len(),
            forall|j: int| 0 <= j < i ==> token_char(#[trigger] v@[j]),
            forall|k: int| 1 <= k < i ==> #[trigger] v@[k] != ':',
        decreases v.len() - i,
    {
        if i >= 1 && v[i] == ':' {
            assert(forall|j: int| 0 <= j < i ==> token_char(#[trigger] v@[j]));
            return true;
        }
        let c = v[i];
        if !(is_alphabetic(c) || c == '-') {
            proof {
                assert forall|k: int| 1 <= k < v@.len() && #[trigger] v@[k] == ':' implies !(forall|j: int|
                    0 <= j < k ==> token_char(#[trigger] v@[j])) by {
                    assert(k >= i);
                    if k > i {
                        assert(!token_char(v@[i as int]));
                    }
                }
            }
            return false;
        }
        i = i + 1;
    }
    false
}

fn append_line(acc: Option<String>, line: &str) -> (r: Option<String>)
    ensures
        opt_view(r) == add_line(opt_view(acc), line@),
{
    proof {
        reveal_strlit("\n");
        assert("\n"@ =~= seq!['\n']);
    }
    match acc {
        Some(mut t) => {
            t.append("\n");
            t.append(line);
            Some(t)
        },
        None => Some(owned(line)),
    }
}

fn read_line(
    line: &str,
    in_footer: bool,
    body: Option<String>,
    footer: Option<String>,
    marker: &Vec<char>,
) -> (r: (bool, Option<String>, Option<String>))
    requires
        marker@ == breaking_marker(),
    ensures
        (r.0, opt_view(r.1), opt_view(r.2)) == next_sections(
            (in_footer, opt_view(body), opt_view(footer)),
            line@,
        ),
{
    if trim(line).unicode_len() == 0 {
        return (in_footer, body, footer);
    }
    let lc = chars_of(line);
    let opens = contains_run(&lc, marker) || starts_with_token_colon(&lc);
    if in_footer || opens {
        (true, body, append_line(footer, line))
    } else {
        (false, append_line(body, line), footer)
    }
}

impl ConventionalCommit {
    /// Parses `type(scope)!: description`, then sorts the later lines into body
    /// and footer. Any `!` in the header marks a breaking change, as does
    /// `BREAKING CHANGE:` in the footer.
    pub fn parse(message: &str) -> (r: Result<ConventionalCommit, ParseError>)
        ensures
            match r {
                Ok(c) => parse_model(message@) == Ok::<CommitModel, ParseError>(c@),
                Err(e) => parse_model(message@) == Err::<CommitModel, ParseError>(e),
            },
    {
        let ghost m = message@;
        let chars = chars_of(message);
        let he = find_char(&chars, '\n', 0);
        proof {
            lemma_index_from(m, '\n', 0);
        }
        let header = message.substring_char(0, he);
        assert(header@ == header_of(m));
        let hchars = chars_of(header);
        let colon = find_char(&hchars, ':', 0);
        proof {
            lemma_index_from(header@, ':', 0);
        }
        if colon == hchars.len() {
            return Err(ParseError::MissingSeparator);
        }
        proof {
            reveal_strlit("!");
            reveal_strlit("");
            assert("!"@ =~= seq!['!']);
            assert(""@ =~= Seq::<char>::empty());
        }
        let type_text = replace_all(header.substring_char(0, colon), "!", "");
        assert(header@.subrange(0, colon as int) == header@.take(colon as int));
        let tchars = chars_of(type_text.as_str());
        let p = find_char(&tchars, '(', 0);
        proof {
            lemma_index_from(type_text@, '(', 0);
        }
        let (commit_type, scope) = if p < tchars.len() {
            let q = find_char(&tchars, ')', p + 1);
            proof {
                lemma_index_from(type_text@, ')', p + 1);
            }
            if q == tchars.len() {
                return Err(ParseError::UnclosedScope);
            }
            let t = type_text.as_str();
            (owned(t.substring_char(0, p)), Some(owned(t.substring_char(p + 1, q))))
        } else {
            (type_text, None)
        };
        let description = owned(trim(header.substring_char(colon + 1, hchars.len())));
        assert(header@.subrange(colon + 1, header@.len() as int) == header@.skip(colon + 1));
        let marker = chars_of("BREAKING CHANGE:");
        proof {
            reveal_strlit("BREAKING CHANGE:");
            assert(marker@ =~= breaking_marker());
        }
        let mut in_footer = false;
        let mut body: Option<String> = None;
        let mut footer: Option<String> = None;
        if he < chars.len() {
            let ghost goal = sections(m, he + 1, he + 1, (false, None, None));
            let mut start = he + 1;
            let mut pos = he + 1;
            while pos < chars.len()
                invariant
                    chars@ == m,
                    m == message@,
                    marker@ == breaking_marker(),
                    he < start <= pos <= chars.len(),
                    sections(m, start as int, pos as int, (in_footer, opt_view(body), opt_view(footer)))
                        == goal,
                decreases chars.len() - pos,
            {
                if chars[pos] == '\n' {
                    let line = message.substring_char(start, pos);
                    let (f, b, t) = read_line(line, in_footer, body, footer, &marker);
                    in_footer = f;
                    body = b;
                    footer = t;
                    start = pos + 1;
                }
                pos = pos + 1;
            }
            let line = message.substring_char(start, chars.len());
            let (_, b, t) = read_line(line, in_footer, body, footer, &marker);
            body = b;
            footer = t;
        }
        let breaking_change = has_char(&hchars, '!') || match &footer {
            Some(f) => contains_run(&chars_of(f.as_str()), &marker),
            None => false,
        };
        Ok(ConventionalCommit { commit_type, scope, description, body, footer, breaking_change })
    }

    /// The bump this commit asks for: breaking is major, `feat` minor, `fix`,
    /// `perf` and `security` patch, anything else none.
    pub fn bump_type(&self) -> (r: BumpType)
        ensures
            r == bump_of(self@),
    {
        proof {
            reveal_strlit("feat");
            reveal_strlit("fix");
            reveal_strlit("perf");
            reveal_strlit("security");
            assert("feat"@ =~= seq!['f', 'e', 'a', 't']);
            assert("fix"@ =~= seq!['f', 'i', 'x']);
            assert("perf"@ =~= seq!['p', 'e', 'r', 'f']);
            assert("security"@ =~= seq!['s', 'e', 'c', 'u', 'r', 'i', 't', 'y']);
        }
        if self.breaking_change {
            return BumpType::Major;
        }
        let t = self.commit_type.as_str();
        if same_text(t, "feat") {
            BumpType::Minor
        } else if same_text(t, "fix") || same_text(t, "perf") || same_text(t, "security") {
            BumpType::Patch
        } else {
            BumpType::NoBump
        }
    }
}

} // verus!
