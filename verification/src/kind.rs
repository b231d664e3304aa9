//! The kinds of change that a conventional commit can announce.
use crate::text::{
    chars_of, is_white_space, leading_white, same_text, text_of, trim_start, white_space,
};
use vstd::prelude::*;
use vstd::string::*;

verus! {

/// The kind of change a commit makes. A closed list: no other kind can reach
/// a commit message.
#[derive(Clone, Copy, Debug, PartialEq, Eq, Structural)]
pub enum CommitKind {
    Feat,
    Fix,
    Docs,
    Style,
    Refactor,
    Perf,
    Test,
    Build,
    Ci,
    Chore,
    Revert,
}

/// The column at which the description starts in a label.
pub const LABEL_COLUMN: usize = 12;

/// The kinds in the order in which they are offered.
pub open spec fn all_kinds() -> Seq<CommitKind> {
    seq![
        CommitKind::Feat,
        CommitKind::Fix,
        CommitKind::Docs,
        CommitKind::Style,
        CommitKind::Refactor,
        CommitKind::Perf,
        CommitKind::Test,
        CommitKind::Build,
        CommitKind::Ci,
        CommitKind::Chore,
        CommitKind::Revert,
    ]
}

/// The number of characters of `s` before its first white space; the length
/// of `s` where it has none.
pub open spec fn first_white(s: Seq<char>) -> int
    decreases s.len(),
{
    if s.len() == 0 || is_white_space(s.first()) {
        0
    } else {
        1 + first_white(s.drop_first())
    }
}

/// The first word of `s`: what stands between its leading white space and the
/// next. Empty where `s` holds white space only.
pub open spec fn first_word(s: Seq<char>) -> Seq<char> {
    trim_start(s).take(first_white(trim_start(s)))
}

/// The kind that the keyword `word` names, if it names one.
pub open spec fn kind_named(word: Seq<char>) -> Option<CommitKind> {
    if word == CommitKind::Feat.word() {
        Some(CommitKind::Feat)
    } else if word == CommitKind::Fix.word() {
        Some(CommitKind::Fix)
    } else if word == CommitKind::Docs.word() {
        Some(CommitKind::Docs)
    } else if word == CommitKind::Style.word() {
        Some(CommitKind::Style)
    } else if word == CommitKind::Refactor.word() {
        Some(CommitKind::Refactor)
    } else if word == CommitKind::Perf.word() {
        Some(CommitKind::Perf)
    } else if word == CommitKind::Test.word() {
        Some(CommitKind::Test)
    } else if word == CommitKind::Build.word() {
        Some(CommitKind::Build)
    } else if word == CommitKind::Ci.word() {
        Some(CommitKind::Ci)
    } else if word == CommitKind::Chore.word() {
        Some(CommitKind::Chore)
    } else if word == CommitKind::Revert.word() {
        Some(CommitKind::Revert)
    } else {
        None
    }
}

/// A word without white space, followed by a space, is the first word of the
/// whole.
pub proof fn lemma_first_word(word: Seq<char>, rest: Seq<char>)
    requires
        word.len() > 0,
        forall|i: int| 0 <= i < word.len() ==> !is_white_space(#[trigger] word[i]),
    ensures
        first_word(word + seq![' '] + rest) == word,
{
    lemma_first_white(word, rest);
}

/// A word without white space, followed by a space, ends at that space.
pub proof fn lemma_first_white(word: Seq<char>, rest: Seq<char>)
    requires
        forall|i: int| 0 <= i < word.len() ==> !is_white_space(#[trigger] word[i]),
    ensures
        first_white(word + seq![' '] + rest) == word.len(),
    decreases word.len(),
{
    if word.len() > 0 {
        assert((word + seq![' '] + rest).drop_first() == word.drop_first() + seq![' '] + rest);
        lemma_first_white(word.drop_first(), rest);
    }
}

/// Each kind is found again from the line that offers it.
pub proof fn lemma_label_names_kind(kind: CommitKind)
    ensures
        kind_named(first_word(kind.label_text())) == Some(kind),
{
    let word = kind.word();
    let pad = (LABEL_COLUMN - word.len()) as nat;
    let rest = Seq::new((pad - 1) as nat, |i: int| ' ') + kind.about();
    assert(kind.label_text() =~= word + seq![' '] + rest);
    lemma_first_word(word, rest);
    lemma_words_differ(kind);
}

/// No two kinds share a keyword.
pub proof fn lemma_words_differ(kind: CommitKind)
    ensures
        kind_named(kind.word()) == Some(kind),
        forall|other: CommitKind| other.word() == kind.word() ==> other == kind,
{
}

impl CommitKind {
    /// The keyword that stands for this kind in commit messages and branch
    /// names.
    pub open spec fn word(self) -> Seq<char> {
        match self {
            CommitKind::Feat => seq!['f', 'e', 'a', 't'],
            CommitKind::Fix => seq!['f', 'i', 'x'],
            CommitKind::Docs => seq!['d', 'o', 'c', 's'],
            CommitKind::Style => seq!['s', 't', 'y', 'l', 'e'],
            CommitKind::Refactor => seq!['r', 'e', 'f', 'a', 'c', 't', 'o', 'r'],
            CommitKind::Perf => seq!['p', 'e', 'r', 'f'],
            CommitKind::Test => seq!['t', 'e', 's', 't'],
            CommitKind::Build => seq!['b', 'u', 'i', 'l', 'd'],
            CommitKind::Ci => seq!['c', 'i'],
            CommitKind::Chore => seq!['c', 'h', 'o', 'r', 'e'],
            CommitKind::Revert => seq!['r', 'e', 'v', 'e', 'r', 't'],
        }
    }

    /// What this kind of change is, in a few words for the person choosing.
    pub open spec fn about(self) -> Seq<char> {
        match self {
            CommitKind::Feat => "A new feature"@,
            CommitKind::Fix => "A bug fix"@,
            CommitKind::Docs => "Documentation only changes"@,
            CommitKind::Style => "Changes that do not affect the meaning of the code"@,
            CommitKind::Refactor => "A code change that neither fixes a bug nor adds a feature"@,
            CommitKind::Perf => "A code change that improves performance"@,
            CommitKind::Test => "Adding missing tests or correcting existing tests"@,
            CommitKind::Build => "Changes that affect the build system or external dependencies"@,
            CommitKind::Ci => "Changes to our CI configuration files and scripts"@,
            CommitKind::Chore => "Other changes that don't modify src or test files"@,
            CommitKind::Revert => "Reverts a previous commit"@,
        }
    }

    /// The line that offers this kind: the keyword, spaces up to the
    /// description's column, then the description.
    pub open spec fn label_text(self) -> Seq<char> {
        self.word() + Seq::new((LABEL_COLUMN - self.word().len()) as nat, |i: int| ' ')
            + self.about()
    }

    /// Every kind, in the order in which they are offered.
    pub fn all() -> (r: Vec<CommitKind>)
        ensures
            r@ == all_kinds(),
    {
        let mut kinds: Vec<CommitKind> = Vec::new();
        kinds.push(CommitKind::Feat);
        kinds.push(CommitKind::Fix);
        kinds.push(CommitKind::Docs);
        kinds.push(CommitKind::Style);
        kinds.push(CommitKind::Refactor);
        kinds.push(CommitKind::Perf);
        kinds.push(CommitKind::Test);
        kinds.push(CommitKind::Build);
        kinds.push(CommitKind::Ci);
        kinds.push(CommitKind::Chore);
        kinds.push(CommitKind::Revert);
        kinds
    }

    /// The keyword of this kind.
    pub fn keyword(self) -> (r: &'static str)
        ensures
            r@ == self.word(),
    {
        proof {
            reveal_strlit("feat");
            reveal_strlit("fix");
            reveal_strlit("docs");
            reveal_strlit("style");
            reveal_strlit("refactor");
            reveal_strlit("perf");
            reveal_strlit("test");
            reveal_strlit("build");
            reveal_strlit("ci");
            reveal_strlit("chore");
            reveal_strlit("revert");
        }
        let r = match self {
            CommitKind::Feat => "feat",
            CommitKind::Fix => "fix",
            CommitKind::Docs => "docs",
            CommitKind::Style => "style",
            CommitKind::Refactor => "refactor",
            CommitKind::Perf => "perf",
            CommitKind::Test => "test",
            CommitKind::Build => "build",
            CommitKind::Ci => "ci",
            CommitKind::Chore => "chore",
            CommitKind::Revert => "revert",
        };
        r
    }

    /// The description of this kind.
    pub fn description(self) -> (r: &'static str)
        ensures
            r@ == self.about(),
    {
        match self {
            CommitKind::Feat => "A new feature",
            CommitKind::Fix => "A bug fix",
            CommitKind::Docs => "Documentation only changes",
            CommitKind::Style => "Changes that do not affect the meaning of the code",
            CommitKind::Refactor => "A code change that neither fixes a bug nor adds a feature",
            CommitKind::Perf => "A code change that improves performance",
            CommitKind::Test => "Adding missing tests or correcting existing tests",
            CommitKind::Build => "Changes that affect the build system or external dependencies",
            CommitKind::Ci => "Changes to our CI configuration files and scripts",
            CommitKind::Chore => "Other changes that don't modify src or test files",
            CommitKind::Revert => "Reverts a previous commit",
        }
    }

    /// Reads a kind back from its keyword, or from a line that starts with
    /// it: the kind named by the first word of `label`.
    pub fn from_label(label: &str) -> (r: Option<CommitKind>)
        ensures
            r == kind_named(first_word(label@)),
    {
        let chars = chars_of(label);
        let start = leading_white(&chars);
        let n = chars.len();
        let mut end: usize = start;
        while end < n && !white_space(chars[end])
            invariant
                start <= end <= n == chars@.len(),
                start + first_white(chars@.skip(start as int)) == end + first_white(
                    chars@.skip(end as int),
                ),
            decreases n - end,
        {
            assert(chars@.skip(end as int).drop_first() == chars@.skip(end + 1));
            end += 1;
        }
        assert(chars@.skip(start as int).take(end - start) == chars@.subrange(
            start as int,
            end as int,
        ));
        let word = text_of(&chars, start, end);
        let kinds = CommitKind::all();
        let mut i: usize = 0;
        while i < kinds.len()
            invariant
                i <= kinds@.len(),
                kinds@ == all_kinds(),
                word@ == first_word(label@),
                forall|j: int| 0 <= j < i ==> word@ != (#[trigger] all_kinds()[j]).word(),
            decreases kinds@.len() - i,
        {
            if same_text(word.as_str(), kinds[i].keyword()) {
                return Some(kinds[i]);
            }
            i += 1;
        }
        None
    }

    /// The line that offers this kind to the person choosing.
    pub fn label(self) -> (r: String)
        ensures
            r@ == self.label_text(),
    {
        let word = self.keyword();
        let mut line = String::from_str(word);
        let mut column: usize = word.unicode_len();
        while column < LABEL_COLUMN
            invariant
                self.word().len() <= column <= LABEL_COLUMN,
                line@ == self.word() + Seq::new(
                    (column - self.word().len()) as nat,
                    |i: int| ' ',
                ),
            decreases LABEL_COLUMN - column,
        {
            line.push(' ');
            column += 1;
        }
        line.append(self.description());
        line
    }
}

} // verus!
