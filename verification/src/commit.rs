//! Commit descriptors and the message that each one stands for.
use crate::kind::CommitKind;
use crate::text::{is_blank, lemma_trimmed_twice, text_option, trim, trimmed};
use vstd::prelude::*;
use vstd::string::*;

verus! {

/// What a descriptor holds, as plain values.
pub struct DescriptorView {
    pub kind: CommitKind,
    pub scope: Option<Seq<char>>,
    pub name: Seq<char>,
}

/// The scope that an answer asks for: none where the answer is absent or
/// empty, else the answer trimmed.
pub open spec fn chosen_scope(input: Option<Seq<char>>) -> Option<Seq<char>> {
    match input {
        Some(s) if s.len() > 0 => Some(trimmed(s)),
        _ => None,
    }
}

/// The commit message `type(scope): name`, or `type: name` without a scope.
pub open spec fn message_of(d: DescriptorView) -> Seq<char> {
    match d.scope {
        Some(scope) => d.kind.word() + seq!['('] + scope + seq![')', ':', ' '] + d.name,
        None => d.kind.word() + seq![':', ' '] + d.name,
    }
}

/// The descriptor that the three answers give.
pub open spec fn described(
    kind: CommitKind,
    scope: Option<Seq<char>>,
    name: Seq<char>,
) -> DescriptorView {
    DescriptorView { kind, scope: chosen_scope(scope), name: trimmed(name) }
}

/// From answers that carry no white space at either end, the message is
/// `type: name` where the scope is absent or empty, and `type(scope): name`
/// otherwise, with the scope and the name as they were given.
pub proof fn lemma_message_format(kind: CommitKind, scope: Option<Seq<char>>, name: Seq<char>)
    requires
        name.len() > 0,
        trimmed(name) == name,
        scope matches Some(s) ==> trimmed(s) == s,
    ensures
        scope is None || scope->0.len() == 0 ==> message_of(described(kind, scope, name))
            == kind.word() + seq![':', ' '] + name,
        scope is Some && scope->0.len() > 0 ==> message_of(described(kind, scope, name))
            == kind.word() + seq!['('] + scope->0 + seq![')', ':', ' '] + name,
{
}

/// A message starts with the keyword of its kind, and so does a branch made
/// for the same kind, where a slash follows the keyword.
pub proof fn lemma_message_and_branch_share_kind(d: DescriptorView, rest: Seq<char>)
    ensures
        message_of(d).take(d.kind.word().len() as int) == d.kind.word(),
        (d.kind.word() + seq!['/'] + rest).take(d.kind.word().len() as int) == d.kind.word(),
        (d.kind.word() + seq!['/'] + rest)[d.kind.word().len() as int] == '/',
{
}

/// A kind of change, an optional scope and a short name: what a commit
/// message is made of. Built once, never changed.
#[derive(Clone, Debug)]
pub struct CommitDescriptor {
    kind: CommitKind,
    scope: Option<String>,
    name: String,
}

impl View for CommitDescriptor {
    type V = DescriptorView;

    closed spec fn view(&self) -> DescriptorView {
        DescriptorView {
            kind: self.kind,
            scope: match self.scope {
                Some(s) => Some(s@),
                None => None,
            },
            name: self.name@,
        }
    }
}

impl CommitDescriptor {
    /// The name is never empty and carries no white space at either end.
    pub open spec fn wf(&self) -> bool {
        &&& self@.name.len() > 0
        &&& trimmed(self@.name) == self@.name
    }

    /// Builds a descriptor from the answers given. The name is trimmed, and
    /// refused where nothing is left of it; an empty scope counts as none.
    pub fn new(kind: CommitKind, scope: Option<&str>, name: &str) -> (r: Option<CommitDescriptor>)
        ensures
            r is Some <==> !is_blank(name@),
            r matches Some(d) ==> d.wf() && d@ == described(kind, text_option(scope), name@),
    {
        let short = trim(name);
        if short.as_str().unicode_len() == 0 {
            return None;
        }
        let within = match scope {
            Some(s) => {
                if s.unicode_len() == 0 {
                    None
                } else {
                    Some(trim(s))
                }
            },
            None => None,
        };
        proof {
            lemma_trimmed_twice(name@);
        }
        Some(CommitDescriptor { kind, scope: within, name: short })
    }

    /// The kind of change.
    pub fn kind(&self) -> (r: CommitKind)
        ensures
            r == self@.kind,
    {
        self.kind
    }

    /// The scope, if the commit has one.
    pub fn scope(&self) -> (r: Option<&str>)
        ensures
            text_option(r) == self@.scope,
    {
        match &self.scope {
            Some(s) => Some(s.as_str()),
            None => None,
        }
    }

    /// The short name of the change.
    pub fn name(&self) -> (r: &str)
        ensures
            r@ == self@.name,
    {
        self.name.as_str()
    }

    /// The commit message: `type(scope): name` with a scope, `type: name`
    /// without one.
    pub fn message(&self) -> (r: String)
        ensures
            r@ == message_of(self@),
            self@.scope is None ==> r@ == self@.kind.word() + seq![':', ' '] + self@.name,
            self@.scope matches Some(scope) ==> r@ == self@.kind.word() + seq!['('] + scope
                + seq![')', ':', ' '] + self@.name,
    {
        let mut out = String::from_str(self.kind.keyword());
        match &self.scope {
            Some(scope) => {
                out.push('(');
                out.append(scope.as_str());
                out.push(')');
                out.push(':');
                out.push(' ');
                out.append(self.name.as_str());
                assert(out@ == self@.kind.word() + seq!['('] + scope@ + seq![')', ':', ' ']
                    + self@.name);
            },
            None => {
                out.push(':');
                out.push(' ');
                out.append(self.name.as_str());
            },
        }
        out
    }
}

} // verus!
