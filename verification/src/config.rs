//! The entry points: what is stored, what a commit, a branch and a pull
//! request are called, and how a session ends.
//!
//! Asking and storing are left to the caller. Each function here takes the
//! answers that were given and says what follows from them.
use crate::answer::Halt;
use crate::commit::{described, message_of, CommitDescriptor};
use crate::issue::{issue_tag, tag_of};
use crate::kind::CommitKind;
use crate::slug::{slug_of, slugify};
use crate::store::{
    after_description, after_token, description_written, fetched, token_written,
    PreferenceRecord, StoreError,
};
use crate::text::{is_blank, same_text, text_option, trim, trimmed};
use colored::Colorize;
use vstd::prelude::*;
use vstd::string::*;

verus! {

/// The directory of the preferences, under the home directory `home`.
pub open spec fn directory_under(home: Seq<char>) -> Seq<char> {
    home + "/.ghl"@
}

/// The file of the token, under the home directory `home`.
pub open spec fn token_file_under(home: Seq<char>) -> Seq<char> {
    directory_under(home) + "/token"@
}

/// The file of the default description, under the home directory `home`.
pub open spec fn description_file_under(home: Seq<char>) -> Seq<char> {
    directory_under(home) + "/desc.md"@
}

/// The branch `type/rest`.
pub open spec fn branch_of(kind: CommitKind, rest: Seq<char>) -> Seq<char> {
    kind.word() + seq!['/'] + rest
}

/// The address at which a branch is compared with the base of its
/// repository.
pub open spec fn compare_url_of(repo: Seq<char>, branch: Seq<char>) -> Seq<char> {
    "https://github.com/"@ + repo + "/compare/"@ + branch + "?expand=1"@
}

/// The name of a pull request: the commit message, followed by the tag of the
/// issue branch where it has one.
pub open spec fn pr_name_of(message: Seq<char>, issue_branch: Seq<char>) -> Seq<char> {
    match tag_of(issue_branch) {
        Some(tag) => message + tag,
        None => message,
    }
}

/// The plan of a plain session, with the branch and the commit as they are
/// shown.
pub open spec fn init_plan_text(branch: Seq<char>, commit: Seq<char>) -> Seq<char> {
    "This will:\n1. Create a branch called "@ + branch + ".\n2. Create a commit called "@
        + commit + ".\n3. Push to the remote repository."@
}

/// The plan of a pull request session, with the branch and the pull request
/// as they are shown.
pub open spec fn pr_plan_text(branch: Seq<char>, pr_name: Seq<char>) -> Seq<char> {
    "This will:\n1. Create a branch called "@ + branch
        + ".\n2. Create an empty commit.\n3. Push to the remote repository.\n4. Create a pull request named "@
        + pr_name + ".\n5. Assign you the pull request."@
}

/// The code after which a terminal writes in bright cyan.
pub open spec fn bright_cyan_code() -> Seq<char> {
    seq!['\u{1b}', '[', '9', '6', 'm']
}

/// The code after which a terminal writes as it did before.
pub open spec fn reset_code() -> Seq<char> {
    seq!['\u{1b}', '[', '0', 'm']
}

/// `text` between the code for bright cyan and the reset code.
pub open spec fn in_bright_cyan(text: Seq<char>) -> Seq<char> {
    bright_cyan_code() + text + reset_code()
}

/// Whether `text` itself holds the reset code.
pub open spec fn holds_reset(text: Seq<char>) -> bool {
    exists|i: int|
        0 <= i && i + 4 <= text.len() && #[trigger] text.subrange(i, i + 4) == reset_code()
}

/// Whether `shown` is `text` set off from what stands around it: the text as
/// it is where colours are off, the text in bright cyan where they are on.
/// Of a text that itself holds the reset code nothing is said.
pub open spec fn set_off(text: Seq<char>, shown: Seq<char>) -> bool {
    shown == text || shown == in_bright_cyan(text) || holds_reset(text)
}

/// A text that holds no reset code stands whole in what is shown for it.
pub proof fn lemma_set_off_holds_text(text: Seq<char>, shown: Seq<char>)
    requires
        set_off(text, shown),
        !holds_reset(text),
    ensures
        exists|i: int|
            0 <= i && i + text.len() <= shown.len() && #[trigger] shown.subrange(
                i,
                i + text.len(),
            ) == text,
{
    if shown == text {
        assert(shown.subrange(0int, 0int + text.len()) == text);
    } else {
        assert(shown.subrange(5int, 5int + text.len()) == text);
    }
}

/// One step towards a stored preference.
#[derive(Clone, Debug)]
pub enum StoreStep {
    /// Create the directory at this path.
    CreateDir(String),
    /// Create an empty file at this path.
    CreateFile(String),
    /// Replace what the file at this path holds by this text.
    Write(String, String),
}

/// A step, as plain values.
pub enum StepView {
    CreateDir(Seq<char>),
    CreateFile(Seq<char>),
    Write(Seq<char>, Seq<char>),
}

impl View for StoreStep {
    type V = StepView;

    open spec fn view(&self) -> StepView {
        match self {
            StoreStep::CreateDir(path) => StepView::CreateDir(path@),
            StoreStep::CreateFile(path) => StepView::CreateFile(path@),
            StoreStep::Write(path, text) => StepView::Write(path@, text@),
        }
    }
}

/// The steps that store `text` in `file`: the directory and the file are
/// created first where they are missing, then the text is written.
pub open spec fn steps_to_store(
    has_directory: bool,
    has_file: bool,
    directory: Seq<char>,
    file: Seq<char>,
    text: Seq<char>,
) -> Seq<StepView> {
    let make_directory = if has_directory {
        seq![]
    } else {
        seq![StepView::CreateDir(directory)]
    };
    let make_file = if has_file {
        seq![]
    } else {
        seq![StepView::CreateFile(file)]
    };
    make_directory + make_file + seq![StepView::Write(file, text)]
}

/// Calls `home::home_dir` and turns the path into a string. Trusted: nothing
/// is claimed of the value, which the environment decides; it is absent
/// where no home directory is known or its path is not valid Unicode.
#[verifier::external_body]
fn home_directory() -> (r: Option<String>) {
    match home::home_dir() {
        Some(path) => match path.to_str() {
            Some(s) => Some(s.to_owned()),
            None => None,
        },
        None => None,
    }
}

/// Calls `Colorize::bright_cyan` of `colored` and renders the result.
/// Trusted: the result is the text itself or the text between the code for
/// bright cyan and the reset code; which of the two, the environment
/// decides. Nothing is claimed of a text that itself holds the reset code,
/// which `colored` alters inside.
#[verifier::external_body]
fn highlight(text: &str) -> (r: String)
    ensures
        set_off(text@, r@),
{
    text.bright_cyan().to_string()
}

/// Lays out the plan of a plain session.
pub fn lay_out_init_plan(branch: &str, commit: &str) -> (r: String)
    ensures
        r@ == init_plan_text(branch@, commit@),
{
    let mut out = String::from_str("This will:\n1. Create a branch called ");
    out.append(branch);
    out.append(".\n2. Create a commit called ");
    out.append(commit);
    out.append(".\n3. Push to the remote repository.");
    out
}

/// Lays out the plan of a pull request session.
pub fn lay_out_pr_plan(branch: &str, pr_name: &str) -> (r: String)
    ensures
        r@ == pr_plan_text(branch@, pr_name@),
{
    let mut out = String::from_str("This will:\n1. Create a branch called ");
    out.append(branch);
    out.append(
        ".\n2. Create an empty commit.\n3. Push to the remote repository.\n4. Create a pull request named ",
    );
    out.append(pr_name);
    out.append(".\n5. Assign you the pull request.");
    out
}

/// The name and the branch of a pull request.
#[derive(Clone, Debug)]
pub struct Config {
    pub pr_name: String,
    pub branch: String,
}

impl Config {
    /// Takes the answer to the question for a token. An answer that holds a
    /// value replaces the stored token, trimmed; any other leaves the record
    /// as it was. Returns whether the token was replaced.
    pub fn set_github_token(store: &mut PreferenceRecord, input: Option<&str>) -> (written: bool)
        ensures
            written == token_written(text_option(input)),
            final(store)@ == after_token(old(store)@, text_option(input)),
            old(store).wf() ==> final(store).wf(),
    {
        match input {
            Some(answer) => {
                let token = trim(answer);
                if token.as_str().unicode_len() == 0 {
                    false
                } else {
                    store.put_token(token);
                    true
                }
            },
            None => false,
        }
    }

    /// Reads the stored token.
    pub fn get_github_token(store: &PreferenceRecord) -> (r: Result<String, StoreError>)
        ensures
            r is Ok <==> store@.token is Some,
            r matches Ok(token) ==> fetched(store@.token) == Ok::<Seq<char>, StoreError>(token@),
            r matches Err(e) ==> e == StoreError::NotFound,
    {
        match store.token() {
            Some(token) => Ok(String::from_str(token)),
            None => Err(StoreError::NotFound),
        }
    }

    /// Takes the answer to the question for a default description. An answer
    /// that holds a value which, trimmed, differs from the stored description
    /// replaces it, trimmed; any other leaves the record as it was. Returns
    /// whether the description was replaced.
    pub fn set_default_desc(store: &mut PreferenceRecord, input: Option<&str>) -> (written: bool)
        ensures
            written == description_written(old(store)@, text_option(input)),
            final(store)@ == after_description(old(store)@, text_option(input)),
            old(store).wf() ==> final(store).wf(),
    {
        match input {
            Some(answer) => {
                let text = trim(answer);
                if text.as_str().unicode_len() == 0 {
                    return false;
                }
                let same = match store.description() {
                    Some(current) => same_text(current, text.as_str()),
                    None => false,
                };
                if same {
                    false
                } else {
                    store.put_description(text);
                    true
                }
            },
            None => false,
        }
    }

    /// Reads the stored default description.
    pub fn get_default_desc(store: &PreferenceRecord) -> (r: Result<String, StoreError>)
        ensures
            r is Ok <==> store@.description is Some,
            r matches Ok(text) ==> fetched(store@.description) == Ok::<Seq<char>, StoreError>(
                text@,
            ),
            r matches Err(e) ==> e == StoreError::NotFound,
    {
        match store.description() {
            Some(text) => Ok(String::from_str(text)),
            None => Err(StoreError::NotFound),
        }
    }

    /// Derives a commit from the answers: its message, the keyword of its
    /// kind, and its name trimmed. None where nothing is left of the name.
    pub fn ask_commit(kind: CommitKind, scope: Option<&str>, name: &str) -> (r: Option<
        (String, String, String),
    >)
        ensures
            r is Some <==> !is_blank(name@),
            r matches Some(commit) ==> {
                &&& commit.0@ == message_of(described(kind, text_option(scope), name@))
                &&& commit.1@ == kind.word()
                &&& commit.2@ == trimmed(name@)
            },
            r matches Some(commit) ==> (scope is None || scope->0@.len() == 0) ==> commit.0@
                == kind.word() + seq![':', ' '] + trimmed(name@),
            r matches Some(commit) ==> scope is Some && scope->0@.len() > 0 ==> commit.0@
                == kind.word() + seq!['('] + trimmed(scope->0@) + seq![')', ':', ' '] + trimmed(
                name@,
            ),
    {
        match CommitDescriptor::new(kind, scope, name) {
            Some(descriptor) => Some(
                (
                    descriptor.message(),
                    String::from_str(kind.keyword()),
                    String::from_str(descriptor.name()),
                ),
            ),
            None => None,
        }
    }

    /// Plans a plain session from the answers and the repository `repo`: the
    /// commit message, the branch `type/slug`, and the address at which the
    /// branch is compared. None where nothing is left of the name.
    pub fn ask_init(kind: CommitKind, scope: Option<&str>, name: &str, repo: &str) -> (r: Option<
        (String, String, String),
    >)
        ensures
            r is Some <==> !is_blank(name@),
            r matches Some(plan) ==> {
                &&& plan.0@ == message_of(described(kind, text_option(scope), name@))
                &&& plan.1@ == branch_of(kind, slug_of(trimmed(name@)))
                &&& plan.2@ == compare_url_of(repo@, plan.1@)
            },
    {
        match Config::ask_commit(kind, scope, name) {
            Some(commit) => {
                let mut branch = commit.1;
                branch.push('/');
                branch.append(slugify(commit.2.as_str()).as_str());
                let mut url = String::from_str("https://github.com/");
                url.append(repo);
                url.append("/compare/");
                url.append(branch.as_str());
                url.append("?expand=1");
                Some((commit.0, branch, url))
            },
            None => None,
        }
    }

    /// The plan of a plain session as it is shown before the question whether
    /// to go on, with the branch and the commit set off from the rest.
    pub fn init_plan(branch: &str, commit: &str) -> (r: String)
        ensures
            exists|shown_branch: Seq<char>, shown_commit: Seq<char>|
                {
                    &&& set_off(branch@, shown_branch)
                    &&& set_off(commit@, shown_commit)
                    &&& r@ == init_plan_text(shown_branch, shown_commit)
                },
    {
        let shown_branch = highlight(branch);
        let shown_commit = highlight(commit);
        lay_out_init_plan(shown_branch.as_str(), shown_commit.as_str())
    }

    /// Ends a plain session on the answer to the question whether to go on:
    /// the plan after a yes; after a no the session counts as canceled; a
    /// failure to ask is handed on.
    pub fn confirm_init<E>(plan: (String, String, String), answer: Result<bool, E>) -> (r: Result<
        (String, String, String),
        Halt<E>,
    >)
        ensures
            answer == Ok::<bool, E>(true) ==> r == Ok::<(String, String, String), Halt<E>>(plan),
            answer == Ok::<bool, E>(false) ==> r == Err::<(String, String, String), Halt<E>>(
                Halt::Canceled,
            ),
            answer matches Err(e) ==> r == Err::<(String, String, String), Halt<E>>(
                Halt::Failed(e),
            ),
    {
        match answer {
            Ok(true) => Ok(plan),
            Ok(false) => Err(Halt::Canceled),
            Err(e) => Err(Halt::Failed(e)),
        }
    }

    /// Plans a pull request from the name of an issue branch and the answers
    /// for a commit. The pull request is named after the commit, with the tag
    /// of the issue where the branch names one; its branch is `type/` and
    /// the issue branch as given. None where the issue branch is empty or
    /// nothing is left of the name.
    pub fn ask_pr(linear_branch: &str, kind: CommitKind, scope: Option<&str>, name: &str) -> (r:
        Option<Config>)
        ensures
            r is Some <==> linear_branch@.len() > 0 && !is_blank(name@),
            r matches Some(config) ==> {
                &&& config.pr_name@ == pr_name_of(
                    message_of(described(kind, text_option(scope), name@)),
                    linear_branch@,
                )
                &&& config.branch@ == branch_of(kind, linear_branch@)
            },
    {
        if linear_branch.unicode_len() == 0 {
            return None;
        }
        match Config::ask_commit(kind, scope, name) {
            Some(commit) => {
                let mut pr_name = commit.0;
                match issue_tag(linear_branch) {
                    Some(tag) => {
                        pr_name.append(tag.as_str());
                    },
                    None => {},
                }
                let mut branch = commit.1;
                branch.push('/');
                branch.append(linear_branch);
                Some(Config { pr_name, branch })
            },
            None => None,
        }
    }

    /// The plan of a pull request session as it is shown before the question
    /// whether to go on, with the branch and the name set off from the rest.
    pub fn pr_plan(&self) -> (r: String)
        ensures
            exists|shown_branch: Seq<char>, shown_name: Seq<char>|
                {
                    &&& set_off(self.branch@, shown_branch)
                    &&& set_off(self.pr_name@, shown_name)
                    &&& r@ == pr_plan_text(shown_branch, shown_name)
                },
    {
        let shown_branch = highlight(self.branch.as_str());
        let shown_name = highlight(self.pr_name.as_str());
        lay_out_pr_plan(shown_branch.as_str(), shown_name.as_str())
    }

    /// Ends a pull request session on the answer to the question whether to
    /// go on. The answer is the result: a no is no failure here.
    pub fn confirm_pr<E>(&self, answer: Result<bool, E>) -> (r: Result<bool, E>)
        ensures
            r == answer,
    {
        answer
    }

    /// The places of the preferences under the home directory `home`: the
    /// directory, the file of the token, the file of the description.
    pub fn get_paths(home: &str) -> (r: (String, String, String))
        ensures
            r.0@ == directory_under(home@),
            r.1@ == token_file_under(home@),
            r.2@ == description_file_under(home@),
    {
        let mut directory = String::from_str(home);
        directory.append("/.ghl");
        let mut token_file = directory.clone();
        token_file.append("/token");
        let mut description_file = directory.clone();
        description_file.append("/desc.md");
        (directory, token_file, description_file)
    }

    /// The places of the preferences, given what is known of the home
    /// directory: those under it where it is known, none where it is not.
    pub fn paths_for(home: Option<String>) -> (r: Option<(String, String, String)>)
        ensures
            r is Some <==> home is Some,
            r matches Some(paths) ==> {
                &&& paths.0@ == directory_under(home->0@)
                &&& paths.1@ == token_file_under(home->0@)
                &&& paths.2@ == description_file_under(home->0@)
            },
    {
        match home {
            Some(home) => Some(Config::get_paths(home.as_str())),
            None => None,
        }
    }

    /// The places of the preferences of the person at the keyboard; none
    /// where their home directory is unknown.
    pub fn locate() -> (r: Option<(String, String, String)>)
        ensures
            r matches Some(paths) ==> exists|home: Seq<char>|
                {
                    &&& paths.0@ == directory_under(home)
                    &&& paths.1@ == token_file_under(home)
                    &&& paths.2@ == description_file_under(home)
                },
    {
        Config::paths_for(home_directory())
    }

    /// The steps that store `text` in `file` of `directory`, given what is
    /// there already.
    pub fn write_steps(
        has_directory: bool,
        has_file: bool,
        directory: &str,
        file: &str,
        text: &str,
    ) -> (r: Vec<StoreStep>)
        ensures
            r@.map_values(|step: StoreStep| step@) == steps_to_store(
                has_directory,
                has_file,
                directory@,
                file@,
                text@,
            ),
    {
        let mut steps: Vec<StoreStep> = Vec::new();
        if !has_directory {
            steps.push(StoreStep::CreateDir(String::from_str(directory)));
        }
        if !has_file {
            steps.push(StoreStep::CreateFile(String::from_str(file)));
        }
        steps.push(StoreStep::Write(String::from_str(file), String::from_str(text)));
        assert(steps@.map_values(|step: StoreStep| step@) =~= steps_to_store(
            has_directory,
            has_file,
            directory@,
            file@,
            text@,
        ));
        steps
    }
}

} // verus!
