//! Credentials: where a token comes from, and how it is read out of what the
//! GitHub command-line client prints.

use crate::text::{
    chars_of, find_char, find_first, find_from, first_word, first_word_range,
    position_of, string_of, trim, trim_range,
};
use vstd::prelude::*;

verus! {

/// Where the token in use came from.
#[derive(Debug, PartialEq, Eq)]
pub enum AuthMethod {
    /// From the GitHub command-line client.
    GitHubCli(String),
    /// From the environment.
    PersonalAccessToken(String),
}

/// Mathematical value of an [`AuthMethod`].
pub enum AuthMethodView {
    GitHubCli(Seq<char>),
    PersonalAccessToken(Seq<char>),
}

impl DeepView for AuthMethod {
    type V = AuthMethodView;

    open spec fn deep_view(&self) -> AuthMethodView {
        match self {
            AuthMethod::GitHubCli(token) => AuthMethodView::GitHubCli(token@),
            AuthMethod::PersonalAccessToken(token) => AuthMethodView::PersonalAccessToken(token@),
        }
    }
}

impl Clone for AuthMethod {
    fn clone(&self) -> (copy: Self)
        ensures
            copy.deep_view() == self.deep_view(),
    {
        match self {
            AuthMethod::GitHubCli(token) => AuthMethod::GitHubCli(token.clone()),
            AuthMethod::PersonalAccessToken(token) => AuthMethod::PersonalAccessToken(
                token.clone(),
            ),
        }
    }
}

/// The marker that precedes the token in the client's status report.
pub open spec fn token_marker() -> Seq<char> {
    "Token:"@
}

/// The token that a line of the status report holds: the first word after the
/// first `Token:`, if the line has both.
pub open spec fn token_in_line(line: Seq<char>) -> Option<Seq<char>> {
    match find_first(line, token_marker(), 0) {
        Some(at) => {
            let word = first_word(line.skip(at + token_marker().len()));
            if word.len() > 0 {
                Some(word)
            } else {
                None
            }
        },
        None => None,
    }
}

/// The token that a status report holds: that of its first line that has one.
pub open spec fn token_in_status(report: Seq<char>) -> Option<Seq<char>>
    decreases report.len(),
{
    let end = position_of(report, '\n');
    match token_in_line(report.take(end as int)) {
        Some(token) => Some(token),
        None => if end >= report.len() {
            None
        } else {
            token_in_status(report.skip(end as int + 1))
        },
    }
}

/// The token that the client prints when asked for it alone: the output
/// without the whitespace around it, if anything is left.
pub open spec fn token_in_output(output: Seq<char>) -> Option<Seq<char>> {
    if trim(output).len() > 0 {
        Some(trim(output))
    } else {
        None
    }
}

/// What to do after the client reported its status.
#[derive(Debug, PartialEq, Eq)]
pub enum CliTokenStep {
    /// The report held this token.
    Found(String),
    /// The report held no token: ask the client for the token alone.
    AskDirectly,
    /// The client is not authenticated.
    NotAuthenticated,
}

/// Mathematical value of a [`CliTokenStep`].
pub enum CliTokenStepView {
    Found(Seq<char>),
    AskDirectly,
    NotAuthenticated,
}

impl DeepView for CliTokenStep {
    type V = CliTokenStepView;

    open spec fn deep_view(&self) -> CliTokenStepView {
        match self {
            CliTokenStep::Found(token) => CliTokenStepView::Found(token@),
            CliTokenStep::AskDirectly => CliTokenStepView::AskDirectly,
            CliTokenStep::NotAuthenticated => CliTokenStepView::NotAuthenticated,
        }
    }
}

/// The step that follows a status report.
pub open spec fn step_after_status(succeeded: bool, report: Seq<char>) -> CliTokenStepView {
    if !succeeded {
        CliTokenStepView::NotAuthenticated
    } else {
        match token_in_status(report) {
            Some(token) => CliTokenStepView::Found(token),
            None => CliTokenStepView::AskDirectly,
        }
    }
}

/// The method to use: the client's token where there is one, else the token
/// from the environment, else none.
pub open spec fn chosen_method(cli_token: Option<Seq<char>>, env_token: Option<Seq<char>>) -> Option<
    AuthMethodView,
> {
    match cli_token {
        Some(token) => Some(AuthMethodView::GitHubCli(token)),
        None => match env_token {
            Some(token) => Some(AuthMethodView::PersonalAccessToken(token)),
            None => None,
        },
    }
}

/// Reads the token out of one line of the status report.
fn line_token(line: &Vec<char>, marker: &Vec<char>) -> (token: Option<String>)
    requires
        marker@ == token_marker(),
    ensures
        token.deep_view() == token_in_line(line@),
{
    match find_from(line, 0, marker) {
        Some(at) => {
            let length = line.len();
            assert(at + marker@.len() <= length);
            let (a, b) = first_word_range(line, at + marker.len(), length);
            assert(line@.subrange(at + marker@.len(), line@.len() as int) == line@.skip(
                at + marker@.len(),
            ));
            if a < b {
                Some(string_of(line, a, b))
            } else {
                None
            }
        },
        None => None,
    }
}

/// Credential handling of the tool.
pub struct GitHubAuth;

impl GitHubAuth {
    /// The token of an authentication method.
    pub fn get_token(auth_method: &AuthMethod) -> (token: &str)
        ensures
            token@ == match auth_method.deep_view() {
                AuthMethodView::GitHubCli(token) => token,
                AuthMethodView::PersonalAccessToken(token) => token,
            },
    {
        match auth_method {
            AuthMethod::GitHubCli(token) => token.as_str(),
            AuthMethod::PersonalAccessToken(token) => token.as_str(),
        }
    }

    /// Reads the token out of the client's status report.
    pub fn token_from_status(report: &str) -> (token: Option<String>)
        ensures
            token.deep_view() == token_in_status(report@),
    {
        proof {
            reveal_strlit("Token:");
        }
        let marker = chars_of("Token:");
        let text = chars_of(report);
        let mut start: usize = 0;
        assert(text@.skip(0) == text@);
        loop
            invariant
                start <= text@.len(),
                text@ == report@,
                marker@ == token_marker(),
                token_in_status(report@) == token_in_status(text@.skip(start as int)),
            decreases text@.len() - start,
        {
            let ghost rest = text@.skip(start as int);
            let end = find_char(&text, start, text.len(), '\n');
            assert(text@.subrange(start as int, text@.len() as int) == rest);
            let mut line: Vec<char> = Vec::new();
            let mut i: usize = start;
            while i < end
                invariant
                    start <= i <= end <= text@.len(),
                    line@ == text@.subrange(start as int, i as int),
                decreases end - i,
            {
                line.push(text[i]);
                i = i + 1;
                assert(text@.subrange(start as int, i as int) == text@.subrange(
                    start as int,
                    i as int - 1,
                ).push(text@[i as int - 1]));
            }
            assert(line@ == rest.take(end - start));
            match line_token(&line, &marker) {
                Some(token) => {
                    return Some(token);
                },
                None => {},
            }
            if end >= text.len() {
                return None;
            }
            assert(rest.skip(end - start + 1) == text@.skip(end as int + 1));
            start = end + 1;
        }
    }

    /// Decides what follows the client's status report.
    pub fn after_status(succeeded: bool, report: &str) -> (step: CliTokenStep)
        ensures
            step.deep_view() == step_after_status(succeeded, report@),
    {
        if !succeeded {
            return CliTokenStep::NotAuthenticated;
        }
        match Self::token_from_status(report) {
            Some(token) => CliTokenStep::Found(token),
            None => CliTokenStep::AskDirectly,
        }
    }

    /// Reads the token that the client printed when asked for it alone.
    pub fn after_token(succeeded: bool, output: &str) -> (token: Option<String>)
        ensures
            token.deep_view() == if succeeded {
                token_in_output(output@)
            } else {
                None
            },
    {
        if !succeeded {
            return None;
        }
        let text = chars_of(output);
        let (a, b) = trim_range(&text, 0, text.len());
        assert(text@.subrange(0, text@.len() as int) == text@);
        if a < b {
            Some(string_of(&text, a, b))
        } else {
            None
        }
    }

    /// Chooses the authentication method: the client's token is preferred to
    /// the one from the environment.
    pub fn select_method(cli_token: Option<String>, env_token: Option<String>) -> (method: Option<
        AuthMethod,
    >)
        ensures
            method.deep_view() == chosen_method(cli_token.deep_view(), env_token.deep_view()),
    {
        match cli_token {
            Some(token) => Some(AuthMethod::GitHubCli(token)),
            None => match env_token {
                Some(token) => Some(AuthMethod::PersonalAccessToken(token)),
                None => None,
            },
        }
    }
}

} // verus!
