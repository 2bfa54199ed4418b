use gh_cherry::auth::{AuthMethod, CliTokenStep, GitHubAuth};

#[test]
fn token_is_returned_for_either_method() {
    assert_eq!(GitHubAuth::get_token(&AuthMethod::GitHubCli("abc".to_string())), "abc");
    assert_eq!(
        GitHubAuth::get_token(&AuthMethod::PersonalAccessToken("xyz".to_string())),
        "xyz"
    );
}

#[test]
fn token_is_read_from_the_status_report() {
    let report = "github.com\n  ✓ Logged in to github.com account alice (keyring)\n  - Active account: true\n  - Token: tok_12345 (extra)\n  - Token scopes: 'repo'\n";
    assert_eq!(
        GitHubAuth::token_from_status(report),
        Some("tok_12345".to_string())
    );
}

#[test]
fn token_lines_without_a_token_are_passed_over() {
    assert_eq!(GitHubAuth::token_from_status(""), None);
    assert_eq!(GitHubAuth::token_from_status("no marker here\nnor here"), None);
    assert_eq!(GitHubAuth::token_from_status("Token:\nToken:   \n"), None);
    assert_eq!(
        GitHubAuth::token_from_status("Token:\nToken: second\nToken: third"),
        Some("second".to_string())
    );
    assert_eq!(
        GitHubAuth::token_from_status("xToken:abc def"),
        Some("abc".to_string())
    );
    assert_eq!(
        GitHubAuth::token_from_status("Token: Token: x"),
        Some("Token:".to_string())
    );
    assert_eq!(
        GitHubAuth::token_from_status("token: lower\r\nToken:\ttabbed\r\n"),
        Some("tabbed".to_string())
    );
}

#[test]
fn status_decides_the_next_step() {
    assert_eq!(
        GitHubAuth::after_status(false, "Token: abc"),
        CliTokenStep::NotAuthenticated
    );
    assert_eq!(
        GitHubAuth::after_status(true, "Token: abc"),
        CliTokenStep::Found("abc".to_string())
    );
    assert_eq!(GitHubAuth::after_status(true, "nothing"), CliTokenStep::AskDirectly);
}

#[test]
fn direct_token_is_trimmed() {
    assert_eq!(GitHubAuth::after_token(true, "  tok\n"), Some("tok".to_string()));
    assert_eq!(GitHubAuth::after_token(true, "a b"), Some("a b".to_string()));
    assert_eq!(GitHubAuth::after_token(true, " \n\t"), None);
    assert_eq!(GitHubAuth::after_token(true, ""), None);
    assert_eq!(GitHubAuth::after_token(false, "tok"), None);
}

#[test]
fn client_token_is_preferred_to_the_environment() {
    assert_eq!(
        GitHubAuth::select_method(Some("cli".to_string()), Some("env".to_string())),
        Some(AuthMethod::GitHubCli("cli".to_string()))
    );
    assert_eq!(
        GitHubAuth::select_method(None, Some("env".to_string())),
        Some(AuthMethod::PersonalAccessToken("env".to_string()))
    );
    assert_eq!(
        GitHubAuth::select_method(Some("cli".to_string()), None),
        Some(AuthMethod::GitHubCli("cli".to_string()))
    );
    assert_eq!(GitHubAuth::select_method(None, None), None);
}
