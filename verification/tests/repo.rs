use line_editor::repo::{
    authorization, clone_address, description_of, outcome, visibility, wants_private,
    with_git_suffix, ApiReply, Cli, RepoError, RepoRequest, RepoResponse,
};

#[test]
fn a_request_is_always_initialised() {
    let request = RepoRequest::new("demo", &Some(String::from("a demo")), true);
    assert_eq!(
        request,
        RepoRequest {
            name: String::from("demo"),
            description: Some(String::from("a demo")),
            private: true,
            auto_init: true,
        }
    );
    let request = RepoRequest::new("other", &None, false);
    assert_eq!(request.name, "other");
    assert_eq!(request.description, None);
    assert!(!request.private);
    assert!(request.auto_init);
}

#[test]
fn the_options_hold_the_token() {
    let cli = Cli { token: String::from("abc") };
    assert_eq!(cli.clone().token, "abc");
}

#[test]
fn an_empty_description_is_none() {
    assert_eq!(description_of(String::new()), None);
    assert_eq!(description_of(String::from("x")), Some(String::from("x")));
    assert_eq!(description_of(String::from(" ")), Some(String::from(" ")));
}

#[test]
fn only_n_asks_for_a_public_repository() {
    assert!(wants_private(""));
    assert!(wants_private("y"));
    assert!(wants_private("Y"));
    assert!(wants_private("no"));
    assert!(wants_private("nn"));
    assert!(wants_private(" n"));
    assert!(wants_private("ñ"));
    assert!(!wants_private("n"));
    assert!(!wants_private("N"));
}

#[test]
fn the_answer_is_read_as_by_lowering_it() {
    for answer in ["", "n", "N", "y", "Y", "no", "NO", "nN", "ń", "Ｎ", "İ", "ħ", "\u{4e}\u{303}"] {
        assert_eq!(wants_private(answer), answer.is_empty() || answer.to_lowercase() != "n");
    }
}

#[test]
fn visibility_has_two_words() {
    assert_eq!(visibility(true), "private");
    assert_eq!(visibility(false), "public");
}

#[test]
fn a_plain_token_is_a_bearer() {
    assert_eq!(authorization("ghp_abc123"), Ok(String::from("Bearer ghp_abc123")));
    assert_eq!(authorization(""), Ok(String::from("Bearer ")));
    assert_eq!(authorization("a\tb"), Ok(String::from("Bearer a\tb")));
    assert_eq!(authorization("clé"), Ok(String::from("Bearer clé")));
}

#[test]
fn a_token_with_control_characters_is_refused() {
    assert_eq!(authorization("abc\n"), Err(RepoError::InvalidToken));
    assert_eq!(authorization("a\rb"), Err(RepoError::InvalidToken));
    assert_eq!(authorization("\u{7f}"), Err(RepoError::InvalidToken));
    assert_eq!(authorization("\u{0}"), Err(RepoError::InvalidToken));
    assert_eq!(authorization("a\u{1f}"), Err(RepoError::InvalidToken));
}

#[test]
fn a_created_repository_gives_its_address() {
    let reply = ApiReply::Created(RepoResponse { html_url: String::from("https://github.com/u/r") });
    assert_eq!(outcome(reply), Ok(String::from("https://github.com/u/r")));
}

#[test]
fn a_refusal_gives_the_message_of_the_service() {
    let refused = outcome(ApiReply::Refused(String::from("{\"message\":\"Bad credentials\"}")));
    assert_eq!(refused, Err(RepoError::Api(String::from("{\"message\":\"Bad credentials\"}"))));
    assert_eq!(
        refused.unwrap_err().message(),
        "GitHub API error: {\"message\":\"Bad credentials\"}"
    );
    assert_eq!(RepoError::InvalidToken.message(), "failed to parse header value");
}

#[test]
fn the_clone_address_goes_over_ssh() {
    assert_eq!(clone_address("https://github.com/user/repo"), "git@github.com:user/repo.git");
    assert_eq!(clone_address("https://github.com/user/repo.git"), "git@github.com:user/repo.git");
    assert_eq!(clone_address("https://example.org/user/repo"), "https://example.org/user/repo.git");
    assert_eq!(clone_address(""), ".git");
}

#[test]
fn the_suffix_is_appended() {
    assert_eq!(with_git_suffix(String::from("a")), "a.git");
    assert_eq!(with_git_suffix(String::new()), ".git");
}
