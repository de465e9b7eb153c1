use httpose::error::Error;
use httpose::resolver::{Event, Resolver, Step, PROMPT, SECRET_NAME};
use httpose::secret::{Secret, STATUS_OK};

fn finish(step: Step) -> (Result<String, Error>, bool) {
    match step {
        Step::Finish { result, end_prompt_line } => (result, end_prompt_line),
        other => panic!("expected the end of resolution, got {:?}", other),
    }
}

#[test]
fn file_wins_over_env_and_prompt() {
    let (mut resolver, step) = Resolver::start(Some("/tmp/x".to_string()));
    assert_eq!(step, Step::ReadFile { path: "/tmp/x".to_string() });
    let event = Event::FileRead(Ok("from file".to_string()));
    assert!(resolver.expects(&event));
    assert!(!resolver.expects(&Event::EnvRead(Some("from env".to_string()))));
    let (result, end_line) = finish(resolver.advance(event));
    assert_eq!(result, Ok("from file".to_string()));
    assert!(!end_line);
}

#[test]
fn env_wins_when_no_file() {
    let (mut resolver, step) = Resolver::start(None);
    assert_eq!(step, Step::ReadEnv);
    let (result, end_line) = finish(resolver.advance(Event::EnvRead(Some("abc".to_string()))));
    assert_eq!(result, Ok("abc".to_string()));
    assert!(!end_line);
}

#[test]
fn prompt_only_when_nothing_else() {
    let (mut resolver, _) = Resolver::start(None);
    assert_eq!(resolver.advance(Event::EnvRead(None)), Step::Prompt);
    assert_eq!(resolver.advance(Event::PromptWritten(Ok(()))), Step::ReadHiddenLine);
    let (result, end_line) =
        finish(resolver.advance(Event::LineRead(Ok(Some("typed".to_string())))));
    assert_eq!(result, Ok("typed".to_string()));
    assert!(end_line);
}

#[test]
fn file_contents_served_verbatim() {
    let (mut resolver, _) = Resolver::start(Some("/tmp/x".to_string()));
    let (result, _) = finish(resolver.advance(Event::FileRead(Ok("hunter2".to_string()))));
    let secret = Secret::new(result.unwrap());
    for _ in 0..3 {
        let response = secret.respond();
        assert_eq!(response.status, STATUS_OK);
        assert_eq!(response.body, "hunter2");
    }
}

#[test]
fn trailing_newline_kept() {
    let (mut resolver, _) = Resolver::start(Some("/tmp/x".to_string()));
    let (result, _) = finish(resolver.advance(Event::FileRead(Ok("hunter2\n".to_string()))));
    let secret = Secret::new(result.unwrap());
    assert_eq!(secret.respond().body, "hunter2\n");
    assert_eq!(secret.as_str(), "hunter2\n");
}

#[test]
fn unreadable_file_is_fatal_without_fallback() {
    let (mut resolver, _) = Resolver::start(Some("/missing".to_string()));
    let (result, end_line) =
        finish(resolver.advance(Event::FileRead(Err("No such file or directory".to_string()))));
    assert_eq!(
        result,
        Err(Error::ReadFromFile {
            path: "/missing".to_string(),
            cause: "No such file or directory".to_string(),
        })
    );
    assert!(!end_line);
    assert!(!resolver.expects(&Event::EnvRead(Some("x".to_string()))));
    assert!(!resolver.expects(&Event::FileRead(Ok("x".to_string()))));
}

#[test]
fn empty_env_is_an_empty_secret() {
    let (mut resolver, _) = Resolver::start(None);
    let step = resolver.advance(Event::EnvRead(Some(String::new())));
    assert_ne!(step, Step::Prompt);
    let (result, end_line) = finish(step);
    assert_eq!(result, Ok(String::new()));
    assert!(!end_line);
    let secret = Secret::new(result.unwrap());
    assert_eq!(secret.respond().body, "");
    assert_eq!(secret.respond().status, 200);
}

#[test]
fn eof_at_prompt_is_an_abort() {
    let (mut resolver, _) = Resolver::start(None);
    resolver.advance(Event::EnvRead(None));
    resolver.advance(Event::PromptWritten(Ok(())));
    let (result, end_line) = finish(resolver.advance(Event::LineRead(Ok(None))));
    let error = result.unwrap_err();
    assert_eq!(error, Error::StdinAborted);
    assert_ne!(error.exit_status(), 0);
    assert!(!end_line);
}

#[test]
fn empty_line_is_not_an_abort() {
    let (mut resolver, _) = Resolver::start(None);
    resolver.advance(Event::EnvRead(None));
    resolver.advance(Event::PromptWritten(Ok(())));
    let (result, end_line) = finish(resolver.advance(Event::LineRead(Ok(Some(String::new())))));
    assert_eq!(result, Ok(String::new()));
    assert!(end_line);
}

#[test]
fn stdin_read_failure() {
    let (mut resolver, _) = Resolver::start(None);
    resolver.advance(Event::EnvRead(None));
    resolver.advance(Event::PromptWritten(Ok(())));
    let (result, _) = finish(resolver.advance(Event::LineRead(Err("broken pipe".to_string()))));
    assert_eq!(result, Err(Error::StdinError { cause: "broken pipe".to_string() }));
}

#[test]
fn stdout_write_failure() {
    let (mut resolver, _) = Resolver::start(None);
    resolver.advance(Event::EnvRead(None));
    let step = resolver.advance(Event::PromptWritten(Err("closed".to_string())));
    let (result, end_line) = finish(step);
    assert_eq!(result, Err(Error::StdoutError { cause: "closed".to_string() }));
    assert!(!end_line);
    assert!(!resolver.expects(&Event::LineRead(Ok(None))));
}

#[test]
fn fixed_names() {
    assert_eq!(SECRET_NAME, "HTTPOSE_SECRET");
    assert_eq!(PROMPT, "Enter the secret: ");
}
