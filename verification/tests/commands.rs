use browser_shell::handler::{dispatch, go_back, go_forward, navigate_to, refresh_page, Command};
use browser_shell::outcome::{report, EvalFailure, Evaluation};

/// A stand-in for the window's document: the container's content, what the
/// element was asked to do, and whether the window still evaluates scripts.
struct Document {
    container: String,
    calls: Vec<String>,
    evaluated: Vec<String>,
    closed: Option<String>,
}

fn open_document() -> Document {
    Document {
        container: String::new(),
        calls: Vec::new(),
        evaluated: Vec::new(),
        closed: None,
    }
}

fn closed_document(why: &str) -> Document {
    Document {
        container: String::new(),
        calls: Vec::new(),
        evaluated: Vec::new(),
        closed: Some(why.to_string()),
    }
}

fn evaluate(document: &mut Document, script: &str) -> Evaluation {
    if let Some(why) = &document.closed {
        return Err(EvalFailure {
            description: why.clone(),
        });
    }
    document.evaluated.push(script.to_string());
    let statement = script.trim();
    let assign = "document.getElementById('webview-container').innerHTML = `";
    let query = "document.querySelector('#webview-container webview')?.";
    if let Some(rest) = statement.strip_prefix(assign) {
        let end = rest.find('`').unwrap();
        document.container = rest[..end].to_string();
    } else if let Some(rest) = statement.strip_prefix(query) {
        let method = rest.strip_suffix("();").unwrap();
        if document.container.contains("<webview") {
            document.calls.push(method.to_string());
        }
    } else {
        panic!("unknown script: {}", script);
    }
    Ok(())
}

fn source_of(container: &str) -> Option<String> {
    let opened = container.find("src=\"")? + 5;
    let closed = opened + container[opened..].find('"')?;
    Some(container[opened..closed].to_string())
}

#[test]
fn navigate_mounts_element_with_source() {
    let mut document = open_document();
    let result = navigate_to(
        |script: &str| evaluate(&mut document, script),
        "https://example.com".to_string(),
    );
    assert_eq!(result, Ok(()));
    assert!(document.container.contains("<webview"));
    assert!(document.container.contains("></webview>"));
    assert_eq!(
        source_of(&document.container),
        Some("https://example.com".to_string())
    );
    assert_eq!(document.evaluated.len(), 1);
}

#[test]
fn second_navigation_replaces_first() {
    let mut document = open_document();
    let first = navigate_to(
        |script: &str| evaluate(&mut document, script),
        "https://first.example".to_string(),
    );
    let second = navigate_to(
        |script: &str| evaluate(&mut document, script),
        "https://second.example".to_string(),
    );
    assert_eq!(first, Ok(()));
    assert_eq!(second, Ok(()));
    assert_eq!(
        source_of(&document.container),
        Some("https://second.example".to_string())
    );
    assert!(!document.container.contains("https://first.example"));
    assert_eq!(document.container.matches("<webview").count(), 1);
}

#[test]
fn go_back_without_navigation_succeeds() {
    let mut document = open_document();
    let result = go_back(|script: &str| evaluate(&mut document, script));
    assert_eq!(result, Ok(()));
    assert!(document.calls.is_empty());
    assert_eq!(document.container, "");
}

#[test]
fn refresh_and_forward_without_navigation_succeed() {
    let mut document = open_document();
    assert_eq!(
        refresh_page(|script: &str| evaluate(&mut document, script)),
        Ok(())
    );
    assert_eq!(
        go_forward(|script: &str| evaluate(&mut document, script)),
        Ok(())
    );
    assert!(document.calls.is_empty());
    assert_eq!(document.evaluated.len(), 2);
}

#[test]
fn calls_reach_the_element_after_navigation() {
    let mut document = open_document();
    navigate_to(
        |script: &str| evaluate(&mut document, script),
        "https://example.com".to_string(),
    )
    .unwrap();
    refresh_page(|script: &str| evaluate(&mut document, script)).unwrap();
    go_back(|script: &str| evaluate(&mut document, script)).unwrap();
    go_back(|script: &str| evaluate(&mut document, script)).unwrap();
    go_forward(|script: &str| evaluate(&mut document, script)).unwrap();
    assert_eq!(document.calls, vec!["reload", "back", "back", "forward"]);
}

#[test]
fn failed_evaluation_is_reported_with_its_description() {
    let mut document = closed_document("window was destroyed");
    let result = go_back(|script: &str| evaluate(&mut document, script));
    assert_eq!(result, Err("window was destroyed".to_string()));
}

#[test]
fn every_command_reports_failure() {
    let why = "failed to send message to the webview";
    let mut document = closed_document(why);
    assert_eq!(
        navigate_to(
            |script: &str| evaluate(&mut document, script),
            "https://example.com".to_string()
        ),
        Err(why.to_string())
    );
    assert_eq!(
        refresh_page(|script: &str| evaluate(&mut document, script)),
        Err(why.to_string())
    );
    assert_eq!(
        go_back(|script: &str| evaluate(&mut document, script)),
        Err(why.to_string())
    );
    assert_eq!(
        go_forward(|script: &str| evaluate(&mut document, script)),
        Err(why.to_string())
    );
    assert!(document.evaluated.is_empty());
    assert_eq!(document.container, "");
}

#[test]
fn every_command_reports_success() {
    let mut document = open_document();
    assert_eq!(
        navigate_to(
            |script: &str| evaluate(&mut document, script),
            "https://example.com".to_string()
        ),
        Ok(())
    );
    assert_eq!(
        refresh_page(|script: &str| evaluate(&mut document, script)),
        Ok(())
    );
    assert_eq!(
        go_back(|script: &str| evaluate(&mut document, script)),
        Ok(())
    );
    assert_eq!(
        go_forward(|script: &str| evaluate(&mut document, script)),
        Ok(())
    );
}

#[test]
fn each_command_evaluates_its_own_script_once() {
    let mut seen: Vec<String> = Vec::new();
    navigate_to(
        |script: &str| {
            seen.push(script.to_string());
            Ok(())
        },
        "https://example.com".to_string(),
    )
    .unwrap();
    refresh_page(|script: &str| {
        seen.push(script.to_string());
        Ok(())
    })
    .unwrap();
    go_back(|script: &str| {
        seen.push(script.to_string());
        Ok(())
    })
    .unwrap();
    go_forward(|script: &str| {
        seen.push(script.to_string());
        Ok(())
    })
    .unwrap();
    assert_eq!(
        seen,
        vec![
            browser_shell::script::navigate_script("https://example.com"),
            browser_shell::script::refresh_script(),
            browser_shell::script::back_script(),
            browser_shell::script::forward_script(),
        ]
    );
}

#[test]
fn dispatch_routes_each_command() {
    let mut document = open_document();
    let commands = vec![
        Command::NavigateTo {
            url: "https://example.com".to_string(),
        },
        Command::RefreshPage,
        Command::GoBack,
        Command::GoForward,
    ];
    for command in commands {
        let script = command.script();
        let result = dispatch(|script: &str| evaluate(&mut document, script), command);
        assert_eq!(result, Ok(()));
        assert_eq!(document.evaluated.last(), Some(&script));
    }
    assert_eq!(document.calls, vec!["reload", "back", "forward"]);
    assert_eq!(
        source_of(&document.container),
        Some("https://example.com".to_string())
    );
}

#[test]
fn dispatch_reports_failure() {
    let mut document = closed_document("no window");
    let result = dispatch(
        |script: &str| evaluate(&mut document, script),
        Command::RefreshPage,
    );
    assert_eq!(result, Err("no window".to_string()));
}

#[test]
fn command_scripts_are_the_handlers_scripts() {
    assert_eq!(
        Command::NavigateTo {
            url: "https://example.com".to_string()
        }
        .script(),
        browser_shell::script::navigate_script("https://example.com")
    );
    assert_eq!(
        Command::RefreshPage.script(),
        browser_shell::script::refresh_script()
    );
    assert_eq!(Command::GoBack.script(), browser_shell::script::back_script());
    assert_eq!(
        Command::GoForward.script(),
        browser_shell::script::forward_script()
    );
}

#[test]
fn report_keeps_success() {
    assert_eq!(report(Ok(())), Ok(()));
}

#[test]
fn report_gives_the_description() {
    let failure = EvalFailure {
        description: "script evaluation failed".to_string(),
    };
    assert_eq!(report(Err(failure)), Err("script evaluation failed".to_string()));
}

#[test]
fn report_keeps_an_empty_description() {
    let failure = EvalFailure {
        description: String::new(),
    };
    assert_eq!(report(Err(failure)), Err(String::new()));
}
