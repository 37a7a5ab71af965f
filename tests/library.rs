use gitlab_ci_status::config::{branch_from_shorthand, config_from_values};
use gitlab_ci_status::error::{check_http_status, CiError, ConfigKey, Listing, RepoStep};
use gitlab_ci_status::flow::{step, Command, Event, Phase, Segment, Transition};
use gitlab_ci_status::model::{GitLabConfig, Job, Pipeline};
use gitlab_ci_status::status::{label_for_folded, render, Style};
use gitlab_ci_status::url::{decimal_string, jobs_url, pipelines_url, trim_trailing_slashes};

fn config(server: &str, project: &str) -> GitLabConfig {
    GitLabConfig {
        server: server.to_string(),
        access_token: "SECRET-REDACTED".to_string(),
        project_name: project.to_string(),
    }
}

fn texts(t: &Transition) -> Vec<String> {
    t.output.iter().map(|s: &Segment| s.text.clone()).collect()
}

fn job(id: u64, name: &str, stage: &str, status: &str) -> Job {
    Job { id, status: status.to_string(), name: name.to_string(), stage: stage.to_string() }
}

#[test]
fn render_known_statuses_any_case() {
    let cases = [
        ("success", "● SUCCESS", Style::GreenBold),
        ("SUCCESS", "● SUCCESS", Style::GreenBold),
        ("Failed", "● FAILED", Style::RedBold),
        ("running", "● BUILDING", Style::YellowBold),
        ("PENDING", "● BUILDING", Style::YellowBold),
        ("canceled", "● CANCELED", Style::WhiteBold),
        ("sKiPpEd", "● SKIPPED", Style::BlueBold),
    ];
    for (input, text, style) in cases {
        let l = render(input);
        assert_eq!(l.text, text);
        assert_eq!(l.style, style);
    }
}

#[test]
fn render_unknown_status_is_uppercased() {
    let l = render("manual");
    assert_eq!(l.text, "● MANUAL");
    assert_eq!(l.style, Style::WhiteBold);
    let e = render("");
    assert_eq!(e.text, "● ");
    let w = render("waiting_for_resource");
    assert_eq!(w.text, "● WAITING_FOR_RESOURCE");
}

#[test]
fn label_from_folded_forms() {
    assert_eq!(label_for_folded("failed", "FAILED").text, "● FAILED");
    assert_eq!(label_for_folded("created", "CREATED").text, "● CREATED");
    assert_eq!(label_for_folded("Success", "X").text, "● X");
}

#[test]
fn project_is_percent_encoded_branch_is_not() {
    let c = config("https://gitlab.example.com", "group/sub-project");
    assert_eq!(
        pipelines_url(&c, "feature/x"),
        "https://gitlab.example.com/api/v4/projects/group%2Fsub-project/pipelines?ref=feature/x"
    );
    assert_eq!(
        jobs_url(&c, 1234),
        "https://gitlab.example.com/api/v4/projects/group%2Fsub-project/pipelines/1234/jobs"
    );
}

#[test]
fn encoding_keeps_unreserved_and_escapes_the_rest() {
    let c = config("http://h", "a.b_c-d~e f+é");
    assert_eq!(pipelines_url(&c, "main"), "http://h/api/v4/projects/a.b_c-d~e%20f%2B%C3%A9/pipelines?ref=main");
    let n = config("http://h", "42");
    assert_eq!(jobs_url(&n, 0), "http://h/api/v4/projects/42/pipelines/0/jobs");
}

#[test]
fn trailing_slash_is_not_doubled() {
    let c = config("https://gitlab.example.com/", "p");
    let u = pipelines_url(&c, "main");
    assert_eq!(u, "https://gitlab.example.com/api/v4/projects/p/pipelines?ref=main");
    assert!(!u.contains("//api/v4"));
    let many = config("https://gitlab.example.com///", "p");
    assert_eq!(jobs_url(&many, 9), "https://gitlab.example.com/api/v4/projects/p/pipelines/9/jobs");
}

#[test]
fn trimming_slashes() {
    assert_eq!(trim_trailing_slashes("a/b//"), "a/b");
    assert_eq!(trim_trailing_slashes("///"), "");
    assert_eq!(trim_trailing_slashes(""), "");
    assert_eq!(trim_trailing_slashes("abc"), "abc");
}

#[test]
fn decimal_forms() {
    assert_eq!(decimal_string(0), "0");
    assert_eq!(decimal_string(7), "7");
    assert_eq!(decimal_string(10), "10");
    assert_eq!(decimal_string(907), "907");
    assert_eq!(decimal_string(u64::MAX), "18446744073709551615");
}

#[test]
fn config_requires_every_key() {
    let s = || Some("x".to_string());
    let ok = config_from_values(s(), Some("tok".to_string()), Some("g/p".to_string())).unwrap();
    assert_eq!(ok.server, "x");
    assert_eq!(ok.access_token, "tok");
    assert_eq!(ok.project_name, "g/p");
    assert_eq!(config_from_values(None, s(), s()).unwrap_err(), CiError::Config(ConfigKey::Server));
    assert_eq!(
        config_from_values(s(), None, s()).unwrap_err(),
        CiError::Config(ConfigKey::AccessToken)
    );
    assert_eq!(
        config_from_values(s(), s(), None).unwrap_err(),
        CiError::Config(ConfigKey::ProjectName)
    );
    assert_eq!(config_from_values(None, None, None).unwrap_err(), CiError::Config(ConfigKey::Server));
}

#[test]
fn missing_token_stops_before_any_request() {
    let err = config_from_values(Some("x".to_string()), None, Some("p".to_string())).unwrap_err();
    assert_eq!(err.message(), "gitlab.access-token not found in .git/config");
    let t = step(Phase::AwaitConfig, Event::Failed { error: err });
    assert_eq!(t.phase, Phase::Done);
    assert!(matches!(t.command, Command::Exit { code: 1 }));
    assert_eq!(texts(&t), vec!["Error: gitlab.access-token not found in .git/config".to_string()]);
    assert!(t.output[0].to_stderr);
}

#[test]
fn branch_needs_a_short_name() {
    assert_eq!(branch_from_shorthand(Some("feature/x".to_string())).unwrap(), "feature/x");
    assert_eq!(
        branch_from_shorthand(None).unwrap_err(),
        CiError::Repository(RepoStep::BranchName)
    );
}

#[test]
fn http_status_outcomes() {
    assert_eq!(check_http_status(200), Ok(()));
    assert_eq!(check_http_status(204), Ok(()));
    assert_eq!(check_http_status(299), Ok(()));
    assert_eq!(check_http_status(199), Err(CiError::Api(199)));
    assert_eq!(check_http_status(300), Err(CiError::Api(300)));
    assert_eq!(check_http_status(404), Err(CiError::Api(404)));
}

#[test]
fn error_messages() {
    assert_eq!(CiError::Repository(RepoStep::Open).message(), "Failed to open git repository");
    assert_eq!(CiError::Repository(RepoStep::ReadConfig).message(), "Failed to get git config");
    assert_eq!(CiError::Repository(RepoStep::ReadHead).message(), "Failed to get HEAD");
    assert_eq!(CiError::Repository(RepoStep::BranchName).message(), "Failed to get branch name");
    assert_eq!(CiError::Config(ConfigKey::Server).message(), "gitlab.server not found in .git/config");
    assert_eq!(
        CiError::Config(ConfigKey::ProjectName).message(),
        "gitlab.project-name not found in .git/config"
    );
    assert_eq!(CiError::Network.message(), "Failed to send request to GitLab API");
    assert_eq!(CiError::Api(401).message(), "GitLab API request failed: 401");
    assert_eq!(CiError::Decode(Listing::Pipelines).message(), "Failed to parse pipeline response");
    assert_eq!(CiError::Decode(Listing::Jobs).message(), "Failed to parse jobs response");
    assert_eq!(ConfigKey::AccessToken.name(), "gitlab.access-token");
}

#[test]
fn outside_repository_exits_one_before_config() {
    let t = step(Phase::Start, Event::RepoChecked { found: false });
    assert_eq!(t.phase, Phase::Done);
    assert!(matches!(t.command, Command::Exit { code: 1 }));
    assert_eq!(texts(&t), vec!["Error: Not in a git repository".to_string()]);
    assert_eq!(t.output[0].style, Style::Red);
    assert!(t.output[0].to_stderr);
}

#[test]
fn inside_repository_reads_config_then_branch() {
    let t = step(Phase::Start, Event::RepoChecked { found: true });
    assert_eq!(t.phase, Phase::AwaitConfig);
    assert!(matches!(t.command, Command::ReadConfig));
    assert!(t.output.is_empty());
    let t = step(Phase::AwaitConfig, Event::ConfigLoaded);
    assert_eq!(t.phase, Phase::AwaitBranch);
    assert!(matches!(t.command, Command::ResolveBranch));
    let t = step(Phase::AwaitBranch, Event::BranchResolved { branch: "feature/x".to_string() });
    assert_eq!(t.phase, Phase::AwaitPipelines);
    assert_eq!(texts(&t), vec!["Branch: ".to_string(), "feature/x".to_string()]);
    assert_eq!(t.output[1].style, Style::Cyan);
    match t.command {
        Command::FetchPipelines { branch } => assert_eq!(branch, "feature/x"),
        other => panic!("unexpected command {:?}", other),
    }
}

#[test]
fn no_pipelines_exits_zero_without_jobs() {
    let t = step(Phase::AwaitPipelines, Event::PipelinesFetched { pipelines: Vec::new() });
    assert_eq!(t.phase, Phase::Done);
    assert!(matches!(t.command, Command::Exit { code: 0 }));
    assert_eq!(texts(&t), vec!["No pipelines found for this branch".to_string()]);
    assert_eq!(t.output[0].style, Style::Yellow);
    assert!(!t.output[0].to_stderr);
}

#[test]
fn running_pipeline_with_two_jobs() {
    let pipelines = vec![
        Pipeline {
            id: 77,
            status: "running".to_string(),
            ref_field: String::new(),
            ref_name: "main".to_string(),
        },
        Pipeline {
            id: 76,
            status: "failed".to_string(),
            ref_field: String::new(),
            ref_name: "main".to_string(),
        },
    ];
    let t = step(Phase::AwaitPipelines, Event::PipelinesFetched { pipelines });
    assert_eq!(t.phase, Phase::AwaitJobs);
    assert!(matches!(t.command, Command::FetchJobs { pipeline_id: 77 }));
    assert_eq!(texts(&t), vec!["Pipeline ID: 77".to_string(), "Status: ".to_string(), "● BUILDING".to_string()]);
    assert_eq!(t.output[2].style, Style::YellowBold);
    let jobs = vec![job(1, "build", "build", "success"), job(2, "test", "test", "failed")];
    let t = step(Phase::AwaitJobs, Event::JobsFetched { jobs });
    assert_eq!(t.phase, Phase::Done);
    assert!(matches!(t.command, Command::Exit { code: 0 }));
    assert_eq!(
        texts(&t),
        vec![
            "\nJobs:".to_string(),
            "  build (build) - ".to_string(),
            "● SUCCESS".to_string(),
            "  test (test) - ".to_string(),
            "● FAILED".to_string(),
        ]
    );
    assert!(!t.output[1].newline);
    assert!(t.output[2].newline);
    assert_eq!(t.output[2].style, Style::GreenBold);
    assert_eq!(t.output[4].style, Style::RedBold);
}

#[test]
fn no_jobs_prints_nothing() {
    let t = step(Phase::AwaitJobs, Event::JobsFetched { jobs: Vec::new() });
    assert!(t.output.is_empty());
    assert!(matches!(t.command, Command::Exit { code: 0 }));
}

#[test]
fn failures_and_out_of_order_events_exit_one() {
    let t = step(Phase::AwaitPipelines, Event::Failed { error: CiError::Api(404) });
    assert!(matches!(t.command, Command::Exit { code: 1 }));
    assert_eq!(texts(&t), vec!["Error: GitLab API request failed: 404".to_string()]);
    let t = step(Phase::Start, Event::ConfigLoaded);
    assert!(matches!(t.command, Command::Exit { code: 1 }));
    assert!(t.output.is_empty());
    let t = step(Phase::Done, Event::JobsFetched { jobs: Vec::new() });
    assert!(matches!(t.command, Command::Exit { code: 1 }));
}
