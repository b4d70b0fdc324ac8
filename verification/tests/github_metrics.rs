//! The shape of usage snapshots, as the GitHub API would return them.

use ghrust::models::github::{
    CopilotDotcomChat, CopilotDotcomPullRequests, CopilotIdeChat, CopilotIdeCodeCompletions,
    CopilotMetrics, Editor, Language, Model, Repository,
};
use ghrust::services::datadog::DatadogClient;
use ghrust::services::github::GitHubClient;

fn model(name: &str, engaged: i64) -> Model {
    Model {
        name: name.to_string(),
        is_custom_model: false,
        custom_model_training_date: None,
        total_engaged_users: engaged,
        languages: None,
        total_chats: None,
        total_chat_insertion_events: None,
        total_chat_copy_events: None,
        total_pr_summaries_created: None,
    }
}

fn chat_model(name: &str, engaged: i64, chats: i64, insertions: i64, copies: i64) -> Model {
    Model {
        total_chats: Some(chats),
        total_chat_insertion_events: Some(insertions),
        total_chat_copy_events: Some(copies),
        ..model(name, engaged)
    }
}

/// Metrics at the scale of an enterprise.
fn create_test_metrics() -> CopilotMetrics {
    CopilotMetrics {
        date: "2023-03-01".to_string(),
        total_active_users: Some(1000),
        total_engaged_users: Some(800),
        copilot_ide_code_completions: Some(CopilotIdeCodeCompletions {
            total_engaged_users: 600,
            languages: Some(vec![Language {
                name: "Rust".to_string(),
                total_engaged_users: 300,
                total_code_suggestions: Some(5000),
                total_code_acceptances: Some(2500),
                total_code_lines_suggested: Some(10000),
                total_code_lines_accepted: Some(5000),
            }]),
            editors: Some(vec![Editor {
                name: "VS Code".to_string(),
                total_engaged_users: 550,
                models: None,
            }]),
        }),
        copilot_ide_chat: Some(CopilotIdeChat {
            total_engaged_users: 400,
            editors: Some(vec![Editor {
                name: "VS Code".to_string(),
                total_engaged_users: 375,
                models: None,
            }]),
        }),
        copilot_dotcom_chat: Some(CopilotDotcomChat {
            total_engaged_users: 300,
            models: Some(vec![chat_model("GPT-4", 290, 500, 300, 200)]),
        }),
        copilot_dotcom_pull_requests: Some(CopilotDotcomPullRequests {
            total_engaged_users: 200,
            repositories: Some(vec![Repository {
                name: "test-repo".to_string(),
                total_engaged_users: 180,
                models: vec![Model {
                    total_pr_summaries_created: Some(50),
                    ..model("GPT-4", 170)
                }],
            }]),
        }),
    }
}

/// Metrics at the scale of a team.
fn create_test_team_metrics() -> CopilotMetrics {
    CopilotMetrics {
        date: "2023-03-01".to_string(),
        total_active_users: Some(150),
        total_engaged_users: Some(120),
        copilot_ide_code_completions: Some(CopilotIdeCodeCompletions {
            total_engaged_users: 90,
            languages: Some(vec![Language {
                name: "Rust".to_string(),
                total_engaged_users: 45,
                total_code_suggestions: Some(750),
                total_code_acceptances: Some(375),
                total_code_lines_suggested: Some(1500),
                total_code_lines_accepted: Some(750),
            }]),
            editors: Some(vec![Editor {
                name: "VS Code".to_string(),
                total_engaged_users: 82,
                models: None,
            }]),
        }),
        copilot_ide_chat: Some(CopilotIdeChat {
            total_engaged_users: 60,
            editors: Some(vec![Editor {
                name: "VS Code".to_string(),
                total_engaged_users: 56,
                models: None,
            }]),
        }),
        copilot_dotcom_chat: Some(CopilotDotcomChat {
            total_engaged_users: 45,
            models: Some(vec![chat_model("GPT-4", 43, 75, 45, 30)]),
        }),
        copilot_dotcom_pull_requests: Some(CopilotDotcomPullRequests {
            total_engaged_users: 30,
            repositories: Some(vec![Repository {
                name: "test-repo".to_string(),
                total_engaged_users: 27,
                models: vec![Model {
                    total_pr_summaries_created: Some(10),
                    ..model("GPT-4", 25)
                }],
            }]),
        }),
    }
}

/// Metrics with a detailed editor chat block: two editors, two models each.
fn create_chat_metrics() -> CopilotMetrics {
    CopilotMetrics {
        date: "2023-03-01".to_string(),
        total_active_users: Some(100),
        total_engaged_users: Some(80),
        copilot_ide_code_completions: None,
        copilot_ide_chat: Some(CopilotIdeChat {
            total_engaged_users: 80,
            editors: Some(vec![
                Editor {
                    name: "VS Code".to_string(),
                    total_engaged_users: 75,
                    models: Some(vec![
                        chat_model("GPT-4", 70, 137, 39, 44),
                        chat_model("GPT-3.5", 65, 298, 0, 0),
                    ]),
                },
                Editor {
                    name: "IntelliJ".to_string(),
                    total_engaged_users: 5,
                    models: Some(vec![
                        chat_model("GPT-4", 5, 44, 0, 0),
                        chat_model("GPT-3.5", 5, 51, 0, 0),
                    ]),
                },
            ]),
        }),
        copilot_dotcom_chat: None,
        copilot_dotcom_pull_requests: None,
    }
}

/// A response as the API would give it today.
fn create_mock_api_response() -> Result<Vec<CopilotMetrics>, String> {
    let now = chrono::Utc::now();
    let date = now.format("%Y-%m-%d").to_string();

    Ok(vec![CopilotMetrics {
        date,
        total_active_users: Some(100),
        total_engaged_users: Some(50),
        copilot_ide_code_completions: Some(CopilotIdeCodeCompletions {
            total_engaged_users: 30,
            languages: Some(vec![Language {
                name: "Python".to_string(),
                total_engaged_users: 20,
                total_code_suggestions: Some(1000),
                total_code_acceptances: Some(800),
                total_code_lines_suggested: Some(5000),
                total_code_lines_accepted: Some(4000),
            }]),
            editors: None,
        }),
        copilot_ide_chat: Some(CopilotIdeChat {
            total_engaged_users: 20,
            editors: Some(vec![Editor {
                name: "VS Code".to_string(),
                total_engaged_users: 15,
                models: Some(vec![Model {
                    total_pr_summaries_created: Some(20),
                    ..chat_model("gpt-4", 10, 100, 30, 50)
                }]),
            }]),
        }),
        copilot_dotcom_chat: Some(CopilotDotcomChat {
            total_engaged_users: 10,
            models: Some(vec![Model { total_chats: Some(50), ..model("gpt-4", 8) }]),
        }),
        copilot_dotcom_pull_requests: None,
    }])
}

fn create_mock_metrics(active_users: i64, engaged_users: i64) -> CopilotMetrics {
    let mut metrics = create_test_metrics();
    metrics.total_active_users = Some(active_users);
    metrics.total_engaged_users = Some(engaged_users);
    metrics
}

fn mock_response(_client: &GitHubClient) -> Result<Vec<CopilotMetrics>, String> {
    create_mock_api_response()
}

#[test]
fn test_mock_metrics() {
    let metrics = create_test_metrics();
    assert_eq!(metrics.date, "2023-03-01");
    assert_eq!(metrics.total_active_users, Some(1000));
    assert_eq!(
        metrics
            .copilot_ide_code_completions
            .as_ref()
            .unwrap()
            .total_engaged_users,
        600
    );
}

#[test]
fn test_enterprise_metrics_mock() {
    let metrics = create_test_metrics();

    assert_eq!(metrics.total_active_users, Some(1000));
    assert_eq!(metrics.total_engaged_users, Some(800));

    if let Some(completions) = &metrics.copilot_ide_code_completions {
        if let Some(languages) = &completions.languages {
            assert!(!languages.is_empty());
            let rust_lang = &languages[0];
            assert_eq!(rust_lang.name, "Rust");
            assert_eq!(rust_lang.total_engaged_users, 300);
        } else {
            panic!("Expected languages data to be present");
        }
    } else {
        panic!("Expected IDE code completions data to be present");
    }
}

#[test]
fn test_team_metrics_mock() {
    let metrics = create_test_team_metrics();
    assert_eq!(metrics.date, "2023-03-01");
    assert_eq!(metrics.total_active_users, Some(150));
    assert_eq!(metrics.total_engaged_users, Some(120));
    assert_eq!(
        metrics
            .copilot_ide_code_completions
            .as_ref()
            .unwrap()
            .total_engaged_users,
        90
    );
}

#[test]
fn test_ide_chat_metrics_calculation() {
    let metrics = create_chat_metrics();

    let datadog_client = DatadogClient::new("test_api_key".to_string());
    let timestamp = datadog_client.current_timestamp().unwrap();
    let namespace = "test.namespace";
    let date = "2023-03-01";

    let chat = metrics
        .copilot_ide_chat
        .as_ref()
        .expect("Expected IDE chat metrics to be present");
    assert!(datadog_client.ide_chat_totals_in_range(chat));
    let series = datadog_client.prepare_ide_chat_metrics(
        chat,
        namespace,
        date,
        timestamp,
        Some("gh.p7s1.test"),
    );

    let expected_metrics = [
        ("gh.p7s1.test.copilot_ide_chat.total_chats", 530),
        ("gh.p7s1.test.copilot_ide_chat.total_chat_copy_events", 44),
        ("gh.p7s1.test.copilot_ide_chat.total_chat_insertion_events", 39),
    ];
    for (metric_name, expected_value) in &expected_metrics {
        let found = series
            .points
            .iter()
            .any(|p| p.name == *metric_name && p.value == *expected_value);
        assert!(found, "Missing or incorrect {} metric", metric_name);
    }

    assert_eq!(chat.total_engaged_users, 80);
    let editors = chat.editors.as_ref().unwrap();
    assert_eq!(editors.len(), 2);
    assert_eq!(editors[0].name, "VS Code");
    assert_eq!(editors[0].total_engaged_users, 75);
}

#[test]
fn test_github_api_with_mock() {
    let client = GitHubClient::new("fake_token");
    let metrics = mock_response(&client).unwrap();
    let metric = &metrics[0];

    assert_eq!(metric.total_active_users, Some(100));
    assert_eq!(metric.total_engaged_users, Some(50));
    assert_eq!(
        metric
            .copilot_ide_code_completions
            .as_ref()
            .unwrap()
            .total_engaged_users,
        30
    );
    assert_eq!(
        metric
            .copilot_ide_chat
            .as_ref()
            .unwrap()
            .total_engaged_users,
        20
    );
    assert_eq!(
        metric
            .copilot_dotcom_chat
            .as_ref()
            .unwrap()
            .total_engaged_users,
        10
    );
}

#[test]
fn test_create_mock_metrics() {
    let metrics = create_mock_metrics(100, 80);
    assert_eq!(metrics.total_active_users, Some(100));
    assert_eq!(metrics.total_engaged_users, Some(80));
}

#[test]
fn mock_response_is_dated_today() {
    let metrics = create_mock_api_response().unwrap();
    assert_eq!(metrics.len(), 1);
    assert_eq!(metrics[0].date.len(), 10);
}

#[test]
fn team_metrics_are_smaller_than_enterprise_metrics() {
    let enterprise = create_test_metrics();
    let team = create_test_team_metrics();
    assert!(team.total_active_users.unwrap() < enterprise.total_active_users.unwrap());
    let clone = team.clone();
    assert_eq!(clone.date, team.date);
}
