//! From usage snapshots to points.

use ghrust::models::github::{
    CopilotDotcomChat, CopilotDotcomPullRequests, CopilotIdeChat, CopilotIdeCodeCompletions,
    CopilotMetrics, Editor, Language, Model, Repository,
};
use ghrust::services::datadog::{standard_tags, DatadogClient, MetricPoint, MetricSeries};

const TS: i64 = 1_700_000_000;

fn client() -> DatadogClient {
    DatadogClient::new("key".to_string())
}

fn bare(date: &str) -> CopilotMetrics {
    CopilotMetrics {
        date: date.to_string(),
        total_active_users: None,
        total_engaged_users: None,
        copilot_ide_code_completions: None,
        copilot_ide_chat: None,
        copilot_dotcom_chat: None,
        copilot_dotcom_pull_requests: None,
    }
}

fn model(name: &str, custom: bool, engaged: i64) -> Model {
    Model {
        name: name.to_string(),
        is_custom_model: custom,
        custom_model_training_date: None,
        total_engaged_users: engaged,
        languages: None,
        total_chats: None,
        total_chat_insertion_events: None,
        total_chat_copy_events: None,
        total_pr_summaries_created: None,
    }
}

fn chat_model(name: &str, chats: i64) -> Model {
    Model { total_chats: Some(chats), ..model(name, false, 1) }
}

fn tags(list: &[&str]) -> Vec<String> {
    list.iter().map(|t| t.to_string()).collect()
}

fn check(point: &MetricPoint, name: &str, value: i64, expected_tags: &[&str]) {
    assert_eq!(point.name, name);
    assert_eq!(point.value, value);
    assert_eq!(point.timestamp, TS);
    assert_eq!(point.tags, tags(expected_tags));
}

fn names(series: &MetricSeries) -> Vec<String> {
    series.points.iter().map(|p| p.name.clone()).collect()
}

#[test]
fn standard_tags_are_date_and_source() {
    assert_eq!(
        standard_tags("2024-01-01"),
        tags(&["date:2024-01-01", "source:github-copilot-metrics"])
    );
    assert_eq!(standard_tags(""), tags(&["date:", "source:github-copilot-metrics"]));
}

#[test]
fn a_snapshot_without_blocks_gives_two_points() {
    let snapshot = CopilotMetrics {
        total_active_users: Some(100),
        total_engaged_users: Some(80),
        ..bare("2024-01-01")
    };
    let series = client().prepare_all_metrics(&[snapshot], "acme.copilot", TS, None);
    assert_eq!(series.len(), 2);
    let base = ["date:2024-01-01", "source:github-copilot-metrics"];
    check(&series.points[0], "acme.copilot.total_active_users", 100, &base);
    check(&series.points[1], "acme.copilot.total_engaged_users", 80, &base);
}

#[test]
fn bare_snapshot_gives_two_zero_points() {
    let series = client().prepare_all_metrics(&[bare("2023-12-31")], "ns", TS, Some("roll"));
    assert_eq!(series.len(), 2);
    let base = ["date:2023-12-31", "source:github-copilot-metrics"];
    check(&series.points[0], "ns.total_active_users", 0, &base);
    check(&series.points[1], "ns.total_engaged_users", 0, &base);
}

#[test]
fn no_snapshots_give_no_points() {
    let series = client().prepare_all_metrics(&[], "ns", TS, None);
    assert_eq!(series.len(), 0);
}

#[test]
fn snapshots_are_flattened_in_order() {
    let first = CopilotMetrics { total_active_users: Some(1), ..bare("2024-01-01") };
    let second = CopilotMetrics { total_active_users: Some(2), ..bare("2024-01-02") };
    let series = client().prepare_all_metrics(&[first, second], "ns", TS, None);
    assert_eq!(series.len(), 4);
    check(
        &series.points[0],
        "ns.total_active_users",
        1,
        &["date:2024-01-01", "source:github-copilot-metrics"],
    );
    check(
        &series.points[2],
        "ns.total_active_users",
        2,
        &["date:2024-01-02", "source:github-copilot-metrics"],
    );
}

#[test]
fn an_absent_counter_gives_no_point() {
    let completions = CopilotIdeCodeCompletions {
        total_engaged_users: 9,
        languages: Some(vec![Language {
            name: "Rust".to_string(),
            total_engaged_users: 7,
            total_code_suggestions: Some(0),
            total_code_acceptances: None,
            total_code_lines_suggested: None,
            total_code_lines_accepted: Some(4),
        }]),
        editors: None,
    };
    let series = client().prepare_ide_code_completions_metrics(&completions, "ns", "2024-01-01", TS);
    let base = ["date:2024-01-01", "source:github-copilot-metrics"];
    let lang = ["date:2024-01-01", "source:github-copilot-metrics", "language:Rust"];
    assert_eq!(series.len(), 4);
    check(&series.points[0], "ns.ide.code_completions.total_engaged_users", 9, &base);
    check(&series.points[1], "ns.ide.code_completions.languages.total_engaged_users", 7, &lang);
    check(&series.points[2], "ns.ide.code_completions.languages.total_code_suggestions", 0, &lang);
    check(
        &series.points[3],
        "ns.ide.code_completions.languages.total_code_lines_accepted",
        4,
        &lang,
    );
}

#[test]
fn a_language_with_every_counter_gives_five_points() {
    let completions = CopilotIdeCodeCompletions {
        total_engaged_users: 600,
        languages: Some(vec![Language {
            name: "Rust".to_string(),
            total_engaged_users: 300,
            total_code_suggestions: Some(5000),
            total_code_acceptances: Some(2500),
            total_code_lines_suggested: Some(10000),
            total_code_lines_accepted: Some(5000),
        }]),
        editors: Some(vec![Editor {
            name: "VS Code".to_string(),
            total_engaged_users: 550,
            models: None,
        }]),
    };
    let series = client().prepare_ide_code_completions_metrics(&completions, "gh", "2023-03-01", TS);
    assert_eq!(
        names(&series),
        vec![
            "gh.ide.code_completions.total_engaged_users",
            "gh.ide.code_completions.languages.total_engaged_users",
            "gh.ide.code_completions.languages.total_code_suggestions",
            "gh.ide.code_completions.languages.total_code_acceptances",
            "gh.ide.code_completions.languages.total_code_lines_suggested",
            "gh.ide.code_completions.languages.total_code_lines_accepted",
            "gh.ide.code_completions.editors.total_engaged_users",
        ]
    );
    let values: Vec<i64> = series.points.iter().map(|p| p.value).collect();
    assert_eq!(values, vec![600, 300, 5000, 2500, 10000, 5000, 550]);
    check(
        &series.points[6],
        "gh.ide.code_completions.editors.total_engaged_users",
        550,
        &["date:2023-03-01", "source:github-copilot-metrics", "editor:VS Code"],
    );
}

#[test]
fn a_block_without_breakdowns_gives_one_point() {
    let completions =
        CopilotIdeCodeCompletions { total_engaged_users: 3, languages: None, editors: None };
    let series = client().prepare_ide_code_completions_metrics(&completions, "ns", "d", TS);
    assert_eq!(series.len(), 1);
    let empty =
        CopilotIdeCodeCompletions { total_engaged_users: 3, languages: Some(vec![]), editors: Some(vec![]) };
    let series = client().prepare_ide_code_completions_metrics(&empty, "ns", "d", TS);
    assert_eq!(series.len(), 1);
}

#[test]
fn models_carry_the_tags_of_their_editor() {
    let chat = CopilotIdeChat {
        total_engaged_users: 20,
        editors: Some(vec![Editor {
            name: "VS Code".to_string(),
            total_engaged_users: 15,
            models: Some(vec![Model {
                total_chats: Some(100),
                total_chat_copy_events: Some(50),
                total_chat_insertion_events: Some(30),
                total_pr_summaries_created: Some(20),
                ..model("gpt-4", true, 10)
            }]),
        }]),
    };
    let series = client().prepare_ide_chat_metrics(&chat, "ns", "2024-05-05", TS, None);
    let base = ["date:2024-05-05", "source:github-copilot-metrics"];
    let editor = ["date:2024-05-05", "source:github-copilot-metrics", "editor:VS Code"];
    let inner = [
        "date:2024-05-05",
        "source:github-copilot-metrics",
        "editor:VS Code",
        "model:gpt-4",
        "is_custom_model:true",
    ];
    assert_eq!(series.len(), 7);
    check(&series.points[0], "ns.ide.chat.total_engaged_users", 20, &base);
    check(&series.points[1], "ns.ide.chat.editors.total_engaged_users", 15, &editor);
    check(&series.points[2], "ns.ide.chat.editors.models.total_engaged_users", 10, &inner);
    check(&series.points[3], "ns.ide.chat.editors.models.total_chats", 100, &inner);
    check(&series.points[4], "ns.ide.chat.editors.models.total_chat_insertion_events", 30, &inner);
    check(&series.points[5], "ns.ide.chat.editors.models.total_chat_copy_events", 50, &inner);
    check(&series.points[6], "ns.ide.chat.editors.models.total_pr_summaries_created", 20, &inner);
}

fn two_editors_two_models() -> CopilotIdeChat {
    CopilotIdeChat {
        total_engaged_users: 80,
        editors: Some(vec![
            Editor {
                name: "VS Code".to_string(),
                total_engaged_users: 75,
                models: Some(vec![
                    Model {
                        total_chat_insertion_events: Some(39),
                        total_chat_copy_events: Some(44),
                        ..chat_model("GPT-4", 137)
                    },
                    chat_model("GPT-3.5", 298),
                ]),
            },
            Editor {
                name: "IntelliJ".to_string(),
                total_engaged_users: 5,
                models: Some(vec![chat_model("GPT-4", 44), chat_model("GPT-3.5", 51)]),
            },
        ]),
    }
}

#[test]
fn the_rollup_adds_up_the_chats_of_every_model() {
    let chat = two_editors_two_models();
    assert_eq!(client().calculate_ide_chat_totals(&chat), (530, 44, 39));
    let series = client().prepare_ide_chat_metrics(&chat, "ns", "2023-03-01", TS, Some("acme.rollup"));
    let base = ["date:2023-03-01", "source:github-copilot-metrics"];
    let n = series.len();
    check(&series.points[n - 3], "acme.rollup.copilot_ide_chat.total_chats", 530, &base);
    check(&series.points[n - 2], "acme.rollup.copilot_ide_chat.total_chat_copy_events", 44, &base);
    check(&series.points[n - 1], "acme.rollup.copilot_ide_chat.total_chat_insertion_events", 39, &base);
    let total_chats: Vec<&MetricPoint> =
        series.points.iter().filter(|p| p.name.ends_with("copilot_ide_chat.total_chats")).collect();
    assert_eq!(total_chats.len(), 1);
}

#[test]
fn without_a_rollup_namespace_there_are_no_aggregate_points() {
    let chat = two_editors_two_models();
    let with = client().prepare_ide_chat_metrics(&chat, "ns", "d", TS, Some("roll"));
    let without = client().prepare_ide_chat_metrics(&chat, "ns", "d", TS, None);
    assert_eq!(with.len(), without.len() + 3);
    assert!(names(&without).iter().all(|n| n.starts_with("ns.ide.chat")));
}

#[test]
fn rollup_of_a_block_without_editors_is_zero() {
    let chat = CopilotIdeChat { total_engaged_users: 1, editors: None };
    assert_eq!(client().calculate_ide_chat_totals(&chat), (0, 0, 0));
    let series = client().prepare_ide_chat_metrics(&chat, "ns", "d", TS, Some("roll"));
    assert_eq!(series.len(), 4);
    assert_eq!(series.points[1].value, 0);
    let models_missing = CopilotIdeChat {
        total_engaged_users: 1,
        editors: Some(vec![Editor { name: "e".to_string(), total_engaged_users: 1, models: None }]),
    };
    assert_eq!(client().calculate_ide_chat_totals(&models_missing), (0, 0, 0));
}

fn one_editor(models: Vec<Model>) -> CopilotIdeChat {
    CopilotIdeChat {
        total_engaged_users: 1,
        editors: Some(vec![Editor {
            name: "e".to_string(),
            total_engaged_users: 1,
            models: Some(models),
        }]),
    }
}

#[test]
fn counters_of_either_sign_are_added_up() {
    let c = client();
    let mixed = one_editor(vec![chat_model("m", -5), chat_model("n", 3), chat_model("o", -1)]);
    assert!(c.ide_chat_totals_in_range(&mixed));
    assert_eq!(c.calculate_ide_chat_totals(&mixed), (-3, 0, 0));
    let series = c.prepare_ide_chat_metrics(&mixed, "ns", "d", TS, Some("roll"));
    let total = series.points.iter().find(|p| p.name == "roll.copilot_ide_chat.total_chats");
    assert_eq!(total.unwrap().value, -3);
}

#[test]
fn totals_out_of_range_are_told_apart() {
    let c = client();
    assert!(c.ide_chat_totals_in_range(&two_editors_two_models()));
    let too_large = CopilotIdeChat {
        total_engaged_users: 1,
        editors: Some(vec![
            Editor {
                name: "e".to_string(),
                total_engaged_users: 1,
                models: Some(vec![chat_model("m", i64::MAX)]),
            },
            Editor {
                name: "f".to_string(),
                total_engaged_users: 1,
                models: Some(vec![chat_model("m", 1)]),
            },
        ]),
    };
    assert!(!c.ide_chat_totals_in_range(&too_large));
    assert!(!c.ide_chat_totals_in_range(&one_editor(vec![chat_model("m", i64::MIN)])));
    assert!(!c.ide_chat_totals_in_range(&one_editor(vec![
        chat_model("m", i64::MAX),
        chat_model("n", -1)
    ])));
    assert!(c.ide_chat_totals_in_range(&one_editor(vec![chat_model("m", -i64::MAX)])));
    let at_the_limit = one_editor(vec![chat_model("m", i64::MAX - 1), chat_model("n", 1)]);
    assert!(c.ide_chat_totals_in_range(&at_the_limit));
    assert_eq!(c.calculate_ide_chat_totals(&at_the_limit).0, i64::MAX);

    let good = CopilotMetrics { copilot_ide_chat: Some(two_editors_two_models()), ..bare("d") };
    let bad = CopilotMetrics { copilot_ide_chat: Some(too_large), ..bare("d") };
    assert!(c.rollup_ready(&[good.clone(), bare("d")]));
    assert!(!c.rollup_ready(&[good, bad]));
    assert!(c.rollup_ready(&[]));
}

#[test]
fn dotcom_chat_models_are_flattened() {
    let chat = CopilotDotcomChat {
        total_engaged_users: 300,
        models: Some(vec![Model { total_chats: Some(500), ..model("GPT-4", false, 290) }]),
    };
    let series = client().prepare_dotcom_chat_metrics(&chat, "ns", "2023-03-01", TS);
    let base = ["date:2023-03-01", "source:github-copilot-metrics"];
    let inner =
        ["date:2023-03-01", "source:github-copilot-metrics", "model:GPT-4", "is_custom_model:false"];
    assert_eq!(series.len(), 3);
    check(&series.points[0], "ns.dotcom.chat.total_engaged_users", 300, &base);
    check(&series.points[1], "ns.dotcom.chat.models.total_engaged_users", 290, &inner);
    check(&series.points[2], "ns.dotcom.chat.models.total_chats", 500, &inner);
}

#[test]
fn pull_request_repositories_and_their_models_are_flattened() {
    let pr = CopilotDotcomPullRequests {
        total_engaged_users: 200,
        repositories: Some(vec![
            Repository {
                name: "test-repo".to_string(),
                total_engaged_users: 180,
                models: vec![Model {
                    total_pr_summaries_created: Some(50),
                    ..model("GPT-4", false, 170)
                }],
            },
            Repository { name: "other".to_string(), total_engaged_users: 1, models: vec![] },
        ]),
    };
    let series = client().prepare_dotcom_pr_metrics(&pr, "ns", "2023-03-01", TS);
    let base = ["date:2023-03-01", "source:github-copilot-metrics"];
    let repo = ["date:2023-03-01", "source:github-copilot-metrics", "repository:test-repo"];
    let inner = [
        "date:2023-03-01",
        "source:github-copilot-metrics",
        "repository:test-repo",
        "model:GPT-4",
        "is_custom_model:false",
    ];
    assert_eq!(series.len(), 5);
    check(&series.points[0], "ns.dotcom.pull_requests.total_engaged_users", 200, &base);
    check(&series.points[1], "ns.dotcom.pull_requests.repositories.total_engaged_users", 180, &repo);
    check(
        &series.points[2],
        "ns.dotcom.pull_requests.repositories.models.total_engaged_users",
        170,
        &inner,
    );
    check(
        &series.points[3],
        "ns.dotcom.pull_requests.repositories.models.total_pr_summaries_created",
        50,
        &inner,
    );
    check(
        &series.points[4],
        "ns.dotcom.pull_requests.repositories.total_engaged_users",
        1,
        &["date:2023-03-01", "source:github-copilot-metrics", "repository:other"],
    );
}

#[test]
fn blocks_follow_the_user_counts_in_document_order() {
    let snapshot = CopilotMetrics {
        total_active_users: Some(5),
        total_engaged_users: None,
        copilot_ide_code_completions: Some(CopilotIdeCodeCompletions {
            total_engaged_users: 1,
            languages: None,
            editors: None,
        }),
        copilot_ide_chat: Some(CopilotIdeChat { total_engaged_users: 2, editors: None }),
        copilot_dotcom_chat: Some(CopilotDotcomChat { total_engaged_users: 3, models: None }),
        copilot_dotcom_pull_requests: Some(CopilotDotcomPullRequests {
            total_engaged_users: 4,
            repositories: None,
        }),
        ..bare("2024-02-02")
    };
    let series = client().prepare_snapshot_metrics(&snapshot, "ns", TS, None);
    assert_eq!(
        names(&series),
        vec![
            "ns.total_active_users",
            "ns.total_engaged_users",
            "ns.ide.code_completions.total_engaged_users",
            "ns.ide.chat.total_engaged_users",
            "ns.dotcom.chat.total_engaged_users",
            "ns.dotcom.pull_requests.total_engaged_users",
        ]
    );
    let values: Vec<i64> = series.points.iter().map(|p| p.value).collect();
    assert_eq!(values, vec![5, 0, 1, 2, 3, 4]);
}

#[test]
fn a_series_keeps_the_order_of_its_points() {
    let mut series = MetricSeries::new();
    assert_eq!(series.len(), 0);
    series.add_point(MetricPoint::new("a".to_string(), 1, TS, vec![]));
    series.add_optional_i64_point("b".to_string(), None, TS, &tags(&["x:y"]));
    series.add_optional_i64_point("c".to_string(), Some(3), TS, &tags(&["x:y"]));
    assert_eq!(names(&series), vec!["a", "c"]);
    check(&series.points[1], "c", 3, &["x:y"]);
    assert_eq!(MetricSeries::default().len(), 0);
    let copy = series.points[1].duplicate();
    check(&copy, "c", 3, &["x:y"]);
}

#[test]
fn merging_moves_every_point() {
    let c = client();
    let mut target = MetricSeries::new();
    target.add_point(MetricPoint::new("a".to_string(), 1, TS, vec![]));
    let mut source = MetricSeries::new();
    source.add_point(MetricPoint::new("b".to_string(), 2, TS, vec![]));
    source.add_point(MetricPoint::new("c".to_string(), 3, TS, vec![]));
    c.merge_series(&mut target, &mut source);
    assert_eq!(names(&target), vec!["a", "b", "c"]);
    assert_eq!(source.len(), 0);
}

#[test]
fn the_client_submits_to_the_eu_site() {
    let c = DatadogClient::new("secret".to_string());
    assert_eq!(c.api_key(), "secret");
    assert_eq!(c.api_url(), "https://api.datadoghq.eu/api/v2/series");
}

#[test]
fn counters_up_to_two_to_the_53_are_exact_as_gauges() {
    let point = |value: i64| MetricPoint::new("m".to_string(), value, TS, vec![]);
    assert!(point(0).is_exact_as_gauge());
    assert!(point(9_007_199_254_740_992).is_exact_as_gauge());
    assert!(point(-9_007_199_254_740_992).is_exact_as_gauge());
    assert!(!point(9_007_199_254_740_993).is_exact_as_gauge());
    assert!(!point(-9_007_199_254_740_993).is_exact_as_gauge());
    assert!(!point(i64::MAX).is_exact_as_gauge());
    assert_eq!(9_007_199_254_740_992i64 as f64 as i64, 9_007_199_254_740_992);
}
