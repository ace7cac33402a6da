use local_dev_insights::capability::Answer;
use local_dev_insights::capability::Call;
use local_dev_insights::capability::FileEntry;
use local_dev_insights::capability::SystemStats;
use local_dev_insights::db::Memo;
use local_dev_insights::json::render_json;
use local_dev_insights::json::Json;
use local_dev_insights::prompts::handle_get_prompt;
use local_dev_insights::prompts::handle_list_prompts;
use local_dev_insights::prompts::health_prompt;
use local_dev_insights::resources::handle_list_resources;
use local_dev_insights::resources::handle_read_resource;
use local_dev_insights::resources::memos_read;
use local_dev_insights::resources::settings_read;
use local_dev_insights::server::complete;
use local_dev_insights::tools::files_found;
use local_dev_insights::tools::handle_call_tool;
use local_dev_insights::tools::handle_list_tools;
use local_dev_insights::tools::memo_added;
use local_dev_insights::tools::stats_report;
use local_dev_insights::tools::system_stats;

fn number(n: i64) -> Json {
    Json::Number(serde_json::Number::from(n))
}

fn text_content(report: &str) -> Json {
    Json::object().with(
        "content",
        Json::array().and(Json::object().with("type", Json::text("text")).with("text", Json::text(report))),
    )
}

fn file(path: &str, extension: Option<&str>) -> FileEntry {
    FileEntry { path: path.to_string(), extension: extension.map(|e| e.to_string()) }
}

fn sample_stats() -> SystemStats {
    SystemStats {
        cpu_usage: "3.25".to_string(),
        memory_usage: "37.50".to_string(),
        used_memory: 6_442_450_944,
        total_memory: 17_179_869_184,
    }
}

#[test]
fn three_tools_are_listed() {
    let listing = handle_list_tools();
    let tools = listing.get("tools").unwrap().as_array().unwrap();
    let names: Vec<Option<&str>> = tools.iter().map(|tool| tool.get_str("name")).collect();
    assert_eq!(
        names,
        vec![Some("add_memo"), Some("get_system_stats"), Some("list_files_by_extension")]
    );
    for tool in tools {
        assert!(tool.get_str("description").is_some());
        assert_eq!(tool.get("inputSchema").unwrap().get_str("type"), Some("object"));
    }
    assert_eq!(
        tools[0].get("inputSchema").unwrap().get("required"),
        Some(&Json::array().and(Json::text("content")))
    );
    assert_eq!(handle_list_tools(), handle_list_tools());
}

#[test]
fn two_resources_are_listed() {
    let listing = handle_list_resources();
    assert_eq!(
        listing,
        Json::object().with(
            "resources",
            Json::array()
                .and(
                    Json::object()
                        .with("uri", Json::text("db://memos"))
                        .with("name", Json::text("Development Memos"))
                        .with(
                            "description",
                            Json::text("List of all development memos stored in the database")
                        )
                        .with("mimeType", Json::text("application/json"))
                )
                .and(
                    Json::object()
                        .with("uri", Json::text("env://vars"))
                        .with("name", Json::text("Environment Variables"))
                        .with("description", Json::text("Environment variables from .env file"))
                        .with("mimeType", Json::text("application/json"))
                )
        )
    );
}

#[test]
fn one_prompt_is_listed() {
    assert_eq!(
        render_json(&handle_list_prompts()),
        "{\"prompts\":[{\"arguments\":[],\"description\":\"Analyze system health based on current stats\",\"name\":\"analyze-health\"}]}"
    );
}

#[test]
fn add_memo_asks_for_content_and_takes_tags() {
    let arguments = Json::object()
        .with("content", Json::text("test"))
        .with("tags", Json::array().and(Json::text("a")).and(Json::text("b")));
    assert_eq!(
        handle_call_tool("add_memo", Some(&arguments)),
        Ok(Call::AddMemo {
            content: "test".to_string(),
            tags: vec!["a".to_string(), "b".to_string()]
        })
    );
    let arguments = Json::object().with("content", Json::text("no tags"));
    assert_eq!(
        handle_call_tool("add_memo", Some(&arguments)),
        Ok(Call::AddMemo { content: "no tags".to_string(), tags: Vec::new() })
    );
}

#[test]
fn tags_that_are_no_strings_are_passed_over() {
    let arguments = Json::object().with("content", Json::text("c")).with(
        "tags",
        Json::array()
            .and(number(1))
            .and(Json::text("keep"))
            .and(Json::Null)
            .and(Json::array().and(Json::text("nested")))
            .and(Json::text("also")),
    );
    assert_eq!(
        handle_call_tool("add_memo", Some(&arguments)),
        Ok(Call::AddMemo {
            content: "c".to_string(),
            tags: vec!["keep".to_string(), "also".to_string()]
        })
    );
    let arguments = Json::object()
        .with("content", Json::text("c"))
        .with("tags", Json::text("not an array"));
    assert_eq!(
        handle_call_tool("add_memo", Some(&arguments)),
        Ok(Call::AddMemo { content: "c".to_string(), tags: Vec::new() })
    );
}

#[test]
fn add_memo_without_content_fails() {
    assert_eq!(handle_call_tool("add_memo", None), Err("Missing content".to_string()));
    assert_eq!(
        handle_call_tool("add_memo", Some(&Json::Null)),
        Err("Missing content".to_string())
    );
    assert_eq!(
        handle_call_tool("add_memo", Some(&Json::object().with("content", number(1)))),
        Err("Missing content".to_string())
    );
}

#[test]
fn the_other_tools_are_planned() {
    assert_eq!(handle_call_tool("get_system_stats", None), Ok(Call::SystemStats));
    assert_eq!(
        handle_call_tool("get_system_stats", Some(&Json::object().with("x", Json::Null))),
        Ok(Call::SystemStats)
    );
    assert_eq!(
        handle_call_tool(
            "list_files_by_extension",
            Some(&Json::object().with("extension", Json::text("md")))
        ),
        Ok(Call::ListFiles { extension: "md".to_string() })
    );
    assert_eq!(
        handle_call_tool("list_files_by_extension", Some(&Json::object())),
        Err("Missing extension".to_string())
    );
}

#[test]
fn an_unknown_tool_is_not_found() {
    assert_eq!(handle_call_tool("launch", None), Err("Tool not found: launch".to_string()));
    assert_eq!(handle_call_tool("", None), Err("Tool not found: ".to_string()));
    assert_eq!(
        handle_call_tool("Add_Memo", Some(&Json::object().with("content", Json::text("c")))),
        Err("Tool not found: Add_Memo".to_string())
    );
}

#[test]
fn add_memo_reports_the_new_id() {
    assert_eq!(memo_added(42), text_content("Memo added successfully with ID: 42"));
    assert_eq!(memo_added(-1), text_content("Memo added successfully with ID: -1"));
}

#[test]
fn the_load_is_reported_in_two_lines() {
    assert_eq!(
        stats_report(&sample_stats()),
        "CPU Usage: 3.25%\nMemory Usage: 37.50% (Used: 6144 MB / Total: 16384 MB)"
    );
    assert_eq!(
        system_stats(&sample_stats()),
        text_content("CPU Usage: 3.25%\nMemory Usage: 37.50% (Used: 6144 MB / Total: 16384 MB)")
    );
}

#[test]
fn mebibytes_are_rounded_down() {
    let stats = SystemStats {
        cpu_usage: "0.00".to_string(),
        memory_usage: "NaN".to_string(),
        used_memory: 1024 * 1024 - 1,
        total_memory: 3 * 1024 * 1024 + 5,
    };
    assert_eq!(
        stats_report(&stats),
        "CPU Usage: 0.00%\nMemory Usage: NaN% (Used: 0 MB / Total: 3 MB)"
    );
    let stats = SystemStats {
        cpu_usage: "100.00".to_string(),
        memory_usage: "100.00".to_string(),
        used_memory: u64::MAX,
        total_memory: u64::MAX,
    };
    assert_eq!(
        stats_report(&stats),
        "CPU Usage: 100.00%\nMemory Usage: 100.00% (Used: 17592186044415 MB / Total: 17592186044415 MB)"
    );
}

#[test]
fn files_are_listed_by_extension() {
    let entries = vec![
        file("Cargo.toml", Some("toml")),
        file("src/main.rs", Some("rs")),
        file("README", None),
        file("src/deep/mod.rs", Some("rs")),
        file("notes.RS", Some("RS")),
        file(".gitignore", None),
    ];
    assert_eq!(files_found(&entries, "rs"), text_content("src/main.rs\nsrc/deep/mod.rs"));
    assert_eq!(files_found(&entries, "toml"), text_content("Cargo.toml"));
}

#[test]
fn no_files_found_is_said_in_words() {
    let entries = vec![file("Cargo.toml", Some("toml")), file("README", None)];
    assert_eq!(files_found(&entries, "rs"), text_content("No files found."));
    assert_eq!(files_found(&Vec::new(), "rs"), text_content("No files found."));
    assert_eq!(files_found(&entries, ""), text_content("No files found."));
}

#[test]
fn reading_a_resource_needs_a_uri() {
    assert_eq!(handle_read_resource(None), Err("Missing params".to_string()));
    assert_eq!(
        handle_read_resource(Some(&Json::object())),
        Err("Missing uri parameter".to_string())
    );
    assert_eq!(
        handle_read_resource(Some(&Json::object().with("uri", number(1)))),
        Err("Missing uri parameter".to_string())
    );
    assert_eq!(
        handle_read_resource(Some(&Json::array())),
        Err("Missing uri parameter".to_string())
    );
}

#[test]
fn the_registered_resources_are_planned() {
    assert_eq!(
        handle_read_resource(Some(&Json::object().with("uri", Json::text("db://memos")))),
        Ok(Call::ReadMemos)
    );
    assert_eq!(
        handle_read_resource(Some(&Json::object().with("uri", Json::text("env://vars")))),
        Ok(Call::ReadSettings)
    );
    assert_eq!(
        handle_read_resource(Some(&Json::object().with("uri", Json::text("env://other")))),
        Err("Resource not found: env://other".to_string())
    );
}

#[test]
fn the_notes_are_shown_as_json_text() {
    let memos = vec![
        Memo {
            id: 2,
            content: "second \"note\"".to_string(),
            tags: "[\"a\",\"b\"]".to_string(),
            created_at: "2024-05-02 10:00:00".to_string(),
        },
        Memo {
            id: 1,
            content: "first".to_string(),
            tags: "[]".to_string(),
            created_at: "2024-05-01 09:30:00".to_string(),
        },
    ];
    let expected = "[{\"id\":2,\"content\":\"second \\\"note\\\"\",\"tags\":\"[\\\"a\\\",\\\"b\\\"]\",\"created_at\":\"2024-05-02 10:00:00\"},{\"id\":1,\"content\":\"first\",\"tags\":\"[]\",\"created_at\":\"2024-05-01 09:30:00\"}]";
    assert_eq!(
        memos_read(&memos),
        Json::object().with(
            "contents",
            Json::array().and(
                Json::object()
                    .with("uri", Json::text("db://memos"))
                    .with("mimeType", Json::text("application/json"))
                    .with("text", Json::text(expected))
            )
        )
    );
}

#[test]
fn the_settings_are_shown_as_plain_text() {
    let shown = |body: &str| {
        Json::object().with(
            "contents",
            Json::array().and(
                Json::object()
                    .with("uri", Json::text("env://vars"))
                    .with("mimeType", Json::text("text/plain"))
                    .with("text", Json::text(body)),
            ),
        )
    };
    assert_eq!(settings_read(Some("KEY=value\nOTHER=1\n")), shown("KEY=value\nOTHER=1\n"));
    assert_eq!(settings_read(Some("")), shown(""));
    assert_eq!(settings_read(None), shown(""));
}

#[test]
fn the_health_prompt_is_planned_by_name() {
    assert_eq!(handle_get_prompt("analyze-health", None), Ok(Call::AnalyzeHealth));
    assert_eq!(
        handle_get_prompt("analyze-health", Some(&Json::object().with("x", Json::Null))),
        Ok(Call::AnalyzeHealth)
    );
    assert_eq!(
        handle_get_prompt("analyze", None),
        Err("Prompt not found: analyze".to_string())
    );
    assert_eq!(handle_get_prompt("", None), Err("Prompt not found: ".to_string()));
}

#[test]
fn the_health_prompt_shows_the_load() {
    let prompt = health_prompt(&sample_stats());
    assert_eq!(prompt.get_str("description"), Some("Analyze system health"));
    let messages = prompt.get("messages").unwrap().as_array().unwrap();
    assert_eq!(messages.len(), 1);
    assert_eq!(messages[0].get_str("role"), Some("user"));
    let content = messages[0].get("content").unwrap();
    assert_eq!(content.get_str("type"), Some("text"));
    assert_eq!(
        content.get_str("text"),
        Some(
            "Here are the current system statistics:\n\nCPU Usage: 3.25%\nMemory Usage: 37.50% (Used: 6144 MB / Total: 16384 MB)\n\nPlease analyze if the development environment is healthy or if there are any resource constraints I should be aware of."
        )
    );
}

#[test]
fn each_call_is_completed_by_its_own_answer() {
    let add = Call::AddMemo { content: "c".to_string(), tags: Vec::new() };
    assert_eq!(complete(&add, Answer::MemoAdded(5)), Ok(memo_added(5)));
    assert_eq!(
        complete(&Call::SystemStats, Answer::Stats(sample_stats())),
        Ok(system_stats(&sample_stats()))
    );
    assert_eq!(
        complete(&Call::AnalyzeHealth, Answer::Stats(sample_stats())),
        Ok(health_prompt(&sample_stats()))
    );
    let list = Call::ListFiles { extension: "rs".to_string() };
    assert_eq!(
        complete(&list, Answer::Files(vec![file("a.rs", Some("rs"))])),
        Ok(text_content("a.rs"))
    );
    assert_eq!(complete(&Call::ReadMemos, Answer::Memos(Vec::new())), Ok(memos_read(&Vec::new())));
    assert_eq!(
        complete(&Call::ReadSettings, Answer::Settings(Some("A=1".to_string()))),
        Ok(settings_read(Some("A=1")))
    );
    assert_eq!(complete(&Call::ReadSettings, Answer::Settings(None)), Ok(settings_read(None)));
}

#[test]
fn a_failed_collaborator_fails_every_call() {
    let calls = [
        Call::AddMemo { content: "c".to_string(), tags: Vec::new() },
        Call::SystemStats,
        Call::ListFiles { extension: "rs".to_string() },
        Call::ReadMemos,
        Call::ReadSettings,
        Call::AnalyzeHealth,
    ];
    for call in &calls {
        assert_eq!(
            complete(call, Answer::Failed("out of order".to_string())),
            Err("out of order".to_string())
        );
    }
}

#[test]
fn an_answer_to_another_call_fails_the_call() {
    let wrong = Err("Unexpected answer from the collaborator".to_string());
    assert_eq!(complete(&Call::SystemStats, Answer::MemoAdded(1)), wrong);
    assert_eq!(complete(&Call::ReadMemos, Answer::Stats(sample_stats())), wrong);
    assert_eq!(complete(&Call::ReadSettings, Answer::Memos(Vec::new())), wrong);
    assert_eq!(complete(&Call::AnalyzeHealth, Answer::Files(Vec::new())), wrong);
    assert_eq!(
        complete(&Call::ListFiles { extension: "rs".to_string() }, Answer::Settings(None)),
        wrong
    );
    assert_eq!(
        complete(
            &Call::AddMemo { content: "c".to_string(), tags: Vec::new() },
            Answer::Settings(None)
        ),
        wrong
    );
}
