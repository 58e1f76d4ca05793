use jules_client::builtin::{
    command_output, content_output, declarations, fs_ls_entry, fs_ls_output, fs_patch, fs_search_hit,
    fs_search_output, fs_search_selects, run, search_results, success_output, web_search,
    web_search_output, ElementData, ToolCall, ToolError,
};

fn value(text: &str) -> serde_json::Value {
    serde_json::from_str(text).unwrap()
}

#[test]
fn test_declarations() {
    let decls = declarations();
    assert!(decls.iter().any(|d| d.name == "fs_cat"));
    assert!(decls.iter().any(|d| d.name == "fs_ls"));
    assert!(decls.iter().any(|d| d.name == "fs_patch"));
    assert!(decls.iter().any(|d| d.name == "web_search"));
    assert!(decls.iter().any(|d| d.name == "web_browse"));
}

#[test]
fn test_run_ls() {
    let args = value(r#"{ "path": "." }"#);
    let result = run("fs_ls", &args).unwrap();
    assert!(result.is_some());
    let path = match result.unwrap() {
        ToolCall::FsLs { path } => path,
        other => panic!("unexpected {:?}", other),
    };
    assert_eq!(path, ".");
    let files = vec![fs_ls_entry("Cargo.toml", false), fs_ls_entry("src", true)];
    let json = fs_ls_output(&files);
    assert!(json["files"].as_array().unwrap().len() > 0);
}

#[test]
fn test_fs_patch() {
    let path = "test_fs_patch.txt";
    let stored = "Hello World";
    let args = value(r#"{"path": "test_fs_patch.txt", "search": "World", "replace": "Universe"}"#);
    let result = run("fs_patch", &args).unwrap();
    assert!(result.is_some());
    let content = match result.unwrap() {
        ToolCall::FsPatch { path: p, search, replace } => {
            assert_eq!(p, path);
            fs_patch(stored, &search, &replace).unwrap()
        },
        other => panic!("unexpected {:?}", other),
    };
    assert!(success_output()["success"].as_bool().unwrap());
    assert_eq!(content, "Hello Universe");
}

#[test]
fn declarations_are_announced_in_order() {
    let names: Vec<String> = declarations().into_iter().map(|d| d.name).collect();
    assert_eq!(
        names,
        vec![
            "fs_cat", "fs_ls", "fs_mkdir", "fs_write", "fs_patch", "fs_search", "command_run",
            "web_search", "web_browse"
        ]
    );
    assert!(declarations().iter().all(|d| !d.agent));
}

#[test]
fn declarations_carry_their_schemas() {
    let decls = declarations();
    assert_eq!(decls[0].description, "Read the contents of a file.");
    assert_eq!(
        decls[0].parameters,
        value(
            r#"{"type":"object","properties":{"path":{"type":"string","description":"The path to the file to read"}},"required":["path"]}"#
        )
    );
    assert_eq!(
        decls[1].parameters,
        value(
            r#"{"type":"object","properties":{"path":{"type":"string","description":"The path to the directory to list (defaults to current directory)"}}}"#
        )
    );
    assert_eq!(
        decls[4].parameters,
        value(
            r#"{"type":"object","properties":{
                "path":{"type":"string","description":"The path to the file to patch"},
                "search":{"type":"string","description":"The string to search for"},
                "replace":{"type":"string","description":"The string to replace with"}},
               "required":["path","search","replace"]}"#
        )
    );
    assert_eq!(
        decls[5].parameters,
        value(
            r#"{"type":"object","properties":{
                "path":{"type":"string","description":"The path to the directory to search in"},
                "text":{"type":"string","description":"The text to search for"},
                "file_pattern":{"type":"string","description":"The file pattern to filter by (substring match on filename)"}},
               "required":["path","text"]}"#
        )
    );
    assert_eq!(decls[8].parameters["properties"]["url"]["description"], "The URL to browse");
}

#[test]
fn unknown_function_fails_the_call() {
    for (name, args) in [
        ("fs_delete", r#"{"path":"x"}"#),
        ("fs_rm", "{}"),
        ("", "{}"),
        ("FS_CAT", r#"{"path":"x"}"#),
        ("fs_cat ", r#"{"path":"x"}"#),
        ("unknown", "null"),
    ] {
        match run(name, &value(args)) {
            Err(e @ ToolError::UnknownFunction { .. }) => {
                assert_eq!(e.message(), format!("Unknown function {}", name));
            },
            other => panic!("unexpected {:?} for {:?}", other, name),
        }
    }
}

#[test]
fn every_declared_function_is_known() {
    for declaration in declarations() {
        match run(&declaration.name, &value("{}")) {
            Err(ToolError::UnknownFunction { .. }) => panic!("{} is unknown", declaration.name),
            Ok(None) => panic!("{} gives no call", declaration.name),
            _ => {},
        }
    }
}

#[test]
fn missing_required_argument_fails_the_call() {
    for (name, args, missing) in [
        ("fs_cat", "{}", "path"),
        ("fs_cat", r#"{"path": 1}"#, "path"),
        ("fs_cat", r#"["path"]"#, "path"),
        ("fs_mkdir", "{}", "path"),
        ("fs_write", r#"{"contents":"c"}"#, "path"),
        ("fs_write", r#"{"path":"p"}"#, "contents"),
        ("fs_patch", r#"{"search":"s","replace":"r"}"#, "path"),
        ("fs_patch", r#"{"path":"p","replace":"r"}"#, "search"),
        ("fs_patch", r#"{"path":"p","search":"s"}"#, "replace"),
        ("fs_search", r#"{"text":"t"}"#, "path"),
        ("fs_search", r#"{"path":"p"}"#, "text"),
        ("command_run", "{}", "command"),
        ("web_search", "{}", "query"),
        ("web_browse", "{}", "url"),
    ] {
        match run(name, &value(args)) {
            Err(e @ ToolError::MissingArgument { .. }) => {
                assert_eq!(e.message(), format!("Missing {}", missing), "{} {}", name, args);
            },
            other => panic!("unexpected {:?} for {} {}", other, name, args),
        }
    }
}

#[test]
fn calls_are_read_with_their_arguments() {
    match run("fs_write", &value(r#"{"path":"a.txt","contents":"hi"}"#)).unwrap().unwrap() {
        ToolCall::FsWrite { path, contents } => {
            assert_eq!(path, "a.txt");
            assert_eq!(contents, "hi");
        },
        other => panic!("unexpected {:?}", other),
    }
    match run("fs_search", &value(r#"{"path":"src","text":"fn","file_pattern":".rs"}"#)).unwrap().unwrap() {
        ToolCall::FsSearch { path, text, file_pattern } => {
            assert_eq!((path.as_str(), text.as_str()), ("src", "fn"));
            assert_eq!(file_pattern, Some(".rs".to_string()));
        },
        other => panic!("unexpected {:?}", other),
    }
    match run("fs_search", &value(r#"{"path":"src","text":"fn","file_pattern":3}"#)).unwrap().unwrap() {
        ToolCall::FsSearch { file_pattern, .. } => assert_eq!(file_pattern, None),
        other => panic!("unexpected {:?}", other),
    }
    assert!(matches!(
        run("fs_ls", &value("{}")).unwrap().unwrap(),
        ToolCall::FsLs { path } if path == "."
    ));
    assert!(matches!(
        run("fs_ls", &value(r#"{"path":"/tmp"}"#)).unwrap().unwrap(),
        ToolCall::FsLs { path } if path == "/tmp"
    ));
    assert!(matches!(
        run("fs_cat", &value(r#"{"path":"f"}"#)).unwrap().unwrap(),
        ToolCall::FsCat { path } if path == "f"
    ));
    assert!(matches!(
        run("fs_mkdir", &value(r#"{"path":"d"}"#)).unwrap().unwrap(),
        ToolCall::FsMkdir { path } if path == "d"
    ));
    assert!(matches!(
        run("command_run", &value(r#"{"command":"ls -l"}"#)).unwrap().unwrap(),
        ToolCall::CommandRun { command } if command == "ls -l"
    ));
    assert!(matches!(
        run("web_search", &value(r#"{"query":"rust"}"#)).unwrap().unwrap(),
        ToolCall::WebSearch { query } if query == "rust"
    ));
    assert!(matches!(
        run("web_browse", &value(r#"{"url":"http://x"}"#)).unwrap().unwrap(),
        ToolCall::WebBrowse { url } if url == "http://x"
    ));
}

#[test]
fn patch_without_the_search_text_fails_and_gives_nothing_to_write() {
    match fs_patch("Hello World", "Mars", "Universe") {
        Err(e @ ToolError::SearchNotFound) => {
            assert_eq!(e.message(), "Search string not found in file");
        },
        other => panic!("unexpected {:?}", other),
    }
    assert!(fs_patch("", "x", "y").is_err());
    assert!(fs_patch("abc", "abcd", "y").is_err());
}

#[test]
fn patch_replaces_the_first_occurrence_only() {
    assert_eq!(fs_patch("a-b-a-b", "b", "XY").unwrap(), "a-XY-a-b");
    assert_eq!(fs_patch("aaa", "aa", "b").unwrap(), "ba");
    assert_eq!(fs_patch("abc", "", "X").unwrap(), "Xabc");
    assert_eq!(fs_patch("", "", "X").unwrap(), "X");
    assert_eq!(fs_patch("héllo wörld", "wörld", "").unwrap(), "héllo ");
    assert_eq!(fs_patch("same", "same", "same").unwrap(), "same");
}

#[test]
fn listing_entries_name_their_kind() {
    assert_eq!(fs_ls_entry("src", true), "src (dir)");
    assert_eq!(fs_ls_entry("a b.txt", false), "a b.txt (file)");
    assert_eq!(fs_ls_entry("", false), " (file)");
    assert_eq!(fs_ls_output(&vec![]), value(r#"{"files":[]}"#));
    assert_eq!(
        fs_ls_output(&vec!["b (file)".to_string(), "a (dir)".to_string()]),
        value(r#"{"files":["b (file)","a (dir)"]}"#)
    );
}

#[test]
fn search_reads_selected_files_and_reports_matches() {
    assert!(fs_search_selects("src/main.rs", None));
    assert!(fs_search_selects("src/main.rs", Some(".rs")));
    assert!(fs_search_selects("src/main.rs", Some("")));
    assert!(!fs_search_selects("src/main.rs", Some(".py")));
    assert_eq!(
        fs_search_hit("src/main.rs", "fn main() {}", "main"),
        Some("src/main.rs: Found match".to_string())
    );
    assert_eq!(fs_search_hit("src/main.rs", "fn main() {}", "Main"), None);
    assert_eq!(
        fs_search_output(&vec!["a: Found match".to_string()]),
        value(r#"{"results":["a: Found match"]}"#)
    );
}

#[test]
fn answers_have_the_documented_shape() {
    assert_eq!(content_output("line\n"), value(r#"{"content":"line\n"}"#));
    assert_eq!(success_output(), value(r#"{"success":true}"#));
    assert_eq!(
        command_output("out", "err", Some(3)),
        value(r#"{"stdout":"out","stderr":"err","exit_code":3}"#)
    );
    assert_eq!(
        command_output("", "", None),
        value(r#"{"stdout":"","stderr":"","exit_code":0}"#)
    );
    assert_eq!(command_output("", "", Some(-1))["exit_code"], -1);
}

#[test]
fn search_results_skip_links_without_address_and_trim_titles() {
    let link = |address: Option<&str>, texts: &[&str]| ElementData {
        attribute: address.map(str::to_string),
        texts: texts.iter().map(|t| t.to_string()).collect(),
    };
    let found = vec![
        vec![link(Some("http://a"), &["  Fir", "st \n"]), link(Some("http://b"), &["second link"])],
        vec![],
        vec![link(None, &["no address"]), link(Some("http://c"), &["not the first"])],
        vec![link(Some(""), &["\u{a0}\u{3000}", "x y", "\u{2003}"])],
        vec![link(Some("http://d"), &[])],
    ];
    let results = search_results(&found);
    assert_eq!(results.len(), 3);
    assert_eq!((results[0].title.as_str(), results[0].url.as_str()), ("First", "http://a"));
    assert_eq!((results[1].title.as_str(), results[1].url.as_str()), ("x y", ""));
    assert_eq!((results[2].title.as_str(), results[2].url.as_str()), ("", "http://d"));
    assert_eq!(
        web_search_output(&results),
        value(
            r#"{"results":[{"title":"First","url":"http://a"},{"title":"x y","url":""},{"title":"","url":"http://d"}]}"#
        )
    );
    assert_eq!(web_search_output(&vec![]), value(r#"{"results":[]}"#));
}

#[test]
fn web_search_reads_links_below_result_elements() {
    let html = r#"<html><body><table>
        <tr><td class="result-link"><a href="http://one">  One <b>bold</b> </a><a href="http://skip">second</a></td></tr>
        <tr><td class="result-link">no link here</td></tr>
        <tr><td class="other"><a href="http://other">Other</a></td></tr>
        <tr><td class="result-link"><span><a>no address</a></span></td></tr>
        <tr><td class="result-link"><span><a href="/two">Two</a></span></td></tr>
        <tr><td><a class="result-link" href="http://self">Self</a></td></tr>
    </table></body></html>"#;
    let results = web_search(html).unwrap();
    let pairs: Vec<(&str, &str)> = results.iter().map(|r| (r.title.as_str(), r.url.as_str())).collect();
    assert_eq!(pairs, vec![("One bold", "http://one"), ("Two", "/two")]);
    assert!(web_search("").unwrap().is_empty());
}
