use rustmix::ai::{chat_request, prompt_or_default, OpenAiSource, SourceSize, EMPTY_PROMPT, MAX_TOKENS};
use rustmix::date::{parse_date, parse_date_any, parse_date_ftz, utc_today, UtcDateTime};
use rustmix::error::{decimal, RmxError};
use rustmix::file::{file_exists, FileOpenOptions, LineBatcher};
use rustmix::log::{
    build, check_file_name, configure, log_line, roller_file_name, size_limit, try_configure,
    LevelFilter, LogLevel, SlogLevel, LOG_SIZE_MAX, LOG_SIZE_MIN, ROLL_WINDOW,
};
use rustmix::path::{
    as_path, base_name, del_match_pattern, extension, has_separator, list_check, name, parent,
    path_parts, transfer_mode, TransferMode, EMPTY_SOURCE,
};
use rustmix::random::{alphanum, alphanum_for, alphanum_str, char_for, string};
use rustmix::web::{append_if_not_empty, as_url, create, get_public_ip, try_url_decode, url_decode, url_encode};
use rustmix::AppInfo;

#[test]
fn app_info_new_and_text() {
    let info = AppInfo::new("tool", "1.2", "Ann", Some("Does things"), None);
    assert_eq!(info.description, "Does things");
    assert_eq!(info.license, "");
    assert_eq!(info.to_string(), "tool v1.2\nAnn\nDoes things");
    let full = AppInfo::new("t", "0", "", None, Some("MIT"));
    assert_eq!(full.to_string(), "t v0\nLicense: MIT");
    let lib = AppInfo::lib_info();
    assert_eq!(lib.name, "rustmix");
    assert_eq!(lib.to_string(), "rustmix v0.1.0");
}

#[test]
fn error_messages() {
    let cases = [
        (RmxError::Canceled, "Operation is canceled"),
        (RmxError::NotSupported, "Operation is not supported"),
        (RmxError::NotImplemented, "Not implemented"),
        (RmxError::InvalidOperation("x".to_string()), "Invalid operation. x"),
        (RmxError::Timeout, "Operation timed out"),
        (RmxError::NoInput, "No input was provided."),
        (RmxError::Argument("a".to_string()), "Argument error. a"),
        (RmxError::Invalid("b".to_string()), "Invalid error. b"),
        (RmxError::Missing("c".to_string()), "Missing error. c"),
        (RmxError::Http("d".to_string()), "Http error. d"),
        (RmxError::Network("e".to_string()), "Network error. e"),
        (RmxError::Command(-3, "f".to_string()), "Command error -3. f"),
        (RmxError::NotFound("g".to_string()), "Item not found. g"),
        (RmxError::Io("h".to_string()), "h"),
        (RmxError::Exceeded("i".to_string()), "Error exceeded. i"),
        (RmxError::ExitCode(2), "Application exited with error 2"),
        (RmxError::External("relative URL without a base".to_string()), "relative URL without a base"),
    ];
    for (e, m) in cases {
        assert_eq!(e.message(), m);
    }
}

#[test]
fn decimal_forms() {
    for n in [0i64, 7, 10, 42, 1000, -1, -45, i64::MAX, i64::MIN] {
        assert_eq!(decimal(n), n.to_string());
    }
}

#[test]
fn log_levels_and_limits() {
    assert_eq!(LogLevel::Critical.level_filter(), LevelFilter::Error);
    assert_eq!(LogLevel::Default.level_filter(), LevelFilter::Info);
    assert_eq!(LogLevel::Off.level_filter(), LevelFilter::Off);
    assert_eq!(LogLevel::Off.slog_level(), SlogLevel::Critical);
    assert_eq!(LogLevel::Warn.slog_level(), SlogLevel::Warning);
    assert_eq!(LogLevel::Info.slog_level(), SlogLevel::Info);
    assert_eq!(size_limit(None), LOG_SIZE_MAX);
    assert_eq!(size_limit(Some(1)), LOG_SIZE_MIN);
    assert_eq!(size_limit(Some(usize::MAX)), LOG_SIZE_MAX);
    assert_eq!(size_limit(Some(3_000_000)), 3_000_000);
    assert_eq!(roller_file_name("app", "log"), "app.{}.old.log");
    assert_eq!(log_line("INFO", "tag", "hello"), "INFO| tag | hello");
    assert_eq!(check_file_name(""), Err(RmxError::Argument("file_name".to_string())));
    assert_eq!(check_file_name("a.log"), Ok(()));
}

#[test]
fn open_flags() {
    let n = FileOpenOptions::New.flags();
    assert!(n.create_new && !n.create && !n.append && n.read && n.write);
    let t = FileOpenOptions::Truncate.flags();
    assert!(t.create && t.truncate && !t.append);
    let a = FileOpenOptions::Append.flags();
    assert!(a.create && a.append && !a.truncate);
    assert_eq!(FileOpenOptions::Default.flags(), a);
    assert!(!file_exists("/"));
    assert!(!file_exists("no/such/file.txt"));
}

#[test]
fn line_batcher_hands_out_full_batches() {
    let mut b = LineBatcher::new(2);
    assert_eq!(b.push("a\n".to_string()), None);
    assert_eq!(b.push(String::new()), None);
    assert_eq!(b.push("b\n".to_string()), Some((1, vec!["a\n".to_string(), "b\n".to_string()])));
    assert_eq!(b.push("c\n".to_string()), None);
    assert_eq!(b.finish(), Some((2, vec!["c\n".to_string()])));
    assert_eq!(b.batch_number(), 2);
    let mut e = LineBatcher::new(0);
    assert_eq!(e.finish(), None);
    assert_eq!(e.batch_number(), 0);
}

#[test]
fn line_batcher_keeps_every_line_once_in_order() {
    let lines: Vec<String> = (0..7).map(|i| format!("{}\n", i)).collect();
    let mut b = LineBatcher::new(3);
    let mut all = Vec::new();
    let mut numbers = Vec::new();
    for l in lines.iter() {
        if let Some((n, batch)) = b.push(l.clone()) {
            assert_eq!(batch.len(), 3);
            numbers.push(n);
            all.extend(batch);
        }
    }
    if let Some((n, batch)) = b.finish() {
        numbers.push(n);
        all.extend(batch);
    }
    assert_eq!(all, lines);
    assert_eq!(numbers, vec![1, 2, 3]);
}

#[test]
fn random_characters() {
    assert_eq!(alphanum_for(0), '0');
    assert_eq!(alphanum_for(9), '9');
    assert_eq!(alphanum_for(10), 'A');
    assert_eq!(alphanum_for(35), 'Z');
    assert_eq!(alphanum_for(36), 'a');
    assert_eq!(alphanum_for(61), 'z');
    assert_eq!(char_for(62), '_');
    assert_eq!(char_for(93), '~');
    assert!(alphanum().is_ascii_alphanumeric());
    let s = alphanum_str(40);
    assert_eq!(s.chars().count(), 40);
    assert!(s.chars().all(|c| c.is_ascii_alphanumeric()));
    assert_eq!(alphanum_str(0), "");
    let t = string(60);
    assert_eq!(t.chars().count(), 60);
    assert!(t.chars().all(|c| ('0'..='~').contains(&c)));
}

#[test]
fn dates() {
    assert_eq!(parse_date_any("2024-01-02 03:04"), Ok(UtcDateTime { seconds: 1704164640, nanos: 0 }));
    assert_eq!(parse_date_any("2024-01-02 03:04:05"), Ok(UtcDateTime { seconds: 1704164645, nanos: 0 }));
    assert_eq!(parse_date_any("2024-01-02 03:04:05.25"), Ok(UtcDateTime { seconds: 1704164645, nanos: 250_000_000 }));
    assert_eq!(parse_date_any("2024-01-02T03:04:05.5Z"), Ok(UtcDateTime { seconds: 1704164645, nanos: 500_000_000 }));
    assert_eq!(parse_date_any("2024-01-02"), Ok(UtcDateTime { seconds: 1704153600, nanos: 0 }));
    assert_eq!(parse_date_any("nope"), Err(RmxError::External("input contains invalid characters".to_string())));
    assert_eq!(parse_date("2024-01-02 03:04:05"), Ok(UtcDateTime { seconds: 1704164645, nanos: 0 }));
    assert_eq!(parse_date("2024-01-02"), Err(RmxError::External("premature end of input".to_string())));
    assert_eq!(parse_date_ftz("2024-01-02T03:04:05.5Z"), Ok(UtcDateTime { seconds: 1704164645, nanos: 500_000_000 }));
}

#[test]
fn midnights() {
    assert_eq!(utc_today(1704164645), UtcDateTime { seconds: 1704153600, nanos: 0 });
    assert_eq!(utc_today(1704153600), UtcDateTime { seconds: 1704153600, nanos: 0 });
    assert_eq!(utc_today(-1), UtcDateTime { seconds: -86400, nanos: 0 });
    assert_eq!(utc_today(-90000), UtcDateTime { seconds: -172800, nanos: 0 });
    let m = utc_today(123456789).seconds;
    assert_eq!(utc_today(m).seconds, m);
}

#[test]
fn urls() {
    assert_eq!(url_encode("a b/ü-_.~"), "a%20b%2F%C3%BC-_.~");
    assert_eq!(url_encode(""), "");
    assert_eq!(url_decode("a%20b%2F"), "a b/");
    assert_eq!(try_url_decode("a%20b"), Some("a b".to_string()));
    assert_eq!(try_url_decode("%FF"), None);
}

#[test]
fn public_ip_answers() {
    assert_eq!(get_public_ip(200, "1.2.3.4".to_string()), Ok("1.2.3.4".to_string()));
    assert_eq!(get_public_ip(299, "x".to_string()), Ok("x".to_string()));
    let failure = "HTTP status client error (404 Not Found) for url (https://api.ipify.org/)";
    assert_eq!(get_public_ip(404, failure.to_string()), Err(RmxError::External(failure.to_string())));
    assert_eq!(get_public_ip(199, "x".to_string()), Err(RmxError::External("x".to_string())));
}

#[test]
fn paths() {
    assert_eq!(transfer_mode(""), Err(RmxError::InvalidOperation(EMPTY_SOURCE.to_string())));
    assert_eq!(transfer_mode("a/*.txt"), Ok(TransferMode::Wildcard));
    assert_eq!(transfer_mode("a/?.txt"), Ok(TransferMode::Wildcard));
    assert_eq!(transfer_mode("a/b.txt"), Ok(TransferMode::Path));
    assert_eq!(del_match_pattern("d", true, false, "*.log"), Ok(Some("d/*.log".to_string())));
    assert_eq!(del_match_pattern("d", true, false, ""), Err(RmxError::InvalidOperation(EMPTY_SOURCE.to_string())));
    assert_eq!(del_match_pattern("f", false, true, "*"), Err(RmxError::Invalid("f".to_string())));
    assert_eq!(del_match_pattern("x", false, false, "*"), Ok(None));
    assert_eq!(list_check("d", true, true), Ok(true));
    assert_eq!(list_check("f", false, true), Ok(false));
    assert_eq!(list_check("x", false, false), Err(RmxError::NotFound("x".to_string())));
    assert_eq!(path_parts(&vec!["a", "", "b", ""]), vec!["a", "b"]);
    assert_eq!(path_parts(&vec![]), Vec::<&str>::new());
}

#[test]
fn ai_sources() {
    assert_eq!(OpenAiSource::default().name(), "gpt-4o-mini");
    assert_eq!(OpenAiSource::gpt_3_5_turbo.name(), "gpt-3.5-turbo");
    assert_eq!(OpenAiSource::o1_mini.name(), "o1-mini");
    assert_eq!(OpenAiSource::for_size(SourceSize::Tiny), OpenAiSource::gpt_4o_mini);
    assert_eq!(OpenAiSource::for_size(SourceSize::Base), OpenAiSource::gpt_4o);
    assert_eq!(OpenAiSource::for_size(SourceSize::Large), OpenAiSource::gpt_4_turbo);
    assert_eq!(prompt_or_default(""), EMPTY_PROMPT);
    assert_eq!(prompt_or_default("hi"), "hi");
}

#[test]
fn log_settings_for_a_file() {
    let s = build("logs/app.log").unwrap();
    assert_eq!(s.file_name, "logs/app.log");
    assert_eq!(s.roller_pattern, "logs/app.{}.old.log");
    assert_eq!(s.window, ROLL_WINDOW);
    assert_eq!(s.size_limit, LOG_SIZE_MAX);
    assert_eq!(s.level, LevelFilter::Info);
    let c = configure("run.txt", LogLevel::Critical, Some(1));
    assert_eq!(c.roller_pattern, "run.{}.old.txt");
    assert_eq!(c.size_limit, LOG_SIZE_MIN);
    assert_eq!(c.level, LevelFilter::Error);
    assert_eq!(build("noextension"), None);
    assert_eq!(try_configure("", LogLevel::Debug, None), None);
    assert_eq!(try_configure("a/b.c", LogLevel::Debug, None).unwrap().level, LevelFilter::Debug);
}

#[test]
fn path_parts_by_name() {
    assert_eq!(parent("a/b/c.txt"), "a/b");
    assert_eq!(parent("/"), "");
    assert_eq!(name("a/b/c.txt"), "c.txt");
    assert_eq!(base_name("a/b/c.txt"), "c");
    assert_eq!(extension("a/b/c.txt"), "txt");
    assert_eq!(extension("a/b/c"), "");
    assert_eq!(as_path(&vec!["a", "", "b", "c.txt"]), "a/b/c.txt");
    assert_eq!(as_path(&vec![]), "");
    assert!(has_separator("a/b"));
    assert!(!has_separator("ab"));
}

#[test]
fn urls_from_text() {
    assert_eq!(create("").unwrap(), "http://localhost/");
    assert_eq!(create("https://example.com/a").unwrap(), "https://example.com/a");
    assert_eq!(create("a/b").unwrap(), "http://localhost/a/b");
    assert_eq!(create("http://[bad"), Err(RmxError::External("relative URL without a base".to_string())));
    assert_eq!(
        as_url(&vec!["https://example.com/api/", "v1/", "", "items"]).unwrap(),
        "https://example.com/api/v1/items"
    );
    assert_eq!(append_if_not_empty("https://example.com/x/".to_string(), "").unwrap(), "https://example.com/x/");
    assert_eq!(append_if_not_empty("https://example.com/x/".to_string(), "y").unwrap(), "https://example.com/x/y");
}

#[test]
fn chat_requests() {
    assert_eq!(chat_request(OpenAiSource::gpt_4o, String::new()), Err(RmxError::NoInput));
    let q = chat_request(OpenAiSource::o1_mini, "hello".to_string()).unwrap();
    assert_eq!(q.model, "o1-mini");
    assert_eq!(q.max_tokens, MAX_TOKENS);
    assert_eq!(q.content, "hello");
}

#[test]
fn decoding_gives_back_what_was_encoded() {
    for text in ["", "plain", "a b/c?d=e&f", "🦀 ünïcödé ~-._"] {
        assert_eq!(try_url_decode(&url_encode(text)), Some(text.to_string()));
    }
}

#[test]
fn filtered_batching_is_batching_of_kept_lines() {
    let lines = ["a\n", "skip\n", "b\n", "", "skip\n", "c\n", "d\n"];
    let keep = |l: &str| !l.starts_with("skip");
    let mut filtered = LineBatcher::new(2);
    let mut plain = LineBatcher::new(2);
    let mut out_filtered = Vec::new();
    let mut out_plain = Vec::new();
    for l in lines {
        let verdict = !l.is_empty() && keep(l);
        if let Some(b) = filtered.push_filtered(l.to_string(), verdict) {
            out_filtered.push(b);
        }
        if verdict {
            if let Some(b) = plain.push(l.to_string()) {
                out_plain.push(b);
            }
        }
    }
    out_filtered.extend(filtered.finish());
    out_plain.extend(plain.finish());
    assert_eq!(out_filtered, out_plain);
    assert_eq!(out_filtered, vec![
        (1, vec!["a\n".to_string(), "b\n".to_string()]),
        (2, vec!["c\n".to_string(), "d\n".to_string()]),
    ]);
    assert_eq!(filtered.batch_number(), 2);
}
