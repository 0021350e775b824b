use pajama::api::{assets_query, bearer_header, memories_query, relative_path};
use pajama::config::{default_api_base_url, resolve_token, Config};
use pajama::launcher::{default_scope, launch_messages, should_open_browser, Launch};
use pajama::numbers::{u64_from_signed, u64_from_text};
use pajama::tags::{parse_tags_csv, MAX_TAGS};
use pajama::token::LoginResult;
use pajama::upload::{
    choose_part_size, clamp_part_size, div_ceil, next_part_len, plan_part_size, MAX_PART,
    MAX_PARTS, MB, MIN_PART,
};

const BUILTIN: &str = "https://api-game-dev-memory.pajamadot.com";

fn config(url: &str, token: Option<&str>) -> Config {
    Config {
        api_base_url: url.to_string(),
        client_id: Some("cid".to_string()),
        access_token: token.map(|s| s.to_string()),
    }
}

fn pairs(items: &[(&str, &str)]) -> Vec<(String, String)> {
    items.iter().map(|(k, v)| (k.to_string(), v.to_string())).collect()
}

#[test]
fn default_address_prefers_a_set_environment() {
    assert_eq!(default_api_base_url(None), BUILTIN);
    assert_eq!(default_api_base_url(Some("")), BUILTIN);
    assert_eq!(default_api_base_url(Some(" \t\n")), BUILTIN);
    assert_eq!(default_api_base_url(Some("  http://localhost:8787 \n")), "http://localhost:8787");
    assert_eq!(default_api_base_url(Some("x")), "x");
}

#[test]
fn initial_config_holds_nothing_but_the_address() {
    let c = Config::initial(None);
    assert_eq!(c.api_base_url, BUILTIN);
    assert_eq!(c.client_id, None);
    assert_eq!(c.access_token, None);
    let c = Config::initial(Some("http://e"));
    assert_eq!(c.api_base_url, "http://e");
}

#[test]
fn loaded_config_fills_in_a_missing_address() {
    let c = Config::loaded(None, Some("http://e"));
    assert_eq!(c.api_base_url, "http://e");
    assert_eq!(c.client_id, None);
    let c = Config::loaded(Some(config("  ", Some("tok"))), Some("http://e"));
    assert_eq!(c.api_base_url, "http://e");
    assert_eq!(c.client_id, Some("cid".to_string()));
    assert_eq!(c.access_token, Some("tok".to_string()));
    let c = Config::loaded(Some(config("", None)), None);
    assert_eq!(c.api_base_url, BUILTIN);
    let c = Config::loaded(Some(config(" http://stored ", Some("tok"))), Some("http://e"));
    assert_eq!(c.api_base_url, " http://stored ");
}

#[test]
fn login_and_logout_change_what_is_stored() {
    let login = LoginResult {
        access_token: "tok".to_string(),
        token_type: "bearer".to_string(),
        expires_in: None,
        scope: None,
        client_id: "new".to_string(),
    };
    let c = config("http://a", None).with_login(login);
    assert_eq!(c.api_base_url, "http://a");
    assert_eq!(c.client_id, Some("new".to_string()));
    assert_eq!(c.access_token, Some("tok".to_string()));
    let c = c.without_token();
    assert_eq!(c.api_base_url, "http://a");
    assert_eq!(c.client_id, Some("new".to_string()));
    assert_eq!(c.access_token, None);
}

#[test]
fn token_comes_from_flag_then_environment_then_config() {
    let stored = config("http://a", Some(" stored "));
    assert_eq!(resolve_token(Some(" flag "), Some("env"), &stored), Some("flag".to_string()));
    assert_eq!(resolve_token(Some("  "), Some(" env\n"), &stored), Some("env".to_string()));
    assert_eq!(resolve_token(None, Some("env"), &stored), Some("env".to_string()));
    assert_eq!(resolve_token(Some(""), Some(" "), &stored), Some(" stored ".to_string()));
    assert_eq!(resolve_token(None, None, &stored), Some(" stored ".to_string()));
    assert_eq!(resolve_token(None, None, &config("http://a", Some("  "))), None);
    assert_eq!(resolve_token(None, None, &config("http://a", None)), None);
    assert_eq!(resolve_token(Some(""), Some(""), &config("http://a", None)), None);
}

#[test]
fn tags_are_trimmed_and_empty_ones_dropped() {
    assert_eq!(parse_tags_csv("a, b ,,c"), vec!["a", "b", "c"]);
    assert_eq!(parse_tags_csv(""), Vec::<String>::new());
    assert_eq!(parse_tags_csv(" , ,"), Vec::<String>::new());
    assert_eq!(parse_tags_csv("one"), vec!["one"]);
    assert_eq!(parse_tags_csv(",x y,"), vec!["x y"]);
    assert_eq!(parse_tags_csv("a,a"), vec!["a", "a"]);
}

#[test]
fn no_more_than_32_tags_are_taken() {
    let many: Vec<String> = (0..40).map(|i| format!("t{}", i)).collect();
    let tags = parse_tags_csv(&many.join(" , "));
    assert_eq!(tags.len(), MAX_TAGS);
    assert_eq!(tags, many[..32].to_vec());
    let exact: Vec<String> = (0..32).map(|i| format!("t{}", i)).collect();
    assert_eq!(parse_tags_csv(&exact.join(",")), exact);
    let with_gaps = format!(",,{},,late", exact.join(",,"));
    assert_eq!(parse_tags_csv(&with_gaps), exact);
}

#[test]
fn tags_agree_with_split_trim_filter_take() {
    for s in ["a,b", " a , b ", ",,", "x", "", "a,\u{a0}b\u{a0},c ,", "1,2,3,4,5,6,7,8,9,10,11,12,13,14,15,16,17,18,19,20,21,22,23,24,25,26,27,28,29,30,31,32,33"] {
        let expected: Vec<String> = s
            .split(',')
            .map(|t| t.trim())
            .filter(|t| !t.is_empty())
            .take(32)
            .map(|t| t.to_string())
            .collect();
        assert_eq!(parse_tags_csv(s), expected, "{:?}", s);
    }
}

#[test]
fn division_rounds_up() {
    assert_eq!(div_ceil(0, 5), 0);
    assert_eq!(div_ceil(1, 5), 1);
    assert_eq!(div_ceil(5, 5), 1);
    assert_eq!(div_ceil(6, 5), 2);
    assert_eq!(div_ceil(10, 0), 0);
    assert_eq!(div_ceil(u64::MAX, 1), u64::MAX);
    assert_eq!(div_ceil(u64::MAX, 2), 1 << 63);
    assert_eq!(div_ceil(u64::MAX, u64::MAX), 1);
    assert_eq!(div_ceil(u64::MAX - 1, u64::MAX), 1);
}

#[test]
fn part_size_is_clamped() {
    assert_eq!(MB, 1024 * 1024);
    assert_eq!(MIN_PART, 5 * MB);
    assert_eq!(MAX_PART, 95 * MB);
    assert_eq!(clamp_part_size(0), 5 * MB);
    assert_eq!(clamp_part_size(5 * MB - 1), 5 * MB);
    assert_eq!(clamp_part_size(5 * MB), 5 * MB);
    assert_eq!(clamp_part_size(40 * MB + 3), 40 * MB + 3);
    assert_eq!(clamp_part_size(95 * MB), 95 * MB);
    assert_eq!(clamp_part_size(95 * MB + 1), 95 * MB);
    assert_eq!(clamp_part_size(u64::MAX), 95 * MB);
}

#[test]
fn part_size_follows_the_file_size() {
    assert_eq!(choose_part_size(0, None), 8 * MB);
    assert_eq!(choose_part_size(64 * MB - 1, None), 8 * MB);
    assert_eq!(choose_part_size(64 * MB, None), 16 * MB);
    assert_eq!(choose_part_size(512 * MB - 1, None), 16 * MB);
    assert_eq!(choose_part_size(512 * MB, None), 32 * MB);
    assert_eq!(choose_part_size(8 * 1024 * MB - 1, None), 32 * MB);
    assert_eq!(choose_part_size(8 * 1024 * MB, None), 64 * MB);
    assert_eq!(choose_part_size(700_000 * MB, None), 70 * MB);
    assert_eq!(choose_part_size(700_000 * MB + 1, None), 70 * MB + 1);
    assert_eq!(choose_part_size(u64::MAX, None), 95 * MB);
}

#[test]
fn a_part_size_that_was_asked_for_is_clamped() {
    assert_eq!(choose_part_size(123, Some(10)), 10 * MB);
    assert_eq!(choose_part_size(123, Some(0)), 5 * MB);
    assert_eq!(choose_part_size(123, Some(5)), 5 * MB);
    assert_eq!(choose_part_size(123, Some(95)), 95 * MB);
    assert_eq!(choose_part_size(123, Some(96)), 95 * MB);
    assert_eq!(choose_part_size(123, Some(u32::MAX)), 95 * MB);
}

#[test]
fn the_plan_stays_within_10000_parts() {
    assert_eq!(MAX_PARTS, 10_000);
    assert_eq!(plan_part_size(100 * MB, None), 16 * MB);
    assert_eq!(plan_part_size(100 * MB, Some(5)), 5 * MB);
    let big = 60_000 * MB;
    assert_eq!(choose_part_size(big, Some(5)), 5 * MB);
    assert_eq!(plan_part_size(big, Some(5)), 6 * MB);
    assert!(div_ceil(big, plan_part_size(big, Some(5))) <= 10_000);
    for size in [0u64, 1, 5 * MB, 50_000 * MB + 1, 950_000 * MB, 950_000 * MB + 1, u64::MAX] {
        for asked in [None, Some(1), Some(5), Some(50), Some(200)] {
            let part = plan_part_size(size, asked);
            assert!(MIN_PART <= part && part <= MAX_PART);
            if size <= MAX_PARTS * MAX_PART {
                assert!(div_ceil(size, part) <= MAX_PARTS, "{} {:?}", size, asked);
            }
        }
    }
}

#[test]
fn the_last_part_is_what_remains() {
    assert_eq!(next_part_len(8, 20), 8);
    assert_eq!(next_part_len(8, 8), 8);
    assert_eq!(next_part_len(8, 3), 3);
    assert_eq!(next_part_len(8, 0), 0);
    assert_eq!(next_part_len(0, 5), 0);
}

#[test]
fn numbers_are_read_from_text() {
    assert_eq!(u64_from_text("0"), Some(0));
    assert_eq!(u64_from_text("42"), Some(42));
    assert_eq!(u64_from_text("+42"), Some(42));
    assert_eq!(u64_from_text("007"), Some(7));
    assert_eq!(u64_from_text("18446744073709551615"), Some(u64::MAX));
    assert_eq!(u64_from_text("18446744073709551616"), None);
    assert_eq!(u64_from_text("99999999999999999999999"), None);
    for bad in ["", "+", "-1", "-0", "++1", "1+", " 1", "1 ", "1.0", "0x10", "١٢", "1_000"] {
        assert_eq!(u64_from_text(bad), None, "{:?}", bad);
    }
}

#[test]
fn numbers_from_text_agree_with_std() {
    for s in ["0", "+0", "12345678901234567890", "18446744073709551615", "18446744073709551616", "184467440737095516150", "", "+", "-", "a", "12a", "+-1", "000000000000000000000000001"] {
        assert_eq!(u64_from_text(s), s.parse::<u64>().ok(), "{:?}", s);
    }
}

#[test]
fn signed_numbers_must_not_be_negative() {
    assert_eq!(u64_from_signed(0), Some(0));
    assert_eq!(u64_from_signed(i64::MAX), Some(i64::MAX as u64));
    assert_eq!(u64_from_signed(-1), None);
    assert_eq!(u64_from_signed(i64::MIN), None);
}

#[test]
fn paths_are_made_relative() {
    assert_eq!(relative_path("/api/projects"), "api/projects");
    assert_eq!(relative_path("///api//x/"), "api//x/");
    assert_eq!(relative_path("api"), "api");
    assert_eq!(relative_path(""), "");
    assert_eq!(relative_path("//"), "");
}

#[test]
fn bearer_header_names_the_token() {
    assert_eq!(bearer_header("gdm_abc"), "Bearer gdm_abc");
    assert_eq!(bearer_header(""), "Bearer ");
}

#[test]
fn list_queries_hold_the_limit_and_the_given_filters() {
    assert_eq!(memories_query(50, None, None, None, None), pairs(&[("limit", "50")]));
    assert_eq!(
        memories_query(
            7,
            Some("p".to_string()),
            None,
            Some("find me".to_string()),
            Some("t".to_string())
        ),
        pairs(&[("limit", "7"), ("project_id", "p"), ("q", "find me"), ("tag", "t")])
    );
    assert_eq!(
        memories_query(
            0,
            Some("p".to_string()),
            Some("c".to_string()),
            Some("q".to_string()),
            Some("t".to_string())
        ),
        pairs(&[("limit", "0"), ("project_id", "p"), ("category", "c"), ("q", "q"), ("tag", "t")])
    );
    assert_eq!(assets_query(u32::MAX, None, None, None), pairs(&[("limit", "4294967295")]));
    assert_eq!(
        assets_query(1, Some("p".to_string()), Some("m".to_string()), Some("ready".to_string())),
        pairs(&[("limit", "1"), ("project_id", "p"), ("memory_id", "m"), ("status", "ready")])
    );
    assert_eq!(
        assets_query(1, None, None, Some("ready".to_string())),
        pairs(&[("limit", "1"), ("status", "ready")])
    );
}

#[test]
fn the_browser_is_opened_unless_told_not_to() {
    assert!(should_open_browser(false));
    assert!(!should_open_browser(true));
}

#[test]
fn the_url_is_shown_unless_the_browser_opened() {
    assert_eq!(
        launch_messages(&Launch::NotTried, "https://u"),
        vec!["[pajama] Open this URL in your browser to continue login:", "https://u"]
    );
    assert_eq!(
        launch_messages(&Launch::Opened, "https://u"),
        vec!["[pajama] Opening browser for login..."]
    );
    assert_eq!(
        launch_messages(&Launch::Failed("no display".to_string()), "https://u"),
        vec![
            "[pajama] Failed to open browser: no display",
            "[pajama] Open this URL manually:",
            "https://u"
        ]
    );
}

#[test]
fn default_scope_asks_for_everything() {
    assert_eq!(
        default_scope(),
        "projects:read projects:write memories:read memories:write artifacts:read artifacts:write assets:read assets:write"
    );
}
