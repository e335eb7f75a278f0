use codex_runtime::json::Json;
use codex_runtime::snapshot::ProcessIdentity;
use codex_runtime::usage::{
    publish, CreditsSnapshot, GetAccountRateLimitsResponse, RateLimitResetCredit,
    RateLimitResetCreditsSummary, RateLimitSnapshot, RateLimitWindow,
};
use serde_json::Value;

fn limit(id: Option<&str>) -> RateLimitSnapshot {
    RateLimitSnapshot {
        limit_id: id.map(str::to_owned),
        limit_name: None,
        primary: None,
        secondary: None,
        credits: None,
    }
}

fn response(rate_limits: RateLimitSnapshot) -> GetAccountRateLimitsResponse {
    GetAccountRateLimitsResponse {
        ordinary_usage_allowed: None,
        rate_limits,
        rate_limits_by_limit_id: None,
        rate_limit_reset_credits: None,
        account_id: None,
        rate_limit_upsell: None,
    }
}

const PROCESS: ProcessIdentity = ProcessIdentity {
    pid: 7,
    linux_start_ticks: None,
};

#[test]
fn snapshot_keeps_usage_and_omits_account_and_reset_credit_identity() {
    let response = GetAccountRateLimitsResponse {
        ordinary_usage_allowed: Some(true),
        rate_limits: RateLimitSnapshot {
            limit_id: Some("codex".to_string()),
            limit_name: None,
            primary: Some(RateLimitWindow {
                used_percent: 43,
                window_duration_mins: Some(300),
                resets_at: Some(1_789_522_200),
            }),
            secondary: Some(RateLimitWindow {
                used_percent: 43,
                window_duration_mins: Some(10_080),
                resets_at: Some(1_789_522_200),
            }),
            credits: Some(CreditsSnapshot {
                has_credits: true,
                unlimited: false,
                balance: Some("4632.0".to_string()),
            }),
        },
        rate_limits_by_limit_id: None,
        rate_limit_reset_credits: Some(RateLimitResetCreditsSummary {
            available_count: 1,
            credits: Some(vec![RateLimitResetCredit {
                id: "do-not-persist".to_string(),
                title: Some("private detail".to_string()),
                description: Some("private detail".to_string()),
            }]),
        }),
        account_id: Some("do-not-persist".to_string()),
        rate_limit_upsell: Some(Json::Object(vec![(
            "message".to_string(),
            Json::Text("do-not-persist".to_string()),
        )])),
    };

    let raw = publish(&response, &PROCESS, 1_789_000_000_000, 0).contents;

    let value: Value = serde_json::from_str(&raw).expect("valid json");
    assert_eq!(value["schema"], "codex.account-usage-state/v1");
    assert_eq!(value["rate_limit_reset_credits_available"], 1);
    assert_eq!(
        value["rate_limits_by_limit_id"]["codex"]["credits"]["balance"],
        "4632.0"
    );
    assert!(!raw.contains("do-not-persist"));
    assert!(!raw.contains("private detail"));
    let primary = &value["rate_limits_by_limit_id"]["codex"]["primary"];
    assert_eq!(primary["used_percent"], 43);
    assert_eq!(primary["window_minutes"], 300);
    assert_eq!(primary["resets_at"], 1_789_522_200);
}

#[test]
fn unnamed_limit_is_published_under_the_default_id() {
    let publication = publish(&response(limit(Some(""))), &PROCESS, 12, 3);
    assert_eq!(publication.temporary_name, ".current.json.7.3.tmp");
    assert_eq!(
        publication.contents,
        "{\"schema\":\"codex.account-usage-state/v1\",\"updated_at_unix_ms\":12,\"process\":{\"pid\":7},\"ordinary_usage_allowed\":null,\"rate_limits_by_limit_id\":{\"codex\":{\"limit_id\":\"codex\"}},\"rate_limit_reset_credits_available\":null}\n"
    );
}

#[test]
fn limits_are_published_in_the_order_of_their_ids() {
    let mut response = response(limit(Some("m")));
    response.rate_limits_by_limit_id = Some(vec![
        ("z".to_string(), limit(Some("inner"))),
        ("a".to_string(), limit(None)),
        ("mm".to_string(), limit(None)),
    ]);
    let raw = publish(&response, &PROCESS, 0, 0).contents;
    assert!(raw.contains(
        "{\"a\":{\"limit_id\":\"a\"},\"m\":{\"limit_id\":\"m\"},\"mm\":{\"limit_id\":\"mm\"},\"z\":{\"limit_id\":\"z\"}}"
    ));
}

#[test]
fn a_listed_limit_stands_for_the_main_one() {
    let mut response = response(limit(Some("codex")));
    let mut listed = limit(Some("codex"));
    listed.limit_name = Some("listed".to_string());
    response.rate_limits_by_limit_id = Some(vec![("codex".to_string(), listed)]);
    let value: Value =
        serde_json::from_str(&publish(&response, &PROCESS, 0, 0).contents).expect("valid json");
    assert_eq!(
        value["rate_limits_by_limit_id"]["codex"]["name"],
        "listed"
    );
}
