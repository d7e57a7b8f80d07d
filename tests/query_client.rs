use topgg::api;
use topgg::client::Client;
use topgg::snowflake::SnowflakeLike;
use topgg::text::decimal_string;

#[test]
fn get_bots_query_matches_builder_calls() {
    let client = Client::new(String::from("secret"));
    let q = client
        .get_bots()
        .limit(250)
        .skip(50)
        .username("shiro")
        .sort_by_monthly_votes();
    assert_eq!(q.query_string(), "?limit=250&offset=50&sort=monthlyPoints&search=username%3A%20shiro%20");
    assert_eq!(
        q.url(),
        "https://top.gg/api/bots?limit=250&offset=50&sort=monthlyPoints&search=username%3A%20shiro%20"
    );
}

#[test]
fn get_bots_caps_limit_and_skip() {
    let client = Client::new(String::from("t"));
    let q = client.get_bots().limit(1000).skip(600);
    assert_eq!(q.query_string(), "?limit=500&offset=499");
}

#[test]
fn empty_get_bots_has_no_query() {
    let client = Client::new(String::from("t"));
    assert_eq!(client.get_bots().query_string(), "");
    assert_eq!(client.get_bots().sort_by_id().query_string(), "?sort=id");
    assert_eq!(client.get_bots().sort_by_approval_date().query_string(), "?sort=date");
}

#[test]
fn search_terms_are_encoded() {
    let client = Client::new(String::from("t"));
    let q = client
        .get_bots()
        .prefix("a b!")
        .votes(12)
        .monthly_votes(3)
        .vanity("x~y");
    assert_eq!(
        q.query_string(),
        "?search=prefix%3A%20a%20b%21%20points%3A%2012%20monthlyPoints%3A%203%20vanity%3A%20x~y%20"
    );
}

#[test]
fn client_sends_bearer_token() {
    let client = Client::new(String::from("abc"));
    assert_eq!(client.inner_client().token(), "Bearer abc");
}

#[test]
fn snowflakes_from_numbers_and_strings() {
    assert_eq!(264811613708746752u64.as_snowflake(), 264811613708746752);
    assert_eq!(5u128.as_snowflake(), 5);
    assert_eq!(7i128.as_snowflake(), 7);
    assert_eq!(9usize.as_snowflake(), 9);
    assert_eq!(3isize.as_snowflake(), 3);
    assert_eq!("661200758510977084".as_snowflake(), 661200758510977084);
    assert_eq!("+42".as_snowflake(), 42);
    assert_eq!(String::from("18446744073709551615").as_snowflake(), u64::MAX);
}

#[test]
fn decimal_strings() {
    assert_eq!(decimal_string(0), "0");
    assert_eq!(decimal_string(1234), "1234");
    assert_eq!(decimal_string(u64::MAX), "18446744073709551615");
}

#[test]
fn invalid_snowflakes_are_refused() {
    assert_eq!("".to_snowflake(), None);
    assert_eq!("+".to_snowflake(), None);
    assert_eq!("12a".to_snowflake(), None);
    assert_eq!("-1".to_snowflake(), None);
    assert_eq!("18446744073709551616".to_snowflake(), None);
    assert_eq!((-1i128).to_snowflake(), None);
    assert_eq!((u64::MAX as u128 + 1).to_snowflake(), None);
    assert_eq!((-3isize).to_snowflake(), None);
    assert_eq!("0042".to_snowflake(), Some(42));
    assert_eq!(topgg::snowflake::parse_u64("+0"), Some(0));
}

#[test]
fn api_addresses() {
    assert_eq!(api::user_url(661200758510977084), "https://top.gg/api/users/661200758510977084");
    assert_eq!(api::bot_url(264811613708746752), "https://top.gg/api/bots/264811613708746752");
    assert_eq!(api::vote_check_url(7), "https://top.gg/api/bots/check?userId=7");
    assert_eq!(api::stats_url(), "https://top.gg/api/bots/stats");
    assert_eq!(api::votes_url(), "https://top.gg/api/bots/votes");
    assert_eq!(api::weekend_url(), "https://top.gg/api/weekend");
    assert_eq!(api::bot_page_url(5, None), "https://top.gg/bot/5");
    assert_eq!(api::bot_page_url(5, Some("luca")), "https://top.gg/bot/luca");
    assert_eq!(
        api::bot_invite_url(12, None),
        "https://discord.com/oauth2/authorize?scope=bot&client_id=12"
    );
    assert_eq!(api::bot_invite_url(12, Some("https://x.y/z")), "https://x.y/z");
    assert_eq!(api::support_invite_url("abc"), "https://discord.com/invite/abc");
}
