use plotfed::auth::{
    check_unreg_plot, key_checker, parse_user_agent, plot_checker, Auth, KeyAuth, KeyAuthError,
    PeerAddr, Plot, PlotAuth, PlotAuthError, UnregisteredPlot,
};
use plotfed::instance::{Instance, InstanceDomain};
use plotfed::keys::PublicKey;
use plotfed::text::{chars_of, find, matches_at, parse_i32};

fn some_plot(id: i32) -> Plot {
    Plot {
        plot_id: id,
        owner: 77,
        instance: Instance { key: PublicKey { bytes: [3; 32] }, domain: InstanceDomain::Current },
    }
}

#[test]
fn header_of_a_game_server_parses() {
    let plot = parse_user_agent("Hypercube/7.2 (23612, DynamicCake)").unwrap();
    assert_eq!(plot.plot_id, 23612);
    assert_eq!(plot.owner, "DynamicCake");
}

#[test]
fn header_with_a_word_for_the_plot_is_malformed() {
    assert_eq!(parse_user_agent("Hypercube/7.2 (abc, X)"), None);
}

#[test]
fn header_without_the_form_is_malformed() {
    assert_eq!(parse_user_agent("garbage"), None);
    assert_eq!(parse_user_agent(""), None);
    assert_eq!(parse_user_agent("Hypercube/7.2 ("), None);
    assert_eq!(parse_user_agent(" Hypercube/7.2 (1, A)"), None);
    assert_eq!(parse_user_agent("Hypercub/7.2 (1, A)"), None);
    assert_eq!(parse_user_agent("hypercube/7.2 (1, A)"), None);
    assert_eq!(parse_user_agent("(1, A)"), None);
}

#[test]
fn header_of_any_version_parses() {
    for header in [
        "Hypercube/7.3 (23612, DynamicCake)",
        "Hypercube/8 (23612, DynamicCake)",
        "Hypercube/10.0.1-beta (23612, DynamicCake)",
        "Hypercube/ (23612, DynamicCake)",
        "Hypercube/7.2(23612, DynamicCake)",
    ] {
        let plot = parse_user_agent(header).unwrap();
        assert_eq!(plot.plot_id, 23612, "{}", header);
        assert_eq!(plot.owner, "DynamicCake", "{}", header);
    }
}

#[test]
fn header_with_a_number_below_zero_is_malformed() {
    assert_eq!(parse_user_agent("Hypercube/7.2 (-1, X)"), None);
    assert_eq!(parse_user_agent("Hypercube/7.2 (-7, )"), None);
    assert_eq!(parse_user_agent("Hypercube/7.2 (-2147483648, X)"), None);
    assert_eq!(parse_user_agent("Hypercube/7.2 (-0, X)").unwrap().plot_id, 0);
    assert_eq!(parse_user_agent("Hypercube/7.2 (0, X)").unwrap().plot_id, 0);
    assert_eq!(parse_user_agent("Hypercube/7.2 (2147483647, X)").unwrap().plot_id, i32::MAX);
    assert_eq!(
        check_unreg_plot(PeerAddr::V4(51, 222, 245, 229), "Hypercube/7.2 (-1, X)", false),
        Err(PlotAuthError::MalformedUserAgent)
    );
}

#[test]
fn header_needs_each_delimiter() {
    assert_eq!(parse_user_agent("Hypercube/7.2 (1,A)"), None);
    assert_eq!(parse_user_agent("Hypercube/7.2 (1, A"), None);
    assert_eq!(parse_user_agent("Hypercube/7.2 (1 A)"), None);
}

#[test]
fn header_is_split_at_the_first_delimiters() {
    let plot = parse_user_agent("Hypercube/7.2 (5, a, b) c)").unwrap();
    assert_eq!(plot.plot_id, 5);
    assert_eq!(plot.owner, "a, b");
    let plot = parse_user_agent("Hypercube/7.2 (7, )").unwrap();
    assert_eq!(plot.plot_id, 7);
    assert_eq!(plot.owner, "");
}

#[test]
fn header_owner_may_hold_any_characters() {
    let plot = parse_user_agent("Hypercube/7.2 (12, Zoë ✓)").unwrap();
    assert_eq!(plot.plot_id, 12);
    assert_eq!(plot.owner, "Zoë ✓");
}

#[test]
fn header_plot_must_be_a_plain_number() {
    assert_eq!(parse_user_agent("Hypercube/7.2 ( 5, A)"), None);
    assert_eq!(parse_user_agent("Hypercube/7.2 (5 , A)"), None);
    assert_eq!(parse_user_agent("Hypercube/7.2 (, A)"), None);
    assert_eq!(parse_user_agent("Hypercube/7.2 (2147483648, A)"), None);
    assert_eq!(parse_user_agent("Hypercube/7.2 (+9, A)").unwrap().plot_id, 9);
}

#[test]
fn decimal_numbers_are_read_as_the_language_reads_them() {
    let cases = [
        "0", "7", "-0", "+0", "+5", "-5", "00012", "2147483647", "2147483648", "-2147483648",
        "-2147483649", "99999999999999999999", "", "+", "-", "--1", "+-1", "1a", "a1", " 1", "1 ",
        "１", "1_000", "0x10",
    ];
    for text in cases {
        assert_eq!(parse_i32(&chars_of(text)), text.parse::<i32>().ok(), "{}", text);
    }
    assert_eq!(parse_i32(&chars_of("23612")), Some(23612));
    assert_eq!(parse_i32(&chars_of("-2147483648")), Some(i32::MIN));
}

#[test]
fn searching_finds_the_first_place() {
    let text = chars_of("a, b, c");
    let pat = chars_of(", ");
    assert_eq!(find(&text, &pat), Some(1));
    assert_eq!(find(&text, &chars_of("c")), Some(6));
    assert_eq!(find(&text, &chars_of("d")), None);
    assert_eq!(find(&text, &chars_of("")), Some(0));
    assert_eq!(find(&chars_of(""), &chars_of("")), Some(0));
    assert_eq!(find(&chars_of(""), &chars_of("a")), None);
    assert!(matches_at(&text, &pat, 4));
    assert!(!matches_at(&text, &pat, 5));
    assert!(!matches_at(&text, &pat, 6));
    assert!(!matches_at(&text, &pat, 700));
}

#[test]
fn game_server_must_come_from_the_allow_list() {
    let header = "Hypercube/7.2 (23612, DynamicCake)";
    let good = check_unreg_plot(PeerAddr::V4(51, 222, 245, 229), header, false).unwrap();
    assert_eq!(good, UnregisteredPlot { plot_id: 23612, owner: "DynamicCake".to_string() });
    assert_eq!(
        check_unreg_plot(PeerAddr::V4(127, 0, 0, 1), header, false),
        Err(PlotAuthError::InvalidIp)
    );
    assert!(check_unreg_plot(PeerAddr::V4(127, 0, 0, 1), header, true).is_ok());
    assert!(check_unreg_plot(PeerAddr::V4(51, 222, 245, 229), header, true).is_ok());
    assert_eq!(
        check_unreg_plot(PeerAddr::V4(51, 222, 245, 228), header, true),
        Err(PlotAuthError::InvalidIp)
    );
    assert_eq!(check_unreg_plot(PeerAddr::V6, header, true), Err(PlotAuthError::NotIpv4));
    assert_eq!(
        check_unreg_plot(PeerAddr::Other, header, true),
        Err(PlotAuthError::NotInternetSocketAddr)
    );
}

#[test]
fn address_is_judged_before_the_header() {
    assert_eq!(
        check_unreg_plot(PeerAddr::V4(10, 0, 0, 1), "garbage", true),
        Err(PlotAuthError::InvalidIp)
    );
    assert_eq!(
        check_unreg_plot(PeerAddr::V4(51, 222, 245, 229), "garbage", false),
        Err(PlotAuthError::MalformedUserAgent)
    );
    assert_eq!(PlotAuthError::MalformedUserAgent.status(), 401);
    assert_eq!(PlotAuthError::InvalidIp.status(), 401);
}

#[test]
fn api_key_is_judged_by_what_was_found() {
    assert_eq!(key_checker(None), Err(KeyAuthError::InvalidApiKey));
    assert_eq!(key_checker(Some(some_plot(4))), Ok(some_plot(4)));
    assert_eq!(KeyAuthError::InvalidApiKey.status(), 401);
}

#[test]
fn vouched_plot_must_be_registered() {
    let unreg = UnregisteredPlot { plot_id: 9, owner: "Someone".to_string() };
    assert_eq!(plot_checker(&unreg, None), Err(PlotAuthError::PlotNotRegistered));
    let found = plot_checker(&unreg, Some(some_plot(9))).unwrap();
    assert_eq!(found.plot_id, 9);
    assert_eq!(found.owner, 77);
}

#[test]
fn either_credential_names_its_plot() {
    assert_eq!(Auth::KeyAuth(KeyAuth(some_plot(1))).plot(), some_plot(1));
    assert_eq!(Auth::PlotAuth(PlotAuth(some_plot(2))).plot(), some_plot(2));
}
