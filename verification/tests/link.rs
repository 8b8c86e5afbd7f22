use gateway_bot::link::{
    find_link, link_from_groups, link_from_search, parse_message_link, LinkError, LinkReference,
    LINK_PATTERN,
};

fn groups(texts: &[Option<&str>]) -> Vec<Option<String>> {
    texts.iter().map(|t| t.map(|s| s.to_string())).collect()
}

#[test]
fn link_parsing_reads_the_three_components() {
    assert_eq!(
        parse_message_link("https://discord.com/channels/111/222/333"),
        Ok(LinkReference { container: 111, sub: 222, item: 333 })
    );
}

#[test]
fn link_parsing_rejects_another_host() {
    assert_eq!(parse_message_link("https://notdiscord.com/x"), Err(LinkError::NoMatch));
    assert_eq!(
        parse_message_link("https://notdiscord.com/channels/1/2/3"),
        Err(LinkError::NoMatch)
    );
}

#[test]
fn link_parsing_accepts_the_environment_prefixes() {
    assert_eq!(
        parse_message_link("https://canary.discord.com/channels/1/2/3"),
        Ok(LinkReference { container: 1, sub: 2, item: 3 })
    );
    assert_eq!(
        parse_message_link("https://ptb.discord.com/channels/10/20/30"),
        Ok(LinkReference { container: 10, sub: 20, item: 30 })
    );
    assert_eq!(
        parse_message_link("https://beta.discord.com/channels/1/2/3"),
        Err(LinkError::NoMatch)
    );
}

#[test]
fn link_parsing_reads_real_identifiers() {
    assert_eq!(
        parse_message_link(
            "https://discord.com/channels/381880193251409931/381912587505500160/897981367604903966"
        ),
        Ok(LinkReference {
            container: 381880193251409931,
            sub: 381912587505500160,
            item: 897981367604903966,
        })
    );
}

#[test]
fn link_parsing_finds_the_link_inside_other_text() {
    assert_eq!(
        parse_message_link("see https://discord.com/channels/4/5/6 please"),
        Ok(LinkReference { container: 4, sub: 5, item: 6 })
    );
}

#[test]
fn link_parsing_rejects_incomplete_links() {
    assert_eq!(parse_message_link(""), Err(LinkError::NoMatch));
    assert_eq!(parse_message_link("https://discord.com/channels/1/2"), Err(LinkError::NoMatch));
    assert_eq!(parse_message_link("https://discord.com/channels/1/2/"), Err(LinkError::NoMatch));
    assert_eq!(parse_message_link("https://discord.com/channels/a/b/c"), Err(LinkError::NoMatch));
    assert_eq!(parse_message_link("http://discord.com/channels/1/2/3"), Err(LinkError::NoMatch));
    assert_eq!(parse_message_link("discord.com/channels/1/2/3"), Err(LinkError::NoMatch));
}

#[test]
fn link_parsing_rejects_components_that_do_not_fit() {
    assert_eq!(
        parse_message_link("https://discord.com/channels/18446744073709551616/2/3"),
        Err(LinkError::Component)
    );
    assert_eq!(
        parse_message_link("https://discord.com/channels/1/99999999999999999999999/3"),
        Err(LinkError::Component)
    );
    assert_eq!(
        parse_message_link("https://discord.com/channels/18446744073709551615/2/3"),
        Ok(LinkReference { container: u64::MAX, sub: 2, item: 3 })
    );
}

#[test]
fn link_parsing_rejects_digits_of_other_scripts() {
    assert_eq!(
        parse_message_link("https://discord.com/channels/\u{661}\u{662}/2/3"),
        Err(LinkError::Component)
    );
}

#[test]
fn link_parsing_reads_leading_zeros_as_numbers() {
    assert_eq!(
        parse_message_link("https://discord.com/channels/007/08/0"),
        Ok(LinkReference { container: 7, sub: 8, item: 0 })
    );
}

#[test]
fn the_pattern_is_the_documented_one() {
    assert_eq!(
        LINK_PATTERN,
        "https://(?:canary.|ptb.)?discord.com/channels/(?P<serverid>\\d+)/(?P<channelid>\\d+)/(?P<messageid>\\d+)"
    );
}

#[test]
fn groups_one_to_three_make_the_link() {
    let found = groups(&[Some("whole"), Some("1"), Some("2"), Some("3")]);
    assert_eq!(link_from_groups(&found), Ok(LinkReference { container: 1, sub: 2, item: 3 }));
}

#[test]
fn a_missing_group_is_a_component_error() {
    assert_eq!(link_from_groups(&groups(&[])), Err(LinkError::Component));
    assert_eq!(
        link_from_groups(&groups(&[Some("w"), Some("1"), Some("2")])),
        Err(LinkError::Component)
    );
    assert_eq!(
        link_from_groups(&groups(&[Some("w"), Some("1"), None, Some("3")])),
        Err(LinkError::Component)
    );
    assert_eq!(
        link_from_groups(&groups(&[Some("w"), Some("1"), Some("x"), Some("3")])),
        Err(LinkError::Component)
    );
    assert_eq!(
        link_from_groups(&groups(&[Some("w"), Some(""), Some("2"), Some("3")])),
        Err(LinkError::Component)
    );
}

#[test]
fn groups_beyond_the_third_are_not_read() {
    let found = groups(&[None, Some("1"), Some("2"), Some("3"), Some("x"), None]);
    assert_eq!(link_from_groups(&found), Ok(LinkReference { container: 1, sub: 2, item: 3 }));
}

#[test]
fn a_search_without_match_is_no_link() {
    assert_eq!(link_from_search(&None), Err(LinkError::NoMatch));
    assert_eq!(
        link_from_search(&Some(groups(&[Some("w"), Some("9"), Some("8"), Some("7")]))),
        Ok(LinkReference { container: 9, sub: 8, item: 7 })
    );
}

#[test]
fn a_pattern_that_the_engine_refuses_is_a_pattern_error() {
    assert_eq!(find_link("(", "https://discord.com/channels/1/2/3"), Err(LinkError::Pattern));
    assert_eq!(find_link("a{2,1}", ""), Err(LinkError::Pattern));
}

#[test]
fn another_pattern_with_three_numbers_is_read_the_same_way() {
    assert_eq!(
        find_link("(\\d+)-(\\d+)-(\\d+)", "at 10-20-30 and 40-50-60"),
        Ok(LinkReference { container: 10, sub: 20, item: 30 })
    );
    assert_eq!(find_link("(\\d+)-(\\d+)-(\\d+)", "10-20"), Err(LinkError::NoMatch));
}

#[test]
fn a_pattern_with_too_few_groups_gives_no_link() {
    assert_eq!(find_link("(\\d+)-(\\d+)", "10-20"), Err(LinkError::Component));
    assert_eq!(find_link("(\\d+)|(x)-(y)-(z)", "10"), Err(LinkError::Component));
}
