use gateway_bot::copy::{
    copy_markdown, copy_markdown_fetched, copy_markdown_step, CopyStep, INVALID_LINK_NOTICE,
    WRONG_SERVER_NOTICE,
};
use gateway_bot::link::{find_link, parse_message_link, LinkError, LinkReference};
use gateway_bot::markdown::Reply;

fn say(text: &str) -> CopyStep {
    CopyStep::Respond(Reply::Say(text.to_string()))
}

#[test]
fn notices_are_the_documented_ones() {
    assert_eq!(INVALID_LINK_NOTICE, "Invalid link");
    assert_eq!(
        WRONG_SERVER_NOTICE,
        "The server ID in the message link does not match the server ID of the current server."
    );
}

#[test]
fn a_link_into_this_server_is_looked_up() {
    assert_eq!(
        copy_markdown("https://discord.com/channels/111/222/333", 111),
        CopyStep::Fetch { channel_id: 222, message_id: 333 }
    );
}

#[test]
fn a_link_into_another_server_is_rejected_without_lookup() {
    assert_eq!(
        copy_markdown("https://discord.com/channels/111/222/333", 112),
        say("The server ID in the message link does not match the server ID of the current server.")
    );
}

#[test]
fn a_text_that_is_no_link_is_rejected() {
    assert_eq!(copy_markdown("https://notdiscord.com/x", 111), say("Invalid link"));
    assert_eq!(copy_markdown("", 0), say("Invalid link"));
    assert_eq!(
        copy_markdown("https://discord.com/channels/99999999999999999999/2/3", 1),
        say("Invalid link")
    );
}

#[test]
fn the_server_is_compared_as_a_number() {
    assert_eq!(
        copy_markdown("https://discord.com/channels/0111/222/333", 111),
        CopyStep::Fetch { channel_id: 222, message_id: 333 }
    );
}

#[test]
fn every_parse_error_gives_the_same_notice() {
    for e in [LinkError::Pattern, LinkError::NoMatch, LinkError::Component] {
        assert_eq!(copy_markdown_step(Err(e), 5), say("Invalid link"));
    }
}

#[test]
fn the_step_follows_the_parsed_link() {
    let link = LinkReference { container: 5, sub: 6, item: 7 };
    assert_eq!(copy_markdown_step(Ok(link), 5), CopyStep::Fetch { channel_id: 6, message_id: 7 });
    assert_eq!(
        copy_markdown_step(Ok(link), 6),
        say("The server ID in the message link does not match the server ID of the current server.")
    );
    assert_eq!(
        copy_markdown_step(Ok(link), 7),
        say("The server ID in the message link does not match the server ID of the current server.")
    );
}

#[test]
fn a_fetched_message_is_shown_escaped() {
    assert_eq!(
        copy_markdown_fetched(Ok::<String, String>("*x* `y`".to_string())),
        Ok(Reply::Embed {
            title: "Raw Markdown".to_string(),
            description: "\n\\*x\\* \\`y\\`\n".to_string(),
        })
    );
}

#[test]
fn a_fetched_message_at_the_ceiling_is_rejected() {
    assert_eq!(
        copy_markdown_fetched(Ok::<String, String>("b".repeat(3999))),
        Ok(Reply::Say(
            "Since this message is over 4000 characters, it cannot be displayed in a non embed message. Sorry :( "
                .to_string()
        ))
    );
}

#[test]
fn a_failed_lookup_is_the_commands_failure() {
    assert_eq!(
        copy_markdown_fetched(Err("Unknown Message".to_string())),
        Err("Unknown Message".to_string())
    );
}

#[test]
fn a_failed_lookup_hands_on_the_error_whatever_its_type() {
    assert_eq!(copy_markdown_fetched(Err(404u16)), Err(404u16));
    assert_eq!(
        copy_markdown_fetched(Err(vec!["not found", "retry later"])),
        Err(vec!["not found", "retry later"])
    );
    assert_eq!(
        copy_markdown_fetched(Ok::<String, u16>("a|b".to_string())),
        Ok(Reply::Embed {
            title: "Raw Markdown".to_string(),
            description: "\na\\|b\n".to_string(),
        })
    );
}

#[test]
fn a_refused_pattern_and_a_text_without_link_are_told_apart() {
    assert_eq!(find_link("(", "https://discord.com/channels/1/2/3"), Err(LinkError::Pattern));
    assert_eq!(parse_message_link("no link here"), Err(LinkError::NoMatch));
    assert_eq!(
        parse_message_link("https://discord.com/channels/1/2/3"),
        Ok(LinkReference { container: 1, sub: 2, item: 3 })
    );
}
