use gather::events::{event_step, BotEvent, EventAction, EventInput, EventState};
use gather::guild_config::GuildConfigManager;
use gather::housekeeping::{permission_notice, warning_message};
use gather::lfg::{lfg_step, LfgAction, LfgEvent, LfgRequest, LfgState};
use gather::presence::{activity, next_activity, ACTIVITY_COUNT};
use gather::session::Session;

fn configured() -> GuildConfigManager {
    let mut c = GuildConfigManager::new();
    c.set_config(1, 100, 200);
    c.add_type(1, "raid".to_string(), 7);
    c
}

fn request(channel_id: u64, lfg_type: &str, message: Option<&str>) -> LfgRequest {
    LfgRequest {
        guild_id: 1,
        channel_id,
        author_id: 42,
        author_name: "alice".to_string(),
        lfg_type: lfg_type.to_string(),
        players: "3-4".to_string(),
        message: message.map(|m| m.to_string()),
    }
}

fn respond_text(a: &LfgAction) -> String {
    match a {
        LfgAction::Respond { reply } => {
            assert!(reply.ephemeral);
            reply.content.clone().unwrap()
        }
        other => panic!("unexpected {other:?}"),
    }
}

const UNCONFIGURED: &str = "This server has no channels configured. Ask an administrator to configure channels using '/gthr-channel-config'";

#[test]
fn lfg_full_run() {
    let c = configured();
    let req = request(200, "raid", Some("bring snacks"));
    let (st, a) = lfg_step(&c, &req, LfgState::Start, LfgEvent::Started);
    assert!(matches!(a, LfgAction::FetchChannel { channel_id: 200 }));
    let (st, a) = lfg_step(&c, &req, st, LfgEvent::ChannelFetched { ok: true });
    assert!(matches!(a, LfgAction::FetchChannel { channel_id: 100 }));
    let (st, a) = lfg_step(&c, &req, st, LfgEvent::ChannelFetched { ok: true });
    match &a {
        LfgAction::CreatePost { forum_id, post } => {
            assert_eq!(*forum_id, 100);
            assert_eq!(post.title, "raid alice");
            assert_eq!(post.embed.title.as_deref(), Some("Welcome!"));
            assert_eq!(
                post.embed.description.as_deref(),
                Some("When you are done, please use the button below to mark this forum post as completed")
            );
            assert_eq!(post.button_id, "gthr_complete");
            assert_eq!(post.button_label, "Mark as complete \u{2611}\u{FE0F}");
        }
        other => panic!("unexpected {other:?}"),
    }
    let (st, a) = lfg_step(&c, &req, st, LfgEvent::PostCreated { post_id: 500, complete_message_id: 501 });
    match &a {
        LfgAction::Announce { reply } => {
            assert!(!reply.ephemeral);
            assert_eq!(reply.content.as_deref(), Some("<@&7>"));
            let e = reply.embed.as_ref().unwrap();
            assert_eq!(e.title.as_deref(), Some("\u{1F50D} Looking For Group: raid"));
            assert_eq!(e.fields[0].name, "Host");
            assert_eq!(e.fields[0].value, "<@42>");
            assert_eq!(e.fields[1].value, "3-4");
            assert_eq!(e.fields[2].value, "<#500>");
            assert_eq!(e.footer.as_deref(), Some("More info: bring snacks"));
        }
        other => panic!("unexpected {other:?}"),
    }
    let (st, a) = lfg_step(&c, &req, st, LfgEvent::Announced { message_id: 600, now: 1_700_000_000 });
    assert!(matches!(a, LfgAction::CheckPost { post_id: 500 }));
    let session = match st {
        LfgState::CheckingPost { session } => session,
        ref other => panic!("unexpected {other:?}"),
    };
    assert_eq!(
        session,
        Session::new_at(500, 1, 100, 42, 200, 600, 501, 1_700_000_000)
    );
    let (st, a) = lfg_step(&c, &req, st, LfgEvent::PostChecked { exists: true });
    assert!(matches!(a, LfgAction::Store { session: s } if s == session));
    let (st, a) = lfg_step(&c, &req, st, LfgEvent::Stored { ok: true });
    assert!(matches!(st, LfgState::Finished));
    assert!(matches!(a, LfgAction::Done));
}

#[test]
fn lfg_without_message_has_no_footer() {
    let c = configured();
    let req = request(200, "raid", None);
    let (_, a) = lfg_step(&c, &req, LfgState::CreatingPost { forum_id: 100, role_id: 7 }, LfgEvent::PostCreated { post_id: 5, complete_message_id: 6 });
    match a {
        LfgAction::Announce { reply } => assert!(reply.embed.unwrap().footer.is_none()),
        other => panic!("unexpected {other:?}"),
    }
}

#[test]
fn lfg_refusals() {
    let empty = GuildConfigManager::new();
    let req = request(200, "raid", None);
    let (st, a) = lfg_step(&empty, &req, LfgState::Start, LfgEvent::Started);
    assert!(matches!(st, LfgState::Finished));
    assert_eq!(respond_text(&a), UNCONFIGURED);

    let c = configured();
    let (_, a) = lfg_step(&c, &req, LfgState::CheckingCommandChannel { channel_id: 200 }, LfgEvent::ChannelFetched { ok: false });
    assert_eq!(respond_text(&a), UNCONFIGURED);

    let elsewhere = request(999, "raid", None);
    let (_, a) = lfg_step(&c, &elsewhere, LfgState::CheckingCommandChannel { channel_id: 200 }, LfgEvent::ChannelFetched { ok: true });
    assert_eq!(respond_text(&a), "Command can only be used inside <#200>");

    let (_, a) = lfg_step(&c, &req, LfgState::CheckingForum { forum_id: 100 }, LfgEvent::ChannelFetched { ok: false });
    assert_eq!(respond_text(&a), UNCONFIGURED);

    let unknown = request(200, "dungeon", None);
    let (_, a) = lfg_step(&c, &unknown, LfgState::CheckingForum { forum_id: 100 }, LfgEvent::ChannelFetched { ok: true });
    assert_eq!(respond_text(&a), "Unknown LFG type, check autocomplete for available options");
}

#[test]
fn lfg_undoes_what_failed() {
    let c = configured();
    let req = request(200, "raid", None);
    let s = Session::new_at(500, 1, 100, 42, 200, 600, 501, 0);
    let (st, a) = lfg_step(&c, &req, LfgState::CheckingPost { session: s }, LfgEvent::PostChecked { exists: false });
    assert!(matches!(st, LfgState::Finished));
    match a {
        LfgAction::AbandonAnnouncement { reply, session } => {
            assert_eq!(session, s);
            assert_eq!(reply.content.as_deref(), Some("The LFG forum was deleted while creating your post. Ask an administrator to configure one using '/gthr-channel-config'"));
        }
        other => panic!("unexpected {other:?}"),
    }
    let (_, a) = lfg_step(&c, &req, LfgState::Storing { session: s }, LfgEvent::Stored { ok: false });
    match a {
        LfgAction::AbandonSession { reply, session } => {
            assert_eq!(session, s);
            assert_eq!(reply.content.as_deref(), Some("Failed to create session. Please try again later"));
        }
        other => panic!("unexpected {other:?}"),
    }
    let (st, a) = lfg_step(&c, &req, LfgState::Start, LfgEvent::Stored { ok: true });
    assert!(matches!(st, LfgState::Finished) && matches!(a, LfgAction::Done));
}

#[test]
fn button_press_completes_the_post() {
    let ev = BotEvent::ButtonPressed { channel_id: 5, message_id: 6, user_id: 7 };
    let (st, a) = event_step(EventState::Start, EventInput::Received { event: ev });
    assert!(matches!(a, EventAction::MarkCompleted { post_id: 5 }));
    let (st, a) = event_step(st, EventInput::Marked { found: Some(true) });
    assert!(matches!(st, EventState::Finished));
    match a {
        EventAction::ShowCompleted { channel_id, message_id, content, embed, button_id, button_label } => {
            assert_eq!(button_id, "gthr_complete");
            assert_eq!((channel_id, message_id), (5, 6));
            assert_eq!(content, "Completed by <@7>");
            assert_eq!(embed.title.as_deref(), Some("Completed"));
            assert_eq!(embed.description.as_deref(), Some("Forum post marked as completed"));
            assert_eq!(button_label, "Completed");
        }
        other => panic!("unexpected {other:?}"),
    }
}

#[test]
fn button_press_in_unknown_post() {
    let marking = EventState::Marking { channel_id: 5, message_id: 6, user_id: 7 };
    let (_, a) = event_step(marking, EventInput::Marked { found: Some(false) });
    match a {
        EventAction::RespondToPress { reply } => {
            assert!(reply.ephemeral);
            assert_eq!(reply.content.as_deref(), Some("Gather does not know this LFG session. Please remove manually when done"));
        }
        other => panic!("unexpected {other:?}"),
    }
    let marking = EventState::Marking { channel_id: 5, message_id: 6, user_id: 7 };
    let (_, a) = event_step(marking, EventInput::Marked { found: None });
    assert!(matches!(a, EventAction::Done));
}

#[test]
fn messages_record_activity() {
    let (_, a) = event_step(EventState::Start, EventInput::Received { event: BotEvent::MessagePosted { channel_id: 5, author_is_bot: true } });
    assert!(matches!(a, EventAction::Done));
    let (st, a) = event_step(EventState::Start, EventInput::Received { event: BotEvent::MessagePosted { channel_id: 5, author_is_bot: false } });
    assert!(matches!(a, EventAction::UpdateActivity { post_id: 5 }));
    let (_, a) = event_step(st, EventInput::ActivityUpdated { warning: Some(9) });
    assert!(matches!(a, EventAction::DeleteMessage { channel_id: 5, message_id: 9 }));
    let (_, a) = event_step(EventState::Touching { channel_id: 5 }, EventInput::ActivityUpdated { warning: None });
    assert!(matches!(a, EventAction::Done));
}

#[test]
fn deleted_posts_and_forums_close_sessions() {
    let s = Session::new_at(5, 1, 100, 42, 200, 600, 501, 0);
    let (st, a) = event_step(EventState::Start, EventInput::Received { event: BotEvent::ThreadDeleted { thread_id: 5 } });
    assert!(matches!(a, EventAction::LookupSession { post_id: 5 }));
    let (_, a) = event_step(st, EventInput::ThreadSession { session: Some(s) });
    assert!(matches!(a, EventAction::CloseSession { session } if session == s));
    let (_, a) = event_step(EventState::LookingUpThread { thread_id: 5 }, EventInput::ThreadSession { session: None });
    assert!(matches!(a, EventAction::Done));

    let (_, a) = event_step(EventState::Start, EventInput::Received { event: BotEvent::ChannelDeleted { channel_id: 100, kind: 0 } });
    assert!(matches!(a, EventAction::Done));
    let (st, a) = event_step(EventState::Start, EventInput::Received { event: BotEvent::ChannelDeleted { channel_id: 100, kind: 15 } });
    assert!(matches!(a, EventAction::LookupForum { forum_id: 100 }));
    let (_, a) = event_step(st, EventInput::ForumSessions { sessions: vec![s] });
    assert!(matches!(a, EventAction::CloseForum { forum_id: 100, ref sessions } if sessions == &vec![s]));
    let (_, a) = event_step(EventState::LookingUpForum { forum_id: 100 }, EventInput::ForumSessions { sessions: vec![] });
    assert!(matches!(a, EventAction::Done));
    let (_, a) = event_step(EventState::Start, EventInput::Received { event: BotEvent::Other });
    assert!(matches!(a, EventAction::Done));
}

#[test]
fn inactivity_warning_text() {
    let s = Session::new_at(500, 1, 100, 42, 200, 600, 501, 0);
    assert_eq!(
        warning_message(&s),
        "Hey <@42>\nThis post has been inactive for an hour. If I don't see any further activity in this forum post within the next 30 minutes, it will be deleted.\nPlease mark this post as completed if you are done here: https://discord.com/channels/1/500/501\n\n-# Send a message to mark this post as active"
    );
}

#[test]
fn permission_notice_only_once_and_only_for_missing_permissions() {
    let s = Session::new_at(500, 1, 100, 42, 200, 600, 501, 0);
    let notice = permission_notice(&s, &"Missing Permissions".to_string());
    assert_eq!(notice.as_deref(), Some("Gather could not delete this post because it is missing permissions. Please ask an Administrator to check my permissions."));
    assert!(permission_notice(&s, &"Unknown Channel".to_string()).is_none());
    let told = Session { permission_warning_sent: true, ..s };
    assert!(permission_notice(&told, &"Missing Permissions".to_string()).is_none());
}

#[test]
fn rotation_cycles_through_every_status() {
    let mut i = 0;
    let mut seen = Vec::new();
    for _ in 0..ACTIVITY_COUNT {
        seen.push(activity(i));
        i = next_activity(i);
    }
    assert_eq!(i, 0);
    assert_eq!(seen, vec![
        "observing... | /help", "managing... | /help", "finding... | /help",
        "organising... | /help", "assembling... | /help", "searching... | /help",
        "assisting... | /help"
    ]);
}
