use johnny::bot::{image_links, johnny_image, sqlite_file, Bot, Reactions, DOWNVOTE_ID, JOHNNY_GALLERY_IDS, UPVOTE_ID};
use johnny::clock::Timestamp;
use johnny::commands::{
    add_description, autorole_interaction, autorole_title, autorole_toggle_reply, button_id,
    image_source, ping_ms, ping_title, role_autocomplete, role_by_name, toggle_button,
    AttachmentInfo, ButtonKind, ChannelInfo, EmittedEvent, ImplementedEvents, RoleInfo,
};
use johnny::db::{
    autorole_error, autorole_fetch_error, db_error, db_step, default_model, fetch_all_error,
    guild_autoroles_error, member_error, new_autorole, toggle_autorole, user_error, DbAction,
    DbEvent, DbFailure, DbOp, IdGenerator, AUTOROLE_WORKER, DATACENTER, MEMBER_WORKER, new_member,
};
use johnny::embed::{create_embed, error_embed, from_rgb, generate_guild_embed, AuthorInfo, Colours, MemberInfo};
use johnny::events::{
    autorole_role_ids, guild_count_warning, has_posted, logged_in_message, ready, route_event,
    welcome_failure, EventKind, Route, SUGGESTIONS_ID,
};
use johnny::logger::{LogLevel, Style};
use johnny::message_log;
use johnny::sticky;
use johnny::text::NumberError;

fn author(member: Option<MemberInfo>, avatar: Option<&str>) -> AuthorInfo {
    AuthorInfo {
        name: "newt".to_string(),
        avatar_url: avatar.map(|s| s.to_string()),
        default_avatar_url: "default.png".to_string(),
        member,
    }
}

#[test]
fn db_get_or_create_flow() {
    assert_eq!(db_step(DbOp::Get, true, DbEvent::Start), DbAction::Find);
    assert_eq!(db_step(DbOp::Get, true, DbEvent::Missing), DbAction::Insert);
    assert_eq!(db_step(DbOp::Get, true, DbEvent::Inserted), DbAction::Find);
    assert_eq!(db_step(DbOp::Get, true, DbEvent::Found), DbAction::Finish(true));
    assert_eq!(db_step(DbOp::Get, false, DbEvent::Missing), DbAction::Finish(false));
    assert_eq!(db_step(DbOp::Update, true, DbEvent::Found), DbAction::Update);
    assert_eq!(db_step(DbOp::Update, true, DbEvent::Updated), DbAction::Finish(true));
    assert_eq!(db_step(DbOp::Delete, false, DbEvent::Found), DbAction::Delete);
    assert_eq!(db_step(DbOp::Delete, false, DbEvent::Missing), DbAction::Finish(false));
    assert_eq!(db_step(DbOp::Delete, false, DbEvent::DeleteFailed), DbAction::Fail(DbFailure::Delete));
    assert_eq!(db_step(DbOp::Get, true, DbEvent::FindFailed), DbAction::Fail(DbFailure::Fetch));
    assert_eq!(db_step(DbOp::Get, true, DbEvent::InsertFailed), DbAction::Fail(DbFailure::Insert));
    assert_eq!(db_step(DbOp::Update, true, DbEvent::UpdateFailed), DbAction::Fail(DbFailure::Update));
}

#[test]
fn db_error_messages() {
    assert_eq!(db_error(DbFailure::Fetch, DbOp::Get, "user", "5"), "failed to fetch user swith id 5 from db");
    assert_eq!(db_error(DbFailure::Fetch, DbOp::Delete, "user", "5"), "failed to fetch guild swith id 5 from db");
    assert_eq!(db_error(DbFailure::Insert, DbOp::Get, "guild", "5"), "failed to insert guild with id 5 into db");
    assert_eq!(db_error(DbFailure::Update, DbOp::Update, "guild", "5"), "failed to update guild with id 5 in db");
    assert_eq!(db_error(DbFailure::Delete, DbOp::Delete, "guild", "5"), "failed to delete guild with id 5 from db");
    assert_eq!(fetch_all_error("guild"), "failed to fetch all guilds from db");
    assert_eq!(autorole_fetch_error("3"), "failed to fetch autorole with id 3from db");
    assert_eq!(guild_autoroles_error("4"), "failed to fetch autoroles from guild with id 4 from db");
    assert_eq!(autorole_error(DbFailure::Insert, "3"), "failed to insert autorole with id 3 into db");
    assert_eq!(autorole_error(DbFailure::Delete, "3"), "failed to delete autorole with id 3 from db");
    assert_eq!(autorole_error(DbFailure::Fetch, "3"), "failed to fetch autorole with id 3 from db");
    assert_eq!(member_error(DbFailure::Insert, "1", "2"), "failed to insert member with user id 1, guild id 2 into db");
    assert_eq!(member_error(DbFailure::Fetch, "1", "2"), "failed to fetch member with user id 1, guild id 2 from db");
    assert_eq!(user_error(DbFailure::Delete, "1"), "failed to delete user with id 1 from db");
}

#[test]
fn guild_records() {
    let mut r = default_model("42");
    assert_eq!(r.id, "42");
    assert_eq!(r.autorole, None);
    r.autorole = Some(false);
    toggle_autorole(&mut r);
    assert_eq!(r.autorole, Some(true));
    toggle_autorole(&mut r);
    assert_eq!(r.autorole, Some(false));
}

#[test]
fn autorole_records_carry_snowflake_ids() {
    let mut ids = IdGenerator::new(1_564_790_400_000, AUTOROLE_WORKER, DATACENTER);
    let a = new_autorole(&mut ids, 10, 20);
    assert_eq!(a.guild_id, "10");
    assert_eq!(a.role_id, "20");
    let n: i64 = a.id.parse().unwrap();
    let m = new_member(&mut IdGenerator::new(1_564_790_400_000, MEMBER_WORKER, DATACENTER), 5, 6);
    let k: i64 = m.id.parse().unwrap();
    assert_eq!((k >> 17) & 31, 2);
    assert_eq!((m.user_id.as_str(), m.guild_id.as_str()), ("5", "6"));
    // the worker and datacenter bits of a snowflake
    assert_eq!((n >> 17) & 0x1f, 1);
    assert_eq!((n >> 12) & 0x1f, 1);
    let b = new_autorole(&mut ids, 10, 21);
    assert_ne!(a.id, b.id);
}

#[test]
fn embed_colours_and_authors() {
    assert_eq!(from_rgb(192, 238, 255), 0xC0EEFF);
    assert_eq!(Colours::Success.value(), 0x5FFCC6);
    assert_eq!(Colours::Failure.value(), 0xFFABAB);
    let plain = create_embed(&author(None, None));
    assert_eq!(plain.author_name, "newt");
    assert_eq!(plain.author_icon, "default.png");
    assert_eq!(plain.colour, 0xC0EEFF);
    let m = MemberInfo { display_name: "Newt!".to_string(), avatar_url: None };
    let e = generate_guild_embed(&author(Some(m), Some("user.png")), Colours::Success, Some("icon.png"));
    assert_eq!(e.author_name, "Newt!");
    assert_eq!(e.author_icon, "user.png");
    assert_eq!(e.thumbnail, Some("icon.png".to_string()));
    let m2 = MemberInfo { display_name: "Newt!".to_string(), avatar_url: Some("guild.png".to_string()) };
    assert_eq!(create_embed(&author(Some(m2), Some("user.png"))).author_icon, "guild.png");
    let err = error_embed(&author(None, None), None, "boom");
    assert_eq!(err.title, Some("Error!".to_string()));
    assert_eq!(err.description, Some("boom".to_string()));
    assert_eq!(err.colour, 0xFFABAB);
}

#[test]
fn ping_texts() {
    assert_eq!(ping_ms(1500, 1000), 500);
    assert_eq!(ping_title(500), "meow! (500 ms)");
    assert_eq!(ping_title(-3), "meow! (-3 ms)");
}

#[test]
fn autorole_settings_message() {
    assert_eq!(button_id(12), "autorole-12");
    let off = toggle_button(12, false);
    assert_eq!(off.label, "Enable autorole");
    assert_eq!(off.emoji, "✅");
    assert_eq!(off.kind, ButtonKind::Success);
    let on = toggle_button(12, true);
    assert_eq!(on.label, "Disable autorole");
    assert_eq!(on.emoji, "❌");
    assert_eq!(on.kind, ButtonKind::Danger);
    assert_eq!(autorole_title("newt's server"), "newt's server - autorole");
    let s = autorole_interaction(false, 12, "autorole-12");
    assert!(s.enabled);
    let b = s.response.unwrap();
    assert_eq!(b.kind, ButtonKind::Danger);
    assert_eq!(b.label, "Disable autorole");
    assert_eq!(b.emoji, "❌");
    assert_eq!(b.custom_id, "autorole-12");
    let back = autorole_interaction(true, 12, "autorole-12");
    assert!(!back.enabled);
    assert_eq!(back.response.unwrap().label, "Enable autorole");
    assert_eq!(back.log, "that is false");
    assert_eq!(s.log, "that is true");
    let t = autorole_interaction(true, 12, "something-else");
    assert!(t.enabled);
    assert!(t.response.is_none());
    assert_eq!(t.log, "that is true");
}

#[test]
fn toggle_replies() {
    let r = autorole_toggle_reply(true);
    assert_eq!(r.title, "Enabled!");
    assert_eq!(r.description, "Autorole has been enabled!");
    assert_eq!(r.colour, Colours::Success);
    let r = autorole_toggle_reply(false);
    assert_eq!(r.title, "Disabled!");
    assert_eq!(r.description, "Autorole has been disabled!");
    assert_eq!(r.colour, Colours::Failure);
    let t = sticky::toggle(false);
    assert!(t.sticky && !t.clear_records);
    assert_eq!(t.reply.description, "Sticky roles have been enabled!");
    let t = sticky::toggle(true);
    assert!(!t.sticky && t.clear_records);
    assert_eq!(t.reply.description, "Sticky roles have been disabled!");
}

#[test]
fn role_choices() {
    let roles = vec![
        RoleInfo { id: 1, guild_id: 1, name: "@everyone".to_string(), managed: false },
        RoleInfo { id: 2, guild_id: 1, name: "admin".to_string(), managed: false },
        RoleInfo { id: 3, guild_id: 1, name: "adbot".to_string(), managed: true },
        RoleInfo { id: 4, guild_id: 1, name: "member".to_string(), managed: false },
        RoleInfo { id: 5, guild_id: 1, name: "admin".to_string(), managed: false },
    ];
    assert_eq!(role_autocomplete(&roles, "ad"), vec!["admin".to_string(), "admin".to_string()]);
    assert_eq!(role_autocomplete(&roles, ""), vec!["admin", "member", "admin"]);
    assert_eq!(role_by_name(&roles, "admin"), Some(1));
    assert_eq!(role_by_name(&roles, "mod"), None);
    assert_eq!(add_description(2), "The role <@&2> has been added as an autorole!");
}

#[test]
fn emitted_events() {
    assert_eq!(ImplementedEvents::ThreadCreate.name(), "Thread Create");
    assert_eq!(ImplementedEvents::GuildMemberAddition.name(), "Member Join");
    let threads = ImplementedEvents::thread_candidates(&vec![
        ChannelInfo { id: 1, is_thread: false },
        ChannelInfo { id: 2, is_thread: true },
        ChannelInfo { id: 3, is_thread: true },
    ]);
    assert_eq!(threads, vec![2, 3]);
    let members = ImplementedEvents::member_candidates(&vec![10, 11, 12], &vec![100, 101]);
    assert_eq!(members, vec![(100, 10), (101, 11)]);
    match ImplementedEvents::ThreadCreate.to_event(&threads, &members) {
        EmittedEvent::ThreadCreate { thread } => assert!(thread == 2 || thread == 3),
        other => panic!("unexpected {:?}", other),
    }
    match ImplementedEvents::GuildMemberAddition.to_event(&threads, &members) {
        EmittedEvent::GuildMemberAddition { guild, user } => assert!(members.contains(&(guild, user))),
        other => panic!("unexpected {:?}", other),
    }
}

#[test]
fn pride_image_source() {
    let img = AttachmentInfo { url: "a.png".to_string(), is_image: true };
    let doc = AttachmentInfo { url: "a.txt".to_string(), is_image: false };
    assert_eq!(image_source(Some(&img), "me.png"), "a.png");
    assert_eq!(image_source(Some(&doc), "me.png"), "me.png");
    assert_eq!(image_source(None, "me.png"), "me.png");
}

#[test]
fn events_are_routed() {
    assert_eq!(route_event(EventKind::Ready), Route::Ready);
    assert_eq!(route_event(EventKind::ThreadCreate { parent: Some(SUGGESTIONS_ID) }), Route::Suggestion);
    assert_eq!(route_event(EventKind::ThreadCreate { parent: Some(1) }), Route::Nothing);
    assert_eq!(route_event(EventKind::ThreadCreate { parent: None }), Route::Nothing);
    assert_eq!(route_event(EventKind::GuildMemberAddition), Route::ApplyRole);
    assert_eq!(route_event(EventKind::GuildRoleDelete), Route::RoleDelete);
    assert_eq!(route_event(EventKind::Other), Route::Nothing);
}

#[test]
fn ready_lines() {
    let lines = ready(&vec!["tui".to_string(), "sqlite".to_string()], "johnny", Some(101));
    assert_eq!(lines.len(), 3);
    assert_eq!(lines[0].level, LogLevel::Info);
    assert_eq!(lines[0].components[0].text, "Enabled features: ");
    assert_eq!(lines[0].components[0].style, Style::bold());
    assert_eq!(lines[0].components[1].text, "tui, sqlite");
    assert_eq!(lines[1].components[1].text, "johnny");
    assert_eq!(lines[1].components[1].style, Style::bold());
    assert_eq!(lines[2].level, LogLevel::Warn);
    let quiet = ready(&vec![], "johnny", Some(100));
    assert_eq!(quiet.len(), 1);
    assert_eq!(quiet[0].components[0].text, "Logged in as ");
    assert_eq!(logged_in_message("johnny"), "Logged in as \u{1b}[1mjohnny\u{1b}[0m");
    assert_eq!(
        guild_count_warning(150),
        "Your server is in 150 guilds. Consider migrating from sqlite to either postgres or mysql."
    );
}

#[test]
fn member_join_helpers() {
    assert_eq!(autorole_role_ids(true, &vec!["5".to_string(), "6".to_string()]), vec![5, 6]);
    assert!(autorole_role_ids(false, &vec!["5".to_string()]).is_empty());
    assert!(has_posted(&vec![1, 2, 3], 2));
    assert!(!has_posted(&vec![1, 3], 2));
    assert_eq!(welcome_failure("newt#0001"), "Failed to send welcome message to newt#0001");
}

#[test]
fn sticky_rows_have_their_own_ids() {
    let ids = vec!["77".to_string(), "78".to_string()];
    let rows = sticky::save_roles(true, &ids, 1, 2, &vec![10, 11]);
    let mut gen = IdGenerator::new(1_564_790_400_000, 3, DATACENTER);
    assert_eq!(sticky::fresh_ids(&mut gen, 0), Some(vec![]));
    assert_eq!(
        sticky::distinct_ids(vec!["1".to_string(), "2".to_string()]),
        Some(vec!["1".to_string(), "2".to_string()])
    );
    assert_eq!(sticky::distinct_ids(vec!["1".to_string(), "2".to_string(), "1".to_string()]), None);
    assert_eq!(sticky::distinct_ids(vec![]), Some(vec![]));
    let fresh = sticky::fresh_ids(&mut gen, 5).unwrap();
    assert_eq!(fresh.len(), 5);
    for (i, a) in fresh.iter().enumerate() {
        let n: i64 = a.parse().unwrap();
        assert_eq!((n >> 17) & 31, 3);
        assert_eq!((n >> 12) & 31, 1);
        for b in &fresh[i + 1..] {
            assert_ne!(a, b);
        }
    }
    assert_eq!(rows.len(), 2);
    assert!(rows.iter().all(|r| r.guild_id == "1" && r.user_id == "2"));
    assert_eq!(rows[0].id, "77");
    assert_eq!(rows[1].id, "78");
    assert_eq!(rows[1].role_id, "11");
    assert!(sticky::save_roles(false, &vec!["77".to_string()], 1, 2, &vec![10]).is_empty());
    assert_eq!(sticky::add_roles(&vec!["1".to_string(), "2".to_string()]), Ok(vec![1, 2]));
    assert_eq!(sticky::add_roles(&vec!["1".to_string(), "x".to_string(), "".to_string()]), Err(NumberError::InvalidDigit));
}

#[test]
fn bot_shared_values() {
    let r = Reactions::default();
    assert_eq!(r.upvote.id, UPVOTE_ID);
    assert_eq!(r.upvote.name, "upvote");
    assert!(!r.upvote.animated);
    assert_eq!(r.downvote.id, DOWNVOTE_ID);
    assert_eq!(r.downvote.name, "downvote");
    assert_eq!(JOHNNY_GALLERY_IDS, ["oPluI3u", "Ca2YQ2O"]);
    let images = vec!["a.png".to_string(), "b.jpg".to_string()];
    let pick = johnny_image(&images);
    assert!(images.contains(&pick));
    let links = vec!["a.png".to_string(), "b.gif".to_string(), "c.jpg".to_string(), "d.jpeg".to_string()];
    assert_eq!(image_links(&links), vec!["a.png".to_string(), "c.jpg".to_string()]);
    assert_eq!(sqlite_file("sqlite://johnny.db"), Some("johnny.db".to_string()));
    assert_eq!(sqlite_file("sqlite::memory:"), Some("sqlite::memory:".to_string()));
    assert_eq!(sqlite_file("sqlite://:memory:"), None);
}

#[test]
fn bot_channel_carries_entries() {
    assert!(johnny::paint::colour_decision(Some(true)));
    assert!(!johnny::paint::colour_decision(Some(false)));
    assert!(!johnny::paint::colour_decision(None));
    let (bot, mut receivers) = Bot::new();
    assert_eq!(bot.senders.log.max_capacity(), 32);
    assert_eq!(receivers.log.len(), 0);
    let e = message_log::Logger::entry_at(
        message_log::LogLevel::Info,
        "hello",
        None,
        Timestamp::new(0, 0, 0).unwrap(),
        false,
    );
    bot.senders.log.try_send(e).unwrap();
    let got = receivers.log.try_recv().unwrap();
    assert_eq!(got.message, "hello");
    for _ in 0..32 {
        let x = message_log::Logger::entry_at(message_log::LogLevel::Info, "x", None, Timestamp::new(0, 0, 0).unwrap(), false);
        bot.senders.log.try_send(x).unwrap();
    }
    let extra = message_log::Logger::entry_at(message_log::LogLevel::Info, "x", None, Timestamp::new(0, 0, 0).unwrap(), false);
    assert!(bot.senders.log.try_send(extra).is_err());
}
