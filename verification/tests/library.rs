use dabbot::bridges::discord::{
    voice_server_guild, voice_server_record, voice_update,
    after_joining, after_leaving, needs_previous_state, parse_message, voice_check, Invocation,
    PlayerAction, VoiceCheck,
};
use dabbot::commands::play::{base, handle_playlist, handle_search, search_term, PlayPlan, PlaylistPlan, Provider, SearchPlan};
use dabbot::commands::discordfm::{DfmCommand, DfmPlan};
use dabbot::commands::dump;
use dabbot::commands::load::LoadCommand;
use dabbot::commands::join::{Join, JoinCommand};
use dabbot::commands::queue::{QueueCommand, QueuePlan};
use dabbot::commands::seek::SeekCommand;
use dabbot::commands::volume::{VolumeCommand, VolumePlan};
use dabbot::commands::{route, CommandId, Context, Response};
use dabbot::discord_fm::{DiscordFm, PlaylistItem};
use dabbot::error::{Error, QueueError};
use dabbot::gateway::{choices_key, join_key, sharder_key, voice_state_payload};
use dabbot::json::{tracks_from_json, tracks_to_json};
use dabbot::lavalink::PlayerState;
use dabbot::lavalink_msgs::{channel_id, now_playing_message};
use dabbot::model::{DecodedTrack, Load, LoadType, PlaylistInfo, QueuedItem, Track, TrackInfo};
use dabbot::radios::RadioList;
use dabbot::sort::sort_strings;
use dabbot::table::Table;
use dabbot::utils::millis_readable;
use dabbot::worker::{decode_frame, popped_value, split_shard_frame};

fn context(guild_id: Option<u64>, args: &[&str], prefix: Option<&str>) -> Context {
    Context {
        alias: "play".to_owned(),
        args: args.iter().map(|s| s.to_string()).collect(),
        shard_id: 0,
        guild_id,
        channel_id: 10,
        author_id: 20,
        prefix: prefix.map(|p| p.to_owned()),
    }
}

fn track(blob: &str, title: &str, author: &str, length: i64) -> Track {
    Track {
        track: blob.to_owned(),
        info: TrackInfo {
            author: author.to_owned(),
            identifier: "id".to_owned(),
            length,
            title: title.to_owned(),
            uri: "https://example.com".to_owned(),
        },
    }
}

fn text_of(r: Result<Response, Error>) -> String {
    match r {
        Ok(Response::Text(t)) => t,
        Err(e) => panic!("expected a text reply, got {:?}", e),
    }
}

#[test]
fn test_command_table_finds_each_name() {
    let table = dabbot::commands::map();
    assert_eq!(table.len(), 62);
    assert_eq!(table.get("np"), Some(&CommandId::Playing));
    assert_eq!(table.get("info"), Some(&CommandId::About));
    assert_eq!(table.get("c"), Some(&CommandId::Choose));
    assert_eq!(table.get("jump"), Some(&CommandId::Seek));
    assert_eq!(table.get("j"), Some(&CommandId::Join));
    assert_eq!(table.get("yt"), Some(&CommandId::YouTube));
    assert_eq!(table.get("NP"), None);
    assert_eq!(table.get("nope"), None);
}

#[test]
fn test_route_matches_table() {
    let table = dabbot::commands::map();
    for alias in ["about", "dfm", "discord.fm", "j", "stop", "hold", "p", "current", "que", "unpause", "next", "sc", "v", "yt"] {
        let routed = route(alias).unwrap();
        assert_eq!(table.get(alias), Some(&routed));
    }
    assert_eq!(route("info"), None);
    assert_eq!(route("search"), None);
    assert_eq!(route("PLAY"), None);
}

#[test]
fn test_parse_message_runs_command() {
    let prefixes = vec!["!!!".to_owned(), "dab ".to_owned()];
    match parse_message(false, Some(1), "!!!PLAY  hello\tworld\n", &prefixes) {
        Invocation::Run { command, alias, args } => {
            assert_eq!(command, CommandId::Play);
            assert_eq!(alias, "play");
            assert_eq!(args, vec!["hello".to_owned(), "world".to_owned()]);
        },
        _ => panic!("expected a command"),
    }
    match parse_message(false, Some(1), "dab np", &prefixes) {
        Invocation::Run { command, args, .. } => {
            assert_eq!(command, CommandId::Playing);
            assert!(args.is_empty());
        },
        _ => panic!("expected a command"),
    }
}

#[test]
fn test_parse_message_ignores_and_fails() {
    let prefixes = vec!["!!!".to_owned()];
    assert!(matches!(parse_message(true, Some(1), "!!!play x", &prefixes), Invocation::Ignore));
    assert!(matches!(parse_message(false, None, "!!!play x", &prefixes), Invocation::Fail(Error::Missing)));
    assert!(matches!(parse_message(false, Some(1), "play x", &prefixes), Invocation::Ignore));
    assert!(matches!(parse_message(false, Some(1), "!!!   ", &prefixes), Invocation::Fail(Error::Missing)));
    assert!(matches!(parse_message(false, Some(1), "!!!info", &prefixes), Invocation::Ignore));
}

#[test]
fn test_parse_message_skips_prefix_bytes() {
    // The prefix is two characters but three bytes: three characters are skipped.
    let prefixes = vec!["é!".to_owned()];
    match parse_message(false, Some(1), "é!!skip", &prefixes) {
        Invocation::Run { command, .. } => assert_eq!(command, CommandId::Skip),
        _ => panic!("expected a command"),
    }
}

#[test]
fn test_voice_state_decisions() {
    assert!(!needs_previous_state(7, 7));
    assert!(needs_previous_state(8, 7));
    assert!(matches!(voice_check(Some(5), Some(6)), VoiceCheck::CheckLeft { channel_id: 5 }));
    assert!(matches!(voice_check(None, Some(6)), VoiceCheck::CheckJoined { channel_id: 6 }));
    assert!(matches!(voice_check(None, None), VoiceCheck::UpdateOnly));
    assert_eq!(after_leaving(&vec![7], 7), PlayerAction::Pause);
    assert_eq!(after_leaving(&vec![7, 8], 7), PlayerAction::Nothing);
    assert_eq!(after_leaving(&vec![8], 7), PlayerAction::Nothing);
    assert_eq!(after_joining(&vec![7, 8]), PlayerAction::Resume);
    assert_eq!(after_joining(&vec![7, 8, 9]), PlayerAction::Nothing);
}

#[test]
fn test_radio_lookup_ignores_case() {
    let list = RadioList::from_stations(vec![
        ("Listen.moe".to_owned(), "https://listen.moe/stream".to_owned()),
        ("Chillhop".to_owned(), "https://chillhop.example".to_owned()),
    ]);
    let station = list.get("LISTEN.MOE").unwrap();
    assert_eq!(station.name, "Listen.moe");
    assert_eq!(station.url, "https://listen.moe/stream");
    assert_eq!(list.get("chillhop").unwrap().url, "https://chillhop.example");
    assert!(list.get("jazz").is_none());
    assert!(list.messages.is_empty());
}

#[test]
fn test_radio_later_station_replaces_earlier() {
    let list = RadioList::from_stations(vec![
        ("Jazz".to_owned(), "one".to_owned()),
        ("JAZZ".to_owned(), "two".to_owned()),
    ]);
    assert_eq!(list.stations.len(), 1);
    let station = list.get("jazz").unwrap();
    assert_eq!(station.name, "JAZZ");
    assert_eq!(station.url, "two");
}

#[test]
fn test_discord_fm_library_names() {
    assert_eq!(DiscordFm::<u32>::library_name("chill_hop.json"), Some("chill hop".to_owned()));
    assert_eq!(DiscordFm::<u32>::library_name("a.b.json"), Some("a.b".to_owned()));
    assert_eq!(DiscordFm::<u32>::library_name("no_extension"), None);
    let items = DiscordFm::<u32>::pair_items(vec![1, 2, 3], vec!["x".to_owned(), "y".to_owned()]);
    assert_eq!(items.len(), 2);
    assert_eq!(items[1].info, 2);
    assert_eq!(items[1].track, "y");
}

#[test]
fn test_discord_fm_catalogue() {
    let item = |n: u32| PlaylistItem { info: n, track: format!("t{}", n) };
    let dfm = DiscordFm::from_libraries(vec![
        ("Zeta".to_owned(), vec![item(1)]),
        ("alpha".to_owned(), vec![item(2), item(3)]),
        ("Beta".to_owned(), vec![]),
    ]);
    assert_eq!(dfm.list, "Beta, Zeta, alpha");
    let zeta = dfm.get("zeta").unwrap();
    assert_eq!(zeta.name, "Zeta");
    assert_eq!(zeta.items.len(), 1);
    assert!(dfm.get("Zeta").is_none());
    assert_eq!(dfm.get("alpha").unwrap().items[1].track, "t3");
}

#[test]
fn test_sort_strings_by_characters() {
    let sorted = sort_strings(vec!["b".to_owned(), "a".to_owned(), "B".to_owned(), "ab".to_owned()]);
    assert_eq!(sorted, vec!["B".to_owned(), "a".to_owned(), "ab".to_owned(), "b".to_owned()]);
}

#[test]
fn test_table_replaces_in_place() {
    let mut t: Table<u32> = Table::new();
    t.insert("a".to_owned(), 1);
    t.insert("b".to_owned(), 2);
    t.insert("a".to_owned(), 3);
    assert_eq!(t.len(), 2);
    assert_eq!(t.get("a"), Some(&3));
    assert_eq!(*t.value_at(0), 3);
    assert_eq!(*t.value_at(1), 2);
    assert_eq!(t.get("c"), None);
}

#[test]
fn test_shard_frames() {
    let (payload, shard) = split_shard_frame(vec![b'{', b'}', 3, 1]);
    assert_eq!(payload, vec![b'{', b'}']);
    assert_eq!(shard, 259);
    let (payload, shard) = split_shard_frame(vec![0, 0]);
    assert!(payload.is_empty());
    assert_eq!(shard, 0);
    assert_eq!(popped_value(vec!["key", "value"]), Ok("value"));
    assert_eq!(popped_value(vec!["key"]), Err(Error::Missing));
}

#[test]
fn test_stored_channel_id() {
    assert_eq!(channel_id("12345"), Ok(12345));
    assert_eq!(channel_id("+7"), Ok(7));
    assert_eq!(channel_id("18446744073709551615"), Ok(u64::MAX));
    assert!(matches!(channel_id("18446744073709551616"), Err(Error::ParseInt(_))));
    assert!(matches!(channel_id("abc"), Err(Error::ParseInt(_))));
    assert!(matches!(channel_id(""), Err(Error::ParseInt(_))));
}

#[test]
fn test_now_playing_message() {
    assert_eq!(
        now_playing_message("she - Prismatic", "xKito Music", 184_000),
        "Now playing **she - Prismatic** by **xKito Music** `[3m 4s]`",
    );
}

#[test]
fn test_track_dump_json() {
    let bytes = tracks_to_json(&vec!["a".to_owned(), "b".to_owned()]).unwrap();
    assert_eq!(String::from_utf8(bytes.clone()).unwrap(), "[\n  \"a\",\n  \"b\"\n]");
    assert_eq!(tracks_from_json(&bytes).unwrap(), vec!["a".to_owned(), "b".to_owned()]);
    assert_eq!(tracks_from_json(b"[]").unwrap(), Vec::<String>::new());
    assert!(matches!(tracks_from_json(b"not json"), Err(Error::SerdeJson(_))));
    assert!(matches!(tracks_from_json(b"[1, 2]"), Err(Error::SerdeJson(_))));
}

#[test]
fn test_gateway_payloads_and_keys() {
    assert_eq!(
        String::from_utf8(voice_state_payload(1, Some(2))).unwrap(),
        "{\"d\":{\"channel_id\":2,\"guild_id\":1,\"self_deaf\":true,\"self_mute\":false},\"op\":4}",
    );
    assert_eq!(
        String::from_utf8(voice_state_payload(381880193251409931, None)).unwrap(),
        "{\"d\":{\"channel_id\":null,\"guild_id\":381880193251409931,\"self_deaf\":true,\"self_mute\":false},\"op\":4}",
    );
    assert_eq!(sharder_key(3), "sharder:to:3");
    assert_eq!(choices_key(5), "c:5");
    assert_eq!(join_key(0), "j:0");
}

#[test]
fn test_error_descriptions() {
    assert_eq!(Error::Missing.description(), "Option value not present");
    assert_eq!(Error::Redis("down".to_owned()).description(), "down");
    let nf = Error::LavalinkQueueRequester(QueueError::NotFound("gone".to_owned()));
    assert_eq!(nf.description(), "gone");
    assert!(nf.is_queue_not_found());
    assert!(!Error::LavalinkQueueRequester(QueueError::Other("x".to_owned())).is_queue_not_found());
}

#[test]
fn test_millis_readable() {
    assert_eq!(millis_readable(1_500), "1s 500ms");
    assert_eq!(millis_readable(0), "0s");
}

#[test]
fn test_queue_page_edges() {
    assert_eq!(QueueCommand::calculate_page(Some("-1")), 0);
    assert_eq!(QueueCommand::calculate_page(Some("abc")), 0);
    assert_eq!(QueueCommand::calculate_page(Some("4294967296")), 0);
    assert_eq!(QueueCommand::calculate_page(Some("4294967295")), 4_294_967_294);
    assert_eq!(QueueCommand::calculate_page(Some("+3")), 2);
}

#[test]
fn test_queue_message_cap() {
    let short = "a".repeat(2000);
    assert_eq!(QueueCommand::cap_message(short.clone()), short);
    let long = "a".repeat(2001);
    let capped = QueueCommand::cap_message(long);
    assert_eq!(capped, format!("{}...", "a".repeat(1997)));
}

#[test]
fn test_argument_time_edges() {
    assert_eq!(SeekCommand::argument_time("60"), None);
    assert_eq!(SeekCommand::argument_time("+5"), Some(5_000));
    assert_eq!(SeekCommand::argument_time("1:2:3:4"), None);
    assert_eq!(SeekCommand::argument_time(""), None);
    assert_eq!(SeekCommand::argument_time("1::2"), None);
    assert_eq!(SeekCommand::argument_time("59:59:59"), Some(215_999_000));
    assert_eq!(SeekCommand::argument_time("0:00"), Some(0));
}

#[test]
fn test_volume_plans() {
    assert!(text_of(VolumeCommand::run()).starts_with("**The volume command is dabBot premium only!**"));
    assert!(matches!(VolumeCommand::patron_plan(&context(Some(4), &[], None)), VolumePlan::Show(4)));
    assert!(matches!(
        VolumeCommand::patron_plan(&context(Some(4), &["150"], None)),
        VolumePlan::SetVolume { guild_id: 4, volume: 150 },
    ));
    match VolumeCommand::patron_plan(&context(Some(4), &["151"], None)) {
        VolumePlan::Reply(r) => assert_eq!(text_of(r), "The volume must be between 0 and 150"),
        _ => panic!("expected a reply"),
    }
    match VolumeCommand::patron_plan(&context(Some(4), &["1", "2"], None)) {
        VolumePlan::Reply(r) => assert_eq!(text_of(r), "⚠ You supplied too many arguments!"),
        _ => panic!("expected a reply"),
    }
    assert!(matches!(
        VolumeCommand::patron_plan(&context(None, &[], None)),
        VolumePlan::Reply(Err(Error::Missing)),
    ));
}

#[test]
fn test_play_search_terms() {
    assert_eq!(Provider::YouTube.to_string(), "ytsearch:");
    assert_eq!(Provider::URL.to_string(), "");
    assert_eq!(search_term(Provider::SoundCloud, "lofi"), "scsearch:lofi");
    match base(&context(Some(1), &["lofi", "beats"], None), Provider::YouTube) {
        PlayPlan::Search { query, provider, term } => {
            assert_eq!(query, "lofi beats");
            assert_eq!(provider, Provider::YouTube);
            assert_eq!(term, "ytsearch:lofi beats");
        },
        _ => panic!("expected a search"),
    }
    match base(&context(Some(1), &["https://youtu.be/x"], None), Provider::SoundCloud) {
        PlayPlan::Search { provider, term, .. } => {
            assert_eq!(provider, Provider::URL);
            assert_eq!(term, "https://youtu.be/x");
        },
        _ => panic!("expected a search"),
    }
    match base(&context(Some(1), &[], None), Provider::YouTube) {
        PlayPlan::Reply(r) => assert_eq!(
            text_of(r),
            "⚠ You need to say the link to the song or the name of what you want to play",
        ),
        _ => panic!("expected a reply"),
    }
}

#[test]
fn test_search_results_offer() {
    let load = Load {
        load_type: LoadType::SearchResult,
        playlist_info: PlaylistInfo { name: None },
        tracks: vec![
            track("blob1", "1 * 2", "a_b", 62_043),
            track("blob2", "song", "`x`", 1_000),
        ],
    };
    match handle_search(&context(Some(9), &["q"], Some("!!!")), &load) {
        SearchPlan::Offer { guild_id, blobs, reply } => {
            assert_eq!(guild_id, 9);
            assert_eq!(blobs, vec!["blob2".to_owned(), "blob1".to_owned()]);
            assert_eq!(
                text_of(reply),
                "`1` 1 \\* 2 by a\\_b `[1m 2s]`\n`2` song by \\`x\\` `[1s]`\n\n**To choose**, use `!!!choose <number>`\nExample: `!!!choose 2` would pick the second option.\n**To cancel**, use `!!!cancel`.",
            );
        },
        _ => panic!("expected an offer"),
    }
    let single = Load {
        load_type: LoadType::TrackLoaded,
        playlist_info: PlaylistInfo { name: None },
        tracks: vec![track("only", "t", "a", 1)],
    };
    assert!(matches!(handle_search(&context(Some(9), &[], Some("!!!")), &single), SearchPlan::Select(b) if b == "only"));
    let none = Load { load_type: LoadType::NoMatches, playlist_info: PlaylistInfo { name: None }, tracks: vec![] };
    match handle_search(&context(Some(9), &[], Some("!!!")), &none) {
        SearchPlan::Reply(r) => assert_eq!(text_of(r), "It looks like there aren't any results for that!"),
        _ => panic!("expected a reply"),
    }
}

#[test]
fn test_playlist_load() {
    let load = Load {
        load_type: LoadType::PlaylistLoaded,
        playlist_info: PlaylistInfo { name: Some("Mix".to_owned()) },
        tracks: vec![track("b1", "t1", "a", 1), track("b2", "t2", "a", 1)],
    };
    match handle_playlist(&context(Some(3), &[], None), &load) {
        PlaylistPlan::Add { guild_id, tracks, content } => {
            assert_eq!(guild_id, 3);
            assert_eq!(tracks, vec!["b1".to_owned(), "b2".to_owned()]);
            assert_eq!(content, "Loaded 2 songs from the playlist **Mix**!");
        },
        _ => panic!("expected songs to add"),
    }
}

fn queued(track: &str) -> QueuedItem {
    QueuedItem {
        song_id: 1,
        song_author: "author".to_owned(),
        song_identifier: "id".to_owned(),
        song_length: 1_000,
        song_source: "youtube".to_owned(),
        song_stream: false,
        song_title: "title".to_owned(),
        song_track: track.to_owned(),
        song_url: None,
    }
}

#[test]
fn test_dump_reads_back_with_load() {
    let queue = vec![queued("QAAA\"one\""), queued("two\\back"), queued("thr\u{e9}e\n")];
    let body = dump::body(&queue).unwrap();
    let tracks = LoadCommand::tracks(&body).unwrap();
    assert_eq!(tracks, vec!["QAAA\"one\"".to_owned(), "two\\back".to_owned(), "thr\u{e9}e\n".to_owned()]);
    assert_eq!(LoadCommand::tracks(&dump::body(&Vec::new()).unwrap()).unwrap(), Vec::<String>::new());
}

#[test]
fn test_capped_reply_fits_a_message() {
    // One ASCII byte, then two-byte characters: the cut falls at 1997
    // bytes, after 998 of them.
    let text = format!("a{}", "\u{e9}".repeat(1500));
    let capped = QueueCommand::cap_message(text);
    assert_eq!(capped.len(), 2000);
    assert_eq!(capped, format!("a{}...", "\u{e9}".repeat(998)));
}

#[test]
fn test_dfm_command_finds_library_by_any_case() {
    let item = |n: u32| PlaylistItem { info: n, track: format!("t{}", n) };
    let dfm = DiscordFm::from_libraries(vec![("Chill Hop".to_owned(), vec![item(1), item(2)])]);
    match DfmCommand::plan(&context(Some(2), &["CHILL", "hop"], Some("!!!")), &dfm) {
        DfmPlan::Add { guild_id, name, tracks } => {
            assert_eq!(guild_id, 2);
            assert_eq!(name, "Chill Hop");
            assert_eq!(tracks, vec!["t1".to_owned(), "t2".to_owned()]);
        },
        _ => panic!("expected the library"),
    }
    match DfmCommand::plan(&context(Some(2), &[], Some("!!!")), &dfm) {
        DfmPlan::Reply(r) => assert!(text_of(r).ends_with("**Available libraries:**\nChill Hop")),
        _ => panic!("expected the usage"),
    }
}

#[test]
fn test_player_state_from_decoded() {
    let track = DecodedTrack {
        author: "xKito Music".to_owned(),
        identifier: "zcn4-taGvlg".to_owned(),
        length: 184_000,
        source: "youtube".to_owned(),
        stream: false,
        title: "she - Prismatic".to_owned(),
        url: None,
    };
    let state = PlayerState::from_decoded(1, true, 62_500, 5, Some(Ok(track)), 100).unwrap();
    assert!(state.is_playing());
    assert_eq!(state.to_string(), "(paused)she - Prismatic by xKito Music (`1m 2s 500ms/3m 4s`) (no url)");
    let idle = PlayerState::from_decoded(1, false, 0, 5, None, 100).unwrap();
    assert!(!idle.is_playing());
    assert_eq!(idle.to_string(), "nothing playing ");
    assert!(matches!(
        PlayerState::from_decoded(1, false, 0, 5, Some(Err(Error::Lavalink("bad".to_owned()))), 100),
        Err(Error::Lavalink(_)),
    ));
}

#[test]
fn test_parse_message_unicode_whitespace() {
    let prefixes = vec!["!!!".to_owned()];
    // An ideographic space separates words; a zero-width space does not.
    match parse_message(false, Some(1), "!!!play\u{3000}a\u{200B}b\u{85}c", &prefixes) {
        Invocation::Run { command, args, .. } => {
            assert_eq!(command, CommandId::Play);
            assert_eq!(args, vec!["a\u{200B}b".to_owned(), "c".to_owned()]);
        },
        _ => panic!("expected a command"),
    }
}

#[test]
fn test_cap_boundary_check() {
    assert!(QueueCommand::can_cap_message(&"a".repeat(2001)));
    assert!(QueueCommand::can_cap_message(&"\u{e9}".repeat(1000)));
    // 2002 bytes of two-byte characters: byte 1997 falls inside one.
    assert!(!QueueCommand::can_cap_message(&"\u{e9}".repeat(1001)));
}

#[test]
fn test_queue_page_replies() {
    let reply = QueueCommand::try_compose(0, 0, vec![], Err(Error::Missing)).unwrap();
    assert_eq!(
        text_of(reply),
        "There was an error getting the current song.\n\n__Queue__:\nThere are no songs in the queue.",
    );
    let reply = QueueCommand::try_compose(2, 20, vec![], Err(Error::Missing)).unwrap();
    assert!(text_of(reply).ends_with("There are no songs on this page of the queue."));
    let mut item = queued("blob");
    item.song_title = "\u{e9}".repeat(1200);
    assert!(QueueCommand::try_compose(0, 0, vec![item], Err(Error::Missing)).is_none());
    let reply = QueueCommand::compose(0, 9, vec![queued("blob")], Err(Error::Missing));
    assert!(text_of(reply).ends_with("`10` **title** by **author** `[1s]`\n"));
}

#[test]
fn test_playlist_items_from_blob_json() {
    let items = DiscordFm::items_from_blob_json(vec![1u32, 2, 3], b"[\"a\", \"b\"]").unwrap();
    assert_eq!(items.len(), 2);
    assert_eq!(items[0].info, 1);
    assert_eq!(items[0].track, "a");
    assert_eq!(items[1].track, "b");
    let items = DiscordFm::items_from_blob_json(vec![1u32], b"[\"a\", \"b\"]").unwrap();
    assert_eq!(items.len(), 1);
    assert!(matches!(DiscordFm::items_from_blob_json(vec![1u32], b"{}"), Err(Error::SerdeJson(_))));
}

#[test]
fn test_join_ctx_connected() {
    assert_eq!(JoinCommand::join_ctx_connected(Ok(())), Ok(Join::Successful));
    assert_eq!(
        JoinCommand::join_ctx_connected(Err(Error::Redis("down".to_owned()))),
        Err(Error::Redis("down".to_owned())),
    );
}

#[test]
fn test_queue_plan_fetches_ten() {
    match QueueCommand::plan(&context(Some(1), &["3"], None)) {
        QueuePlan::Fetch { page, start, limit } => {
            assert_eq!(page, 2);
            assert_eq!(start, 20);
            assert_eq!(limit, 10);
        },
        _ => panic!("expected a fetch"),
    }
    assert!(matches!(QueueCommand::plan(&context(None, &[], None)), QueuePlan::Reply(Err(Error::Missing))));
}

#[test]
fn test_decode_frames() {
    let mut frame = br#"{"op":10,"d":{"heartbeat_interval":41250},"s":null,"t":null}"#.to_vec();
    frame.extend_from_slice(&[7, 0]);
    let (message, shard) = decode_frame(frame).unwrap();
    assert!(message.is_none());
    assert_eq!(shard, 7);
    let mut bad = b"not json".to_vec();
    bad.extend_from_slice(&[0, 1]);
    assert!(matches!(decode_frame(bad), Err(Error::SerdeJson(_))));
}

#[test]
fn test_decode_message_frame() {
    let payload = r#"{"op":0,"s":3,"t":"MESSAGE_CREATE","d":{"id":"3","channel_id":"20","guild_id":"10","author":{"id":"30","username":"u","discriminator":"0001","avatar":null,"bot":false},"content":"!!!np","timestamp":"2020-01-01T00:00:00+00:00","edited_timestamp":null,"tts":false,"mention_everyone":false,"mentions":[],"mention_roles":[],"attachments":[],"embeds":[],"pinned":false,"type":0}}"#;
    let mut frame = payload.as_bytes().to_vec();
    frame.extend_from_slice(&[1, 1]);
    let (message, shard) = decode_frame(frame).unwrap();
    let message = message.unwrap();
    assert_eq!(shard, 257);
    assert!(!message.is_bot);
    assert_eq!(message.guild_id, Some(10));
    assert_eq!(message.channel_id, 20);
    assert_eq!(message.author_id, 30);
    assert_eq!(message.content, "!!!np");
}

#[test]
fn test_voice_server_update_parts() {
    assert_eq!(voice_server_guild(Some(5)), Ok(5));
    assert_eq!(voice_server_guild(None), Err(Error::Missing));
    let update = voice_update("sess".to_owned(), 381880193251409931, "tok".to_owned(), Some("eu.discord.gg".to_owned()));
    assert_eq!(update.session_id, "sess");
    assert_eq!(update.guild_id, "381880193251409931");
    assert_eq!(update.token, "tok");
    assert_eq!(update.endpoint, "eu.discord.gg");
    assert_eq!(voice_server_record(Some(1), Some("e".to_owned())), Some((1, "e".to_owned())));
    assert_eq!(voice_server_record(Some(1), None), None);
    assert_eq!(voice_server_record(None, Some("e".to_owned())), None);
}

#[test]
fn test_whitespace_matches_std() {
    for c in (0u32..=0x10FFFF).filter_map(char::from_u32) {
        assert_eq!(dabbot::text::char_is_whitespace(c), c.is_whitespace(), "{:?}", c);
    }
}

#[test]
fn test_patron_volume_router_reply() {
    match dabbot::commands::volume::run(&context(Some(4), &["1", "2"], None)) {
        VolumePlan::Reply(r) => assert_eq!(text_of(r), "⚠ You passed too many arguments!"),
        _ => panic!("expected a reply"),
    }
    assert!(matches!(dabbot::commands::volume::run(&context(Some(4), &["7"], None)), VolumePlan::SetVolume { guild_id: 4, volume: 7 }));
    match dabbot::commands::volume::run(&context(Some(4), &["-1"], None)) {
        VolumePlan::Reply(r) => assert_eq!(text_of(r), "The volume must be between 0 and 150"),
        _ => panic!("expected a reply"),
    }
}
