use dabbot::commands::queue::QueueCommand;
use dabbot::commands::seek::SeekCommand;
use dabbot::commands::Response;
use dabbot::model::QueuedItem;
use dabbot::utils::track_length_readable;

#[test]
fn test_responses() {
    assert_eq!(
        Response::err("foo").unwrap(),
        Response::Text("⚠ foo".to_owned()),
    );
    assert_eq!(
        Response::err("").unwrap(),
        Response::Text("⚠ ".to_owned()),
    );
    assert_eq!(
        Response::text("hello").unwrap(),
        Response::Text("hello".to_owned()),
    );
    assert_eq!(
        Response::text("").unwrap(),
        Response::Text("".to_owned()),
    );
}

#[test]
fn test_page_0() {
    assert_eq!(QueueCommand::calculate_page(Some("0")), 0);
    assert_eq!(QueueCommand::calculate_page(Some("1")), 0);
}

#[test]
fn test_page_no_arg() {
    assert_eq!(QueueCommand::calculate_page(None), 0);
}

#[test]
fn test_page_numbered() {
    assert_eq!(QueueCommand::calculate_page(Some("7")), 6);
    assert_eq!(QueueCommand::calculate_page(Some("1500")), 1499);
}

#[test]
fn test_queue_one_song() {
    let item = vec![QueuedItem {
        song_id: 5,
        song_author: "xKito Music".to_owned(),
        song_identifier: "zcn4-taGvlg".to_owned(),
        song_length: 184_000,
        song_source: "youtube".to_owned(),
        song_stream: false,
        song_title: "she - Prismatic".to_owned(),
        song_track: "QAAAdAIAD3NoZSAtIFByaXNtYXRpYwALeEtpdG8gTXVzaWMAAAAAAA\
LOwAALemNuNC10YUd2bGcAAQAraHR0cHM6Ly93d3cueW91dHViZS5jb20vd2F0Y2g/dj16Y240LXRhR\
3ZsZwAHeW91dHViZQAAAAAAAAAA".to_owned(),
        song_url: "https://www.youtube.com/watch?v=zcn4-taGvlg".to_owned().into(),
    }];

    let mut buf = String::new();

    QueueCommand::format_queue(item, &mut buf, 0);

    assert_eq!(
        buf,
        "`01` **she - Prismatic** by **xKito Music** `[3m 4s]`\n",
    );
}

#[test]
fn test_argument_time() {
    assert_eq!(SeekCommand::argument_time("1").unwrap(), 1000);
    assert_eq!(SeekCommand::argument_time("2:3").unwrap(), 123_000);
    assert_eq!(SeekCommand::argument_time("20:31").unwrap(), 1_231_000);
    assert_eq!(SeekCommand::argument_time("2:34:21").unwrap(), 9_261_000);
    assert!(SeekCommand::argument_time("hi").is_none());
    assert!(SeekCommand::argument_time("1:30:20a").is_none());
}

#[test]
fn test_track_length_readable() {
    assert_eq!(track_length_readable(1000).to_string(), "1s");
    assert_eq!(track_length_readable(62_043).to_string(), "1m 2s");
    assert_eq!(
        track_length_readable(3_674_000).to_string(),
        "1h 1m 14s",
    );
}
