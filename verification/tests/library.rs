use fyles_core::api_server::stream_registry::{
    IncomingStreams, Listening, StreamCommand, StreamRegistryInner,
};
use fyles_core::api_server::tcp_token_interceptor::{api_server_config, bearer_auth_interceptor};
use fyles_core::bounded_list::BoundedList;
use fyles_core::brain::stale_cleanup::{
    stale_threshold, structured_partial_cleanup, sweep_outgoing_files_cleanup,
    sweep_partial_cleanup,
};
use fyles_core::daemon::{Args, TracingConfig};
use fyles_core::domain_models::{
    CappedExponentialRetry, ContactId, Filerequest, FilerequestAccess, FylesId, ReceiveStatus,
    ReceivedFile, SendStatus,
};
use fyles_core::endpoint::Endpoint;
use fyles_core::filerequest_drive_handler::{FilerequestDriveHandler, GetFileError};
use fyles_core::io_controller::OutgoingFileInfo;
use fyles_core::sqlite::migrations::{pending_migrations, Version};
use fyles_core::sqlite::schema::current_version;
use fyles_core::ttlmap::{TtlMap, TtlSet};
use fyles_core::util::duration_ext::{Duration, DurationExt};
use fyles_core::util::epoch::{epoch_millis, unix_epoch_millis};
use fyles_core::util::part_file::{get_part_file_name, parse_part_file_started_at_ms};
use fyles_core::util::track_map::{TrackEntry, TrackMap};
use fyles_core::util::util::{generate_byte_challenge, generate_random_bytes, OptionInspectMut};
use fyles_core::wire::{Code, FileRequestProto};

#[test]
fn lists_take_what_they_have_room_for() {
    let mut list: BoundedList<u32> = BoundedList::new(2);
    assert!(list.is_empty());
    assert_eq!(list.push(1), Ok(()));
    assert_eq!(list.push(2), Ok(()));
    assert_eq!(list.push(3), Err(3));
    assert!(list.is_full());
    assert_eq!(list.len(), 2);
    assert_eq!(list.max_size(), 2);
    assert_eq!(list.as_slice(), &[1, 2]);
    assert_eq!(list.into_items(), vec![1, 2]);
}

#[test]
fn lists_without_room_take_nothing() {
    let mut list: BoundedList<u32> = BoundedList::with_capacity(0, 10);
    assert_eq!(list.push(1), Err(1));
    assert!(list.is_empty() && list.is_full());
}

#[test]
fn maps_keep_entries_for_a_while() {
    let mut map = TtlMap::new(60u64.seconds());
    assert_eq!(map.insert(vec![1], vec![10]), None);
    assert_eq!(map.get(&vec![1]), Some(&vec![10]));
    assert_eq!(map.get(&vec![2]), None);
    if let Some(value) = map.get_mut(&vec![1]) {
        value.push(11);
    }
    assert_eq!(map.remove(&vec![1]), Some(vec![10, 11]));
    assert_eq!(map.get(&vec![1]), None);
    map.insert(vec![3], vec![30]);
    map.clear();
    assert_eq!(map.get(&vec![3]), None);
}

#[test]
fn sets_keep_values_for_a_while() {
    let mut set = TtlSet::new(1u64.minutes());
    set.insert(vec![1, 2]);
    assert!(set.contains(&vec![1, 2]));
    assert!(!set.contains(&vec![1]));
    assert!(set.remove(&vec![1, 2]));
    assert!(!set.remove(&vec![1, 2]));
}

#[test]
fn expired_values_are_gone() {
    let mut set = TtlSet::new(Duration::from_millis(0));
    set.insert(vec![1]);
    assert!(!set.contains(&vec![1]));
}

#[test]
fn track_maps_are_changed_in_place() {
    let mut map: TrackMap<u64, String> = TrackMap::new();
    map.insert(1, "one".to_string());
    assert_eq!(map.get(&1), Some(&"one".to_string()));
    *map.entry(1).or_insert("other".to_string()) += "!";
    assert_eq!(map.get(&1), Some(&"one!".to_string()));
    map.entry(2).or_insert("two".to_string());
    map.entry(3).or_default().push('3');
    match map.entry(2) {
        TrackEntry::Occupied(mut entry) => {
            assert_eq!(entry.get(), "two");
            assert_eq!(entry.insert("deux".to_string()), "two");
            assert_eq!(entry.remove(), (2, "deux".to_string()));
        }
        TrackEntry::Vacant(_) => panic!("the entry is there"),
    }
    match map.entry(2) {
        TrackEntry::Occupied(_) => panic!("the entry is gone"),
        TrackEntry::Vacant(entry) => {
            entry.insert("zwei".to_string());
        }
    }
    if let Some(value) = map.get_mut(&2) {
        value.push('!');
    }
    assert_eq!(map.remove(&2), Some("zwei!".to_string()));
    assert_eq!(map.remove(&2), None);
    assert_eq!(map.iter().count(), 2);
}

#[test]
fn options_are_changed_on_the_way() {
    assert_eq!(Some(1).inspect_mut(|x| *x += 1), Some(2));
    assert_eq!(None.inspect_mut(|x: &mut u32| *x += 1), None);
    let mut held = Some(vec![1]);
    held.inspect_mut_ref(|x| x.push(2)).inspect_mut_ref(|x| x.push(3));
    assert_eq!(held, Some(vec![1, 2, 3]));
    let place = &mut held;
    place.inspect_mut(|x| x.clear());
    assert_eq!(held, Some(vec![]));
}

#[test]
fn durations_are_exact() {
    assert_eq!(2u64.seconds().as_millis(), 2_000);
    assert_eq!(3u64.minutes().as_secs(), 180);
    assert_eq!(6u64.hours().as_secs(), 21_600);
    assert_eq!(1_500u64.millis().as_secs(), 1);
    assert_eq!(1_500u64.millis().subsec_nanos(), 500_000_000);
    assert_eq!(7u64.millis().as_nanos(), 7_000_000);
}

#[test]
fn retries_wait_longer_up_to_a_cap() {
    let retry = CappedExponentialRetry::default();
    let seconds: Vec<u64> = (0..6).map(|n| retry.n_th_interval(n).as_secs()).collect();
    assert_eq!(seconds, vec![0, 5, 10, 20, 40, 80]);
    assert_eq!(retry.n_th_interval(13).as_secs(), 20_480);
    assert_eq!(retry.n_th_interval(14).as_secs(), 21_600);
    assert_eq!(retry.n_th_interval(u32::MAX).as_secs(), 21_600);
    let short = CappedExponentialRetry::new(10u64.seconds(), 4u64.seconds());
    assert_eq!(short.n_th_interval(1).as_secs(), 4);
}

#[test]
fn part_files_tell_when_they_were_started() {
    let known = Some(ContactId::from("friend"));
    let name = get_part_file_name(1234, "transfer", "peer", &known);
    assert_eq!(name, "1234_friend_peer_transfer.part");
    assert_eq!(parse_part_file_started_at_ms(&name), Some(1234));
    let name = get_part_file_name(-5, "transfer", "peer", &None);
    assert_eq!(name, "-5_unknown-contact_peer_transfer.part");
    assert_eq!(parse_part_file_started_at_ms(&name), Some(-5));
    assert_eq!(parse_part_file_started_at_ms("1234_x.txt"), None);
    assert_eq!(parse_part_file_started_at_ms("abc_x.part"), None);
    assert_eq!(parse_part_file_started_at_ms("1234.part"), None);
}

fn received(id: &str, transfer_id: Option<&str>, started_at_ms: i64) -> ReceivedFile {
    ReceivedFile {
        id: FylesId::from(id),
        contact_id: None,
        peer_id: "peer".to_string(),
        filerequest_id: FylesId::from("request"),
        transfer_id: transfer_id.map(FylesId::from),
        file_name: "a.txt".to_string(),
        file_path: None,
        file_size_bytes: 10,
        progress_bytes: 4,
        status: ReceiveStatus::Interrupted,
        started_at_ms,
        received_at_ms: None,
    }
}

#[test]
fn stale_transfers_are_given_up() {
    let files = vec![received("a", Some("t1"), 7), received("b", None, 8)];
    let given_up = structured_partial_cleanup(&files);
    assert_eq!(given_up.len(), 1);
    assert_eq!(given_up[0].part_filename, "7_unknown-contact_peer_t1.part");
    assert_eq!(given_up[0].transfer_id.0, "t1");
    assert_eq!(given_up[0].progress_bytes, 4);
}

#[test]
fn only_stale_files_are_swept() {
    let threshold = stale_threshold(700_000_000);
    assert_eq!(threshold, 700_000_000 - 7 * 24 * 60 * 60 * 1000);
    let partials = vec![
        format!("{}_a_b_c.part", threshold - 1),
        format!("{}_a_b_c.part", threshold),
        "notes.txt".to_string(),
    ];
    let swept = sweep_partial_cleanup(&partials, threshold);
    assert_eq!(swept, vec![partials[0].clone()]);
    let outgoing = vec![
        OutgoingFileInfo {
            path: "/tmp/old".to_string(),
            modified_ms: threshold - 1,
        },
        OutgoingFileInfo {
            path: "/tmp/new".to_string(),
            modified_ms: threshold,
        },
    ];
    let swept = sweep_outgoing_files_cleanup(&outgoing, threshold);
    assert_eq!(swept, vec!["/tmp/old"]);
}

#[test]
fn endpoints_are_read() {
    match Endpoint::parse_for("tcp:127.0.0.1:8080", true) {
        Ok(Endpoint::Tcp { host, port }) => {
            assert_eq!(host, "127.0.0.1");
            assert_eq!(port, Some(8080));
        }
        _ => panic!("not read"),
    }
    match Endpoint::parse_for("tcp:localhost", false) {
        Ok(Endpoint::Tcp { host, port }) => {
            assert_eq!(host, "localhost");
            assert_eq!(port, None);
        }
        _ => panic!("not read"),
    }
    match Endpoint::parse_for("uds:/tmp/socket", true) {
        Ok(Endpoint::Uds { path }) => assert_eq!(path, "/tmp/socket"),
        _ => panic!("not read"),
    }
}

#[test]
fn endpoints_that_are_none_are_refused() {
    let error = |raw: &str, unix: bool| match Endpoint::parse_for(raw, unix) {
        Ok(_) => panic!("{raw} was read"),
        Err(message) => message,
    };
    assert_eq!(error("uds:", true), "uds path empty");
    assert_eq!(
        error("uds:/x", false),
        "UDS endpoints not supported on this platform"
    );
    assert_eq!(
        error("http://x", true),
        "endpoint must start with 'tcp:' or 'uds:'"
    );
    let expected = "70000".parse::<u16>().unwrap_err().to_string();
    assert_eq!(
        error("tcp:host:70000", true),
        format!("invalid port: {expected}")
    );
}

#[test]
fn endpoints_are_shown() {
    let shown = |raw: &str| Endpoint::parse(raw).ok().unwrap().display();
    assert_eq!(shown("tcp:host:80"), "tcp:host:80");
    assert_eq!(shown("tcp:host"), "tcp:host:-auto-");
}

#[test]
fn tokens_let_their_holders_pass() {
    let (auth, token) = bearer_auth_interceptor();
    assert!(auth.authenticate(Some(&format!("Bearer {token}"))).is_ok());
    let refused = |header: Option<&str>| {
        let status = auth.authenticate(header).unwrap_err();
        assert!(matches!(status.code, Code::Unauthenticated));
        status.message
    };
    assert_eq!(refused(None), "missing authorization");
    assert_eq!(refused(Some(&token)), "bad authorization scheme");
    assert_eq!(refused(Some("Bearer ***")), "bad token encoding");
    assert_eq!(refused(Some("Bearer AAAA")), "invalid token");
    let (_, other) = bearer_auth_interceptor();
    assert_ne!(token, other);
    assert_eq!(refused(Some(&format!("Bearer {other}"))), "invalid token");
    assert_eq!(api_server_config(8080, "abc"), "8080:abc");
}

#[test]
fn random_bytes_have_their_length() {
    assert_eq!(generate_random_bytes(0).len(), 0);
    assert_eq!(generate_random_bytes(100).len(), 100);
    assert_ne!(generate_byte_challenge(), generate_byte_challenge());
}

#[test]
fn time_is_counted_from_the_epoch() {
    assert_eq!(epoch_millis(1_700_000_000_000), 1_700_000_000_000);
    assert!(unix_epoch_millis().unwrap() > 1_600_000_000_000);
}

#[test]
fn daemons_are_configured() {
    let args = |db_path: Option<&str>, internal_data_dir: Option<&str>| Args {
        db_path: db_path.map(str::to_string),
        internal_data_dir: internal_data_dir.map(str::to_string),
        endpoint: "tcp:127.0.0.1".to_string(),
        output_dir: ".".to_string(),
    };
    assert_eq!(args(None, None).database_path(), "filerequest.db");
    let config = args(Some("/data/x.db"), None)
        .config(Some("/data".to_string()))
        .unwrap();
    assert_eq!(config.db_path, "/data/x.db");
    assert_eq!(config.internal_data_dir, "/data");
    let config = args(None, Some("/internal")).config(None).unwrap();
    assert_eq!(config.internal_data_dir, "/internal");
    assert!(args(None, None).config(None).is_none());
    assert!(TracingConfig::default().with_target);
}

#[test]
fn versions_are_ordered_as_releases_are() {
    let texts = ["0.9.9", "1.0.0", "1.0.10", "1.2.0", "1.19.1", "2.0.0"];
    for a in texts {
        for b in texts {
            let ours = Version::parse(a).unwrap().is_at_least(&Version::parse(b).unwrap());
            let theirs =
                semver::Version::parse(a).unwrap() >= semver::Version::parse(b).unwrap();
            assert_eq!(ours, theirs, "{a} and {b}");
        }
    }
    assert!(Version::parse("1.0").is_none());
    assert_eq!(Version::new(1, 2, 3).to_text(), "1.2.3");
}

#[test]
fn only_older_databases_are_migrated() {
    assert!(pending_migrations(&current_version()).is_empty());
    assert!(pending_migrations(&Version::new(9, 0, 0)).is_empty());
    let all = pending_migrations(&Version::new(1, 0, 0));
    assert!(!all.is_empty());
    let (_, record) = all[all.len() - 1].upgrade();
    assert!(record.sql.starts_with("UPDATE schema_version"));
}

fn filerequest(title: &str) -> Filerequest {
    Filerequest {
        id: FylesId::from("the-id"),
        title: title.to_string(),
        description: "".to_string(),
        access: FilerequestAccess::Public,
        is_active: true,
    }
}

#[test]
fn names_of_files_are_made_safe() {
    assert_eq!(
        FilerequestDriveHandler::sanitize_filename("a/b:c.txt", '/').unwrap(),
        "abc.txt"
    );
    assert!(matches!(
        FilerequestDriveHandler::sanitize_filename("///", '/'),
        Err(GetFileError::SanitizedEmpty { original }) if original == "///"
    ));
    assert!(matches!(
        FilerequestDriveHandler::sanitize_filename("a+b", '+'),
        Err(GetFileError::ContainsSeparator { sanitized }) if sanitized == "a+b"
    ));
    let handler = FilerequestDriveHandler::with_separator(&filerequest("???"), '/');
    match handler.get_file_for_writing("x") {
        Ok(fyles_core::io_controller::FileNamespace::Namespace { namespace, .. }) => {
            assert_eq!(namespace, "the-id untitled")
        }
        other => panic!("{:?}", other),
    }
}

#[test]
fn ids_are_random_uuids() {
    let id = FylesId::new();
    assert_eq!(id.0.len(), 36);
    let parsed = uuid::Uuid::parse_str(&id.0).unwrap();
    assert_eq!(parsed.get_version_num(), 4);
    assert_eq!(parsed.to_string(), id.0);
    assert_ne!(FylesId::new().0, id.0);
    assert_ne!(ContactId::new().0, ContactId::new().0);
}

#[test]
fn ids_are_plain_names() {
    let id = FylesId::new();
    assert_eq!(FilerequestDriveHandler::sanitize_filename(&id.0, '/').unwrap(), id.0);
    assert_eq!(FilerequestDriveHandler::sanitize_filename(&id.0, '\\').unwrap(), id.0);
}

fn directory(title: &str, id: &str) -> String {
    let mut request = filerequest(title);
    request.id = FylesId::from(id);
    let handler = FilerequestDriveHandler::with_separator(&request, '/');
    match handler.get_file_for_writing("x") {
        Ok(fyles_core::io_controller::FileNamespace::Namespace { namespace, .. }) => namespace,
        other => panic!("{:?}", other),
    }
}

#[test]
fn requests_keep_apart() {
    assert_eq!(directory("Photos", "1"), "1 Photos");
    assert_eq!(directory("Photos?", "2"), "2 Photos");
    assert_eq!(directory("???", "1"), "1 untitled");
    assert_eq!(directory("***", "2"), "2 untitled");
    assert_eq!(directory("b-c", "a"), "a b-c");
    assert_eq!(directory("c", "a-b"), "a-b c");
    assert_eq!(directory("c", "a b"), "a_32_b c");
    assert_eq!(directory("b c", "a"), "a b c");
}

#[test]
fn ids_are_told_by_their_marks() {
    let mark = |id: &str| FilerequestDriveHandler::mark_for(&FylesId::from(id));
    assert_eq!(mark("con"), "con");
    assert_eq!(mark("CON"), "_67__79__78_");
    assert_eq!(mark("../x"), "_46__46__47_x");
    assert_eq!(mark("a_32_b"), "a_95_32_95_b");
    assert_eq!(mark("\u{fc}"), "_252_");
    assert_eq!(mark(""), "__");
    assert_eq!(mark("_"), "_95_");
    let id = FylesId::new();
    assert_eq!(FilerequestDriveHandler::mark_for(&id), id.0);
}

#[test]
fn file_requests_survive_the_wire() {
    let mut original = filerequest("Photos");
    original.access = FilerequestAccess::Audience {
        contact_ids: vec![ContactId::from("friend")],
    };
    let proto = FileRequestProto::from(&original);
    let again = Filerequest::try_from(proto).unwrap();
    assert_eq!(again.id.0, original.id.0);
    assert_eq!(again.title, original.title);
    assert!(again.access.is_accessible_by(Some(ContactId::from("friend"))));
    assert!(!again.access.is_accessible_by(Some(ContactId::from("stranger"))));
    assert!(!again.access.is_accessible_by(None));
}

#[test]
fn statuses_have_tags() {
    assert_eq!(SendStatus::Pending.status_tag(), Ok("Pending"));
    assert_eq!(SendStatus::Sent.status_tag(), Ok("Sent"));
    assert!(SendStatus::Unknown("new".to_string()).status_tag().is_err());
    assert!(SendStatus::Pending.is_unfinished());
    assert!(!SendStatus::Rejected.is_unfinished());
    for tag in ["Receiving", "Interrupted", "Completed", "Failed"] {
        assert_eq!(ReceiveStatus::from_db_column(tag).status_tag(), Ok(tag));
    }
    assert!(ReceiveStatus::from_db_column("receiving").status_tag().is_err());
}

#[test]
fn connected_clients_are_told_what_happens() {
    let mut registry: StreamRegistryInner<&str> = StreamRegistryInner::new();
    let mut incoming = IncomingStreams::new();
    assert_eq!(incoming.listening(), Listening::Commands);
    incoming.handle_command(registry.new_connection(1, "one"));
    incoming.handle_command(registry.new_connection(2, "two"));
    assert_eq!(incoming.listening(), Listening::CommandsAndMessages);
    let mut told: Vec<(u128, &str)> =
        registry.recipients().into_iter().map(|(id, s)| (id, *s)).collect();
    told.sort();
    assert_eq!(told, vec![(1, "one"), (2, "two")]);
    assert_eq!(registry.unregister_stream(1), StreamCommand::Remove(1));
    incoming.handle_command(StreamCommand::Remove(1));
    assert_eq!(registry.recipients().len(), 1);
    incoming.handle_command(registry.unregister_stream(2));
    assert_eq!(incoming.listening(), Listening::Commands);
    assert!(registry.recipients().is_empty());
}
