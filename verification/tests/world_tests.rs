use std::collections::{BTreeMap, BTreeSet, HashMap};
use std::path::Path;

use ide_sync_pro::backup::{
    cleanup_old_backups, create_timestamped_backup, delete_backup, get_backup_stats, list_backups,
    restore_backup, BackupInfo, BackupMetadata,
};
use ide_sync_pro::listing::{list_records, summarize};
use ide_sync_pro::effects::{
    DirEntry, ProcessOutput, ReadFailure, Reply, Request, Scan, Turn,
};
use ide_sync_pro::extensions::{get_cli_path, sync_extensions_cli};
use ide_sync_pro::ide::{find_profile, get_default_ides, known_ide, KNOWN_IDES};
use ide_sync_pro::models::{
    ErrorKind, IdeProfile, IdeType, Platform, SyncError, SyncOptions, SyncResult, SyncStrategy,
};
use ide_sync_pro::sync::{perform_sync, sync_file, write_content};

/// A world in memory: files, a clock, commands and the user's directories.
struct World {
    files: BTreeMap<String, String>,
    now: i64,
    commands: HashMap<(String, Vec<String>), Result<(bool, String, String), String>>,
    home: Option<String>,
    data: Option<String>,
    local_data: Option<String>,
    unreadable: BTreeSet<String>,
    unwritable: BTreeSet<String>,
    unremovable: BTreeSet<String>,
    uncopyable: BTreeSet<String>,
    asked: Vec<String>,
}

fn encode(record: &BackupMetadata) -> String {
    format!(
        "record\n{}\n{}\n{}\n{}\n{}\n{}\n{}",
        record.backup_path,
        record.original_path,
        record.timestamp,
        record.source_ide,
        record.target_ide,
        record.file_type,
        record.file_size
    )
}

fn decode(text: &str) -> Option<BackupMetadata> {
    let parts: Vec<&str> = text.split('\n').collect();
    if parts.len() != 8 || parts[0] != "record" {
        return None;
    }
    Some(BackupMetadata {
        backup_path: parts[1].to_string(),
        original_path: parts[2].to_string(),
        timestamp: parts[3].parse().ok()?,
        source_ide: parts[4].to_string(),
        target_ide: parts[5].to_string(),
        file_type: parts[6].to_string(),
        file_size: parts[7].parse().ok()?,
    })
}

fn stamp_of(now: i64) -> String {
    format!("20240101-{:02}{:02}{:02}", now / 3600 % 24, now / 60 % 60, now % 60)
}

impl World {
    fn new() -> World {
        World {
            files: BTreeMap::new(),
            now: 1000,
            commands: HashMap::new(),
            home: Some("/home/u".to_string()),
            data: None,
            local_data: None,
            unreadable: BTreeSet::new(),
            unwritable: BTreeSet::new(),
            unremovable: BTreeSet::new(),
            uncopyable: BTreeSet::new(),
            asked: Vec::new(),
        }
    }

    fn put(&mut self, path: &str, content: &str) {
        self.files.insert(path.to_string(), content.to_string());
    }

    fn command(&mut self, program: &str, arguments: &[&str], outcome: Result<(bool, &str, &str), &str>) {
        self.commands.insert(
            (program.to_string(), arguments.iter().map(|a| a.to_string()).collect()),
            outcome
                .map(|(ok, out, err)| (ok, out.to_string(), err.to_string()))
                .map_err(|e| e.to_string()),
        );
    }

    fn answer(&mut self, request: Request) -> Reply {
        self.asked.push(format!("{:?}", request));
        match request {
            Request::Exists(path) => Reply::Flag(self.files.contains_key(&path)),
            Request::ReadText(path) => {
                if self.unreadable.contains(&path) {
                    return Reply::Content(Err(ReadFailure {
                        missing: false,
                        message: "permission denied".to_string(),
                    }));
                }
                match self.files.get(&path) {
                    Some(text) => Reply::Content(Ok(text.clone())),
                    None => Reply::Content(Err(ReadFailure {
                        missing: true,
                        message: "no such file".to_string(),
                    })),
                }
            }
            Request::WriteText(path, text) => {
                if self.unwritable.contains(&path) {
                    return Reply::Done(Err("disk full".to_string()));
                }
                self.files.insert(path, text);
                Reply::Done(Ok(()))
            }
            Request::CopyFile(from, to) => {
                if self.uncopyable.contains(&to) {
                    return Reply::Done(Err("copy refused".to_string()));
                }
                match self.files.get(&from).cloned() {
                    Some(text) => {
                        self.files.insert(to, text);
                        Reply::Done(Ok(()))
                    }
                    None => Reply::Done(Err("no such file".to_string())),
                }
            }
            Request::RemoveFile(path) => {
                if self.unremovable.contains(&path) {
                    return Reply::Done(Err("busy".to_string()));
                }
                match self.files.remove(&path) {
                    Some(_) => Reply::Done(Ok(())),
                    None => Reply::Done(Err("no such file".to_string())),
                }
            }
            Request::FileSize(path) => {
                Reply::Size(self.files.get(&path).map(|text| text.len() as u64))
            }
            Request::Clock(pattern) => {
                assert_eq!(pattern, "%Y%m%d-%H%M%S");
                let now = self.now;
                self.now += 1;
                Reply::Time(now, stamp_of(now))
            }
            Request::LocalTime(moment, pattern) => {
                assert_eq!(pattern, "%Y-%m-%d %H:%M:%S");
                if moment > 4_000_000_000 {
                    Reply::Text(Err("out of range".to_string()))
                } else {
                    Reply::Text(Ok(format!("at {}", moment)))
                }
            }
            Request::Siblings(path) => {
                let parent = match Path::new(&path).parent() {
                    Some(parent) => parent.to_path_buf(),
                    None => return Reply::Listing(Scan::NoParent),
                };
                let file_name = match Path::new(&path).file_name() {
                    Some(name) => name.to_string_lossy().to_string(),
                    None => return Reply::Listing(Scan::NoFileName),
                };
                let entries = self
                    .files
                    .keys()
                    .filter(|key| Path::new(key).parent() == Some(parent.as_path()))
                    .map(|key| DirEntry {
                        name: Path::new(key).file_name().unwrap().to_string_lossy().to_string(),
                        path: key.clone(),
                    })
                    .collect();
                Reply::Listing(Scan::Entries(file_name, entries))
            }
            Request::Encode(record) => Reply::Text(Ok(encode(&record))),
            Request::Decode(text) => Reply::Record(decode(&text)),
            Request::Run(program, arguments) => match self.commands.get(&(program, arguments)) {
                Some(Ok((success, stdout, stderr))) => Reply::Process(Ok(ProcessOutput {
                    success: *success,
                    stdout: stdout.clone(),
                    stderr: stderr.clone(),
                })),
                Some(Err(why)) => Reply::Process(Err(why.clone())),
                None => Reply::Process(Err("command not found".to_string())),
            },
            Request::LocalDataDir => Reply::Dir(self.local_data.clone()),
            Request::DataDir => Reply::Dir(self.data.clone()),
            Request::HomeDir => Reply::Dir(self.home.clone()),
        }
    }

    fn backups_of(&self, path: &str) -> Vec<String> {
        let marker = format!("{}.backup.", path);
        self.files
            .keys()
            .filter(|key| key.starts_with(&marker) && !key.ends_with(".meta.json"))
            .cloned()
            .collect()
    }
}

/// Runs an operation to its end, answering each request from the world.
fn drive<T>(world: &mut World, step: impl Fn(&Vec<Reply>) -> Turn<T>) -> T {
    let mut replies: Vec<Reply> = Vec::new();
    loop {
        match step(&replies) {
            Turn::Ask(request) => {
                let reply = world.answer(request);
                replies.push(reply);
            }
            Turn::Misfit => panic!("a reply did not fit its request"),
            Turn::Done(result, next) => {
                assert_eq!(next, replies.len());
                return result;
            }
        }
    }
}

fn backup(world: &mut World, path: &str) -> Result<BackupMetadata, SyncError> {
    drive(world, |replies| create_timestamped_backup(path, "VS Code", "Cursor", "settings", replies, 0))
}

fn failure_of<T>(outcome: Result<T, SyncError>) -> (ErrorKind, String) {
    match outcome {
        Ok(_) => panic!("expected a failure"),
        Err(error) => (error.kind, error.message),
    }
}

fn profile(id: &str, name: &str, config_path: &str, executable: &str) -> IdeProfile {
    IdeProfile {
        id: id.to_string(),
        name: name.to_string(),
        ide_type: IdeType::Unknown,
        config_path: config_path.to_string(),
        extensions_path: String::new(),
        executable: executable.to_string(),
        is_detected: true,
    }
}

fn options(settings: bool, keybindings: bool, extensions: bool, dry_run: bool, strategy: SyncStrategy) -> SyncOptions {
    SyncOptions {
        sync_settings: settings,
        sync_extensions: extensions,
        sync_keybindings: keybindings,
        dry_run,
        strategy,
    }
}

fn run(world: &mut World, source: &IdeProfile, target: &IdeProfile, options: SyncOptions) -> SyncResult {
    drive(world, |replies| perform_sync(source, target, options, Platform::Linux, replies, 0))
}

#[test]
fn backup_copies_the_file_and_writes_the_sidecar() {
    let mut world = World::new();
    world.put("/cfg/settings.json", "{\"a\":1}");
    let record = backup(&mut world, "/cfg/settings.json").expect("backup is made");
    assert_eq!(record.backup_path, "/cfg/settings.json.backup.20240101-001640");
    assert_eq!(record.original_path, "/cfg/settings.json");
    assert_eq!(record.timestamp, 1000);
    assert_eq!(record.source_ide, "VS Code");
    assert_eq!(record.target_ide, "Cursor");
    assert_eq!(record.file_type, "settings");
    assert_eq!(record.file_size, 7);
    assert_eq!(world.files.get(&record.backup_path).map(String::as_str), Some("{\"a\":1}"));
    let sidecar = world
        .files
        .get("/cfg/settings.json.backup.20240101-001640.meta.json")
        .expect("sidecar is written");
    let stored = decode(sidecar).expect("sidecar holds a record");
    assert_eq!(stored.backup_path, record.backup_path);
    assert_eq!(stored.file_size, 7);
    assert_eq!(
        world.asked,
        vec![
            "Exists(\"/cfg/settings.json\")".to_string(),
            "Clock(\"%Y%m%d-%H%M%S\")".to_string(),
            "CopyFile(\"/cfg/settings.json\", \"/cfg/settings.json.backup.20240101-001640\")".to_string(),
            "FileSize(\"/cfg/settings.json.backup.20240101-001640\")".to_string(),
            format!("Encode({:?})", record),
            format!(
                "WriteText(\"/cfg/settings.json.backup.20240101-001640.meta.json\", {:?})",
                encode(&record)
            ),
        ]
    );
}

#[test]
fn backup_of_a_missing_file_is_not_found() {
    let mut world = World::new();
    let (kind, message) = failure_of(backup(&mut world, "/cfg/none.json"));
    assert_eq!(kind, ErrorKind::NotFound);
    assert_eq!(message, "文件不存在: /cfg/none.json");
    assert!(world.files.is_empty());
    assert_eq!(world.asked.len(), 1);
}

#[test]
fn backup_fails_with_io_error_when_the_copy_fails() {
    let mut world = World::new();
    world.put("/cfg/settings.json", "{}");
    world.uncopyable.insert("/cfg/settings.json.backup.20240101-001640".to_string());
    let (kind, message) = failure_of(backup(&mut world, "/cfg/settings.json"));
    assert_eq!(kind, ErrorKind::IoError);
    assert_eq!(message, "备份失败: copy refused");
    assert_eq!(world.files.len(), 1);
}

#[test]
fn backup_fails_with_io_error_when_the_sidecar_cannot_be_written() {
    let mut world = World::new();
    world.put("/cfg/settings.json", "{}");
    world.unwritable.insert("/cfg/settings.json.backup.20240101-001640.meta.json".to_string());
    let (kind, message) = failure_of(backup(&mut world, "/cfg/settings.json"));
    assert_eq!(kind, ErrorKind::IoError);
    assert_eq!(message, "保存元数据失败: disk full");
}

#[test]
fn backup_fails_with_io_error_when_the_record_cannot_be_encoded() {
    let replies = vec![
        Reply::Flag(true),
        Reply::Time(5, "20240101-000005".to_string()),
        Reply::Done(Ok(())),
        Reply::Size(None),
        Reply::Text(Err("no encoder".to_string())),
    ];
    match create_timestamped_backup("/f", "a", "b", "settings", &replies, 0) {
        Turn::Done(Err(error), next) => {
            assert_eq!(error.kind, ErrorKind::IoError);
            assert_eq!(error.message, "序列化元数据失败: no encoder");
            assert_eq!(next, 5);
        }
        _ => panic!("expected a failure"),
    }
}

#[test]
fn backup_takes_size_zero_where_the_size_cannot_be_had() {
    let replies = vec![
        Reply::Flag(true),
        Reply::Time(5, "20240101-000005".to_string()),
        Reply::Done(Ok(())),
        Reply::Size(None),
        Reply::Text(Ok("text".to_string())),
        Reply::Done(Ok(())),
    ];
    match create_timestamped_backup("/f", "a", "b", "keybindings", &replies, 0) {
        Turn::Done(Ok(record), next) => {
            assert_eq!(record.file_size, 0);
            assert_eq!(record.backup_path, "/f.backup.20240101-000005");
            assert_eq!(record.file_type, "keybindings");
            assert_eq!(next, 6);
        }
        _ => panic!("expected a record"),
    }
}

#[test]
fn a_reply_of_the_wrong_kind_is_a_misfit() {
    let replies = vec![Reply::Size(Some(1))];
    assert!(matches!(
        create_timestamped_backup("/f", "a", "b", "settings", &replies, 0),
        Turn::Misfit
    ));
    assert!(matches!(delete_backup("/f", &replies, 0), Turn::Misfit));
    assert!(matches!(restore_backup("/f", &replies, 0), Turn::Misfit));
    assert!(matches!(list_backups("/f", &replies, 0), Turn::Misfit));
    assert!(matches!(
        sync_file("/s", "/t", false, SyncStrategy::Merge, "a", "b", "settings", &replies, 0),
        Turn::Misfit
    ));
}

#[test]
fn an_operation_reads_its_replies_from_the_given_position() {
    let replies = vec![Reply::Size(Some(1)), Reply::Flag(false)];
    match delete_backup("/f", &replies, 1) {
        Turn::Done(Err(error), next) => {
            assert_eq!(error.kind, ErrorKind::NotFound);
            assert_eq!(next, 2);
        }
        _ => panic!("expected a failure"),
    }
    match delete_backup("/f", &replies, 2) {
        Turn::Ask(Request::Exists(path)) => assert_eq!(path, "/f"),
        _ => panic!("expected a request"),
    }
    match delete_backup("/f", &replies, 9) {
        Turn::Ask(Request::Exists(path)) => assert_eq!(path, "/f"),
        _ => panic!("expected a request"),
    }
}

#[test]
fn list_is_ordered_newest_first_and_skips_what_has_no_sidecar() {
    let mut world = World::new();
    world.put("/cfg/settings.json", "{}");
    let first = backup(&mut world, "/cfg/settings.json").unwrap();
    let second = backup(&mut world, "/cfg/settings.json").unwrap();
    let third = backup(&mut world, "/cfg/settings.json").unwrap();
    world.put("/cfg/settings.json.backup.orphan", "{}");
    world.put("/cfg/settings.json.backup.broken", "{}");
    world.put("/cfg/settings.json.backup.broken.meta.json", "not a record");
    world.put("/cfg/settings.json.bak", "{}");
    world.put("/cfg/other.json.backup.20240101-000000", "{}");
    world.put("/cfg/other.json.backup.20240101-000000.meta.json", "record\na\nb\n1\nc\nd\ne\n2");
    let listed = drive(&mut world, |replies| list_backups("/cfg/settings.json", replies, 0)).unwrap();
    let paths: Vec<&str> = listed.iter().map(|info| info.metadata.backup_path.as_str()).collect();
    assert_eq!(
        paths,
        vec![third.backup_path.as_str(), second.backup_path.as_str(), first.backup_path.as_str()]
    );
    let stamps: Vec<i64> = listed.iter().map(|info| info.metadata.timestamp).collect();
    assert_eq!(stamps, vec![1002, 1001, 1000]);
    let shown: Vec<&str> = listed.iter().map(|info| info.formatted_time.as_str()).collect();
    assert_eq!(shown, vec!["at 1002", "at 1001", "at 1000"]);
    assert_eq!(listed[0].metadata.file_size, 2);
    let records = drive(&mut world, |replies| list_records("/cfg/settings.json", replies, 0)).unwrap();
    assert_eq!(records.len(), 3);
    assert_eq!(records[0].backup_path, third.backup_path);
}

#[test]
fn list_shows_the_epoch_for_a_moment_that_cannot_be_written() {
    let record = BackupMetadata {
        backup_path: "/d/f.backup.x".to_string(),
        original_path: "/d/f".to_string(),
        timestamp: i64::MAX,
        source_ide: String::new(),
        target_ide: String::new(),
        file_type: "settings".to_string(),
        file_size: 1,
    };
    let mut world = World::new();
    world.put("/d/f.backup.x", "1");
    world.put("/d/f.backup.x.meta.json", &encode(&record));
    let listed = drive(&mut world, |replies| list_backups("/d/f", replies, 0)).unwrap();
    assert_eq!(listed.len(), 1);
    assert_eq!(listed[0].formatted_time, "at 0");
    assert_eq!(listed[0].metadata.timestamp, i64::MAX);
    assert_eq!(
        world.asked[4..],
        [
            format!("LocalTime({}, \"%Y-%m-%d %H:%M:%S\")", i64::MAX),
            "LocalTime(0, \"%Y-%m-%d %H:%M:%S\")".to_string(),
        ]
    );

    let replies = vec![
        Reply::Listing(Scan::Entries("f".to_string(), vec![DirEntry {
            name: "f.backup.x".to_string(),
            path: "/d/f.backup.x".to_string(),
        }])),
        Reply::Content(Ok("sidecar".to_string())),
        Reply::Record(Some(record)),
        Reply::Text(Err("out of range".to_string())),
        Reply::Text(Err("out of range".to_string())),
    ];
    match list_backups("/d/f", &replies, 0) {
        Turn::Done(Ok(listed), next) => {
            assert_eq!(listed[0].formatted_time, "");
            assert_eq!(next, 5);
        }
        _ => panic!("expected a listing"),
    }
}

#[test]
fn list_keeps_the_order_of_backups_of_the_same_moment() {
    let record = |path: &str, timestamp: i64| BackupMetadata {
        backup_path: path.to_string(),
        original_path: "/f".to_string(),
        timestamp,
        source_ide: String::new(),
        target_ide: String::new(),
        file_type: "settings".to_string(),
        file_size: 1,
    };
    let entry = |name: &str| DirEntry { name: name.to_string(), path: format!("/d/{}", name) };
    let replies = vec![
        Reply::Listing(Scan::Entries(
            "f".to_string(),
            vec![entry("f.backup.a"), entry("x.backup.b"), entry("f.backup.c"), entry("f.backup.d"), entry("f.old")],
        )),
        Reply::Content(Ok("a".to_string())),
        Reply::Record(Some(record("a", 5))),
        Reply::Content(Ok("c".to_string())),
        Reply::Record(Some(record("c", 9))),
        Reply::Content(Ok("d".to_string())),
        Reply::Record(Some(record("d", 5))),
    ];
    match list_records("/d/f", &replies, 0) {
        Turn::Done(Ok(listed), next) => {
            let paths: Vec<&str> = listed.iter().map(|r| r.backup_path.as_str()).collect();
            assert_eq!(paths, vec!["c", "a", "d"]);
            assert_eq!(next, 7);
        }
        _ => panic!("expected a listing"),
    }
    match list_backups("/d/f", &replies, 0) {
        Turn::Ask(Request::LocalTime(moment, _)) => assert_eq!(moment, 9),
        _ => panic!("expected a request"),
    }
    let mut replies = replies;
    replies.truncate(3);
    match list_backups("/d/f", &replies, 0) {
        Turn::Ask(Request::ReadText(path)) => assert_eq!(path, "/d/f.backup.c.meta.json"),
        _ => panic!("expected a request"),
    }
}

#[test]
fn list_of_a_path_without_parent_or_name_fails() {
    let (kind, message) = failure_of(
        match list_backups("/", &vec![Reply::Listing(Scan::NoParent)], 0) {
            Turn::Done(outcome, _) => outcome,
            _ => panic!("expected an end"),
        },
    );
    assert_eq!(kind, ErrorKind::IoError);
    assert_eq!(message, "无效的文件路径");
    let (kind, message) = failure_of(
        match list_backups("..", &vec![Reply::Listing(Scan::NoFileName)], 0) {
            Turn::Done(outcome, _) => outcome,
            _ => panic!("expected an end"),
        },
    );
    assert_eq!(kind, ErrorKind::IoError);
    assert_eq!(message, "无效的文件名");
}

#[test]
fn list_of_a_directory_without_backups_is_empty() {
    let mut world = World::new();
    world.put("/cfg/settings.json", "{}");
    let listed = drive(&mut world, |replies| list_backups("/cfg/settings.json", replies, 0)).unwrap();
    assert!(listed.is_empty());
}

#[test]
fn restore_saves_the_present_file_and_brings_the_backup_back() {
    let mut world = World::new();
    world.put("/cfg/settings.json", "old");
    let record = backup(&mut world, "/cfg/settings.json").unwrap();
    world.put("/cfg/settings.json", "new");
    let restored = drive(&mut world, |replies| restore_backup(&record.backup_path, replies, 0)).unwrap();
    assert_eq!(restored, "/cfg/settings.json");
    assert_eq!(world.files.get("/cfg/settings.json").map(String::as_str), Some("old"));
    assert_eq!(
        world.files.get("/cfg/settings.json.before-restore").map(String::as_str),
        Some("new")
    );
}

#[test]
fn restore_makes_no_safety_copy_where_the_file_is_gone() {
    let mut world = World::new();
    world.put("/cfg/settings.json", "old");
    let record = backup(&mut world, "/cfg/settings.json").unwrap();
    world.files.remove("/cfg/settings.json");
    let restored = drive(&mut world, |replies| restore_backup(&record.backup_path, replies, 0)).unwrap();
    assert_eq!(restored, "/cfg/settings.json");
    assert_eq!(world.files.get("/cfg/settings.json").map(String::as_str), Some("old"));
    assert!(!world.files.contains_key("/cfg/settings.json.before-restore"));
}

#[test]
fn restore_stops_when_the_safety_copy_fails() {
    let mut world = World::new();
    world.put("/cfg/settings.json", "old");
    let record = backup(&mut world, "/cfg/settings.json").unwrap();
    world.put("/cfg/settings.json", "new");
    world.uncopyable.insert("/cfg/settings.json.before-restore".to_string());
    let (kind, message) =
        failure_of(drive(&mut world, |replies| restore_backup(&record.backup_path, replies, 0)));
    assert_eq!(kind, ErrorKind::IoError);
    assert_eq!(message, "创建临时备份失败: copy refused");
    assert_eq!(world.files.get("/cfg/settings.json").map(String::as_str), Some("new"));
}

#[test]
fn restore_fails_for_each_missing_part() {
    let mut world = World::new();
    let (kind, message) = failure_of(drive(&mut world, |replies| restore_backup("/b", replies, 0)));
    assert_eq!((kind, message.as_str()), (ErrorKind::NotFound, "备份文件不存在"));

    world.put("/b", "data");
    let (kind, message) = failure_of(drive(&mut world, |replies| restore_backup("/b", replies, 0)));
    assert_eq!((kind, message.as_str()), (ErrorKind::NotFound, "无法读取备份元数据"));

    world.put("/b.meta.json", "garbage");
    let (kind, message) = failure_of(drive(&mut world, |replies| restore_backup("/b", replies, 0)));
    assert_eq!((kind, message.as_str()), (ErrorKind::ParseError, "元数据格式错误"));

    world.put("/b.meta.json", "record\n/b\n/orig\n1\ns\nt\nsettings\n4");
    world.uncopyable.insert("/orig".to_string());
    let (kind, message) = failure_of(drive(&mut world, |replies| restore_backup("/b", replies, 0)));
    assert_eq!((kind, message.as_str()), (ErrorKind::IoError, "恢复失败: copy refused"));
}

#[test]
fn delete_removes_the_backup_and_its_sidecar() {
    let mut world = World::new();
    world.put("/cfg/settings.json", "old");
    let record = backup(&mut world, "/cfg/settings.json").unwrap();
    drive(&mut world, |replies| delete_backup(&record.backup_path, replies, 0)).unwrap();
    assert_eq!(world.files.len(), 1);
    assert!(world.files.contains_key("/cfg/settings.json"));
}

#[test]
fn delete_ignores_a_sidecar_that_cannot_be_removed() {
    let mut world = World::new();
    world.put("/b", "data");
    drive(&mut world, |replies| delete_backup("/b", replies, 0)).unwrap();
    assert!(world.files.is_empty());

    world.put("/b", "data");
    world.put("/b.meta.json", "x");
    world.unremovable.insert("/b.meta.json".to_string());
    drive(&mut world, |replies| delete_backup("/b", replies, 0)).unwrap();
    assert!(!world.files.contains_key("/b"));
    assert!(world.files.contains_key("/b.meta.json"));
}

#[test]
fn delete_fails_for_a_missing_or_a_stuck_backup() {
    let mut world = World::new();
    let (kind, message) = failure_of(drive(&mut world, |replies| delete_backup("/b", replies, 0)));
    assert_eq!((kind, message.as_str()), (ErrorKind::NotFound, "备份文件不存在"));

    world.put("/b", "data");
    world.unremovable.insert("/b".to_string());
    let (kind, message) = failure_of(drive(&mut world, |replies| delete_backup("/b", replies, 0)));
    assert_eq!((kind, message.as_str()), (ErrorKind::IoError, "删除备份文件失败: busy"));
    assert!(world.files.contains_key("/b"));
}

#[test]
fn sweep_of_twelve_backups_keeps_the_ten_newest() {
    let mut world = World::new();
    world.put("/cfg/settings.json", "{}");
    let mut made = Vec::new();
    for _ in 0..12 {
        made.push(backup(&mut world, "/cfg/settings.json").unwrap());
    }
    assert_eq!(world.backups_of("/cfg/settings.json").len(), 12);
    let deleted =
        drive(&mut world, |replies| cleanup_old_backups("/cfg/settings.json", 10, replies, 0)).unwrap();
    assert_eq!(deleted, 2);
    let left = world.backups_of("/cfg/settings.json");
    assert_eq!(left.len(), 10);
    assert!(!left.contains(&made[0].backup_path));
    assert!(!left.contains(&made[1].backup_path));
    for record in &made[2..] {
        assert!(left.contains(&record.backup_path));
        assert!(world.files.contains_key(&format!("{}.meta.json", record.backup_path)));
        assert!(record.timestamp > made[1].timestamp);
    }
    assert!(!world.files.contains_key(&format!("{}.meta.json", made[0].backup_path)));
    let listed = drive(&mut world, |replies| list_backups("/cfg/settings.json", replies, 0)).unwrap();
    assert_eq!(listed.len(), 10);
    assert_eq!(listed[0].metadata.timestamp, made[11].timestamp);
    assert_eq!(listed[9].metadata.timestamp, made[2].timestamp);
}

#[test]
fn sweep_deletes_nothing_where_there_are_no_more_than_it_keeps() {
    let mut world = World::new();
    world.put("/cfg/settings.json", "{}");
    for _ in 0..3 {
        backup(&mut world, "/cfg/settings.json").unwrap();
    }
    let deleted =
        drive(&mut world, |replies| cleanup_old_backups("/cfg/settings.json", 3, replies, 0)).unwrap();
    assert_eq!(deleted, 0);
    let deleted =
        drive(&mut world, |replies| cleanup_old_backups("/cfg/settings.json", 7, replies, 0)).unwrap();
    assert_eq!(deleted, 0);
    assert_eq!(world.backups_of("/cfg/settings.json").len(), 3);
    let deleted =
        drive(&mut world, |replies| cleanup_old_backups("/cfg/settings.json", 0, replies, 0)).unwrap();
    assert_eq!(deleted, 3);
    assert!(world.backups_of("/cfg/settings.json").is_empty());
}

#[test]
fn sweep_passes_over_a_backup_that_cannot_be_deleted() {
    let mut world = World::new();
    world.put("/cfg/settings.json", "{}");
    let mut made = Vec::new();
    for _ in 0..4 {
        made.push(backup(&mut world, "/cfg/settings.json").unwrap());
    }
    world.unremovable.insert(made[1].backup_path.clone());
    let deleted =
        drive(&mut world, |replies| cleanup_old_backups("/cfg/settings.json", 1, replies, 0)).unwrap();
    assert_eq!(deleted, 2);
    let left = world.backups_of("/cfg/settings.json");
    assert_eq!(left, vec![made[1].backup_path.clone(), made[3].backup_path.clone()]);
}

#[test]
fn sweep_fails_where_the_listing_fails() {
    let replies = vec![Reply::Listing(Scan::NoParent)];
    match cleanup_old_backups("/", 10, &replies, 0) {
        Turn::Done(Err(error), next) => {
            assert_eq!(error.kind, ErrorKind::IoError);
            assert_eq!(next, 1);
        }
        _ => panic!("expected a failure"),
    }
}

#[test]
fn stats_count_the_backups_and_their_bytes() {
    let mut world = World::new();
    world.put("/cfg/settings.json", "12345");
    backup(&mut world, "/cfg/settings.json").unwrap();
    world.put("/cfg/settings.json", "1234567");
    backup(&mut world, "/cfg/settings.json").unwrap();
    let stats = drive(&mut world, |replies| get_backup_stats("/cfg/settings.json", replies, 0)).unwrap();
    assert_eq!(stats.total_count, 2);
    assert_eq!(stats.total_size, 12);
    assert_eq!(stats.oldest_backup.as_deref(), Some("at 1000"));
    assert_eq!(stats.newest_backup.as_deref(), Some("at 1001"));
    let none = drive(&mut world, |replies| get_backup_stats("/cfg/other.json", replies, 0)).unwrap();
    assert_eq!(none.total_count, 0);
    assert_eq!(none.total_size, 0);
    assert_eq!(none.oldest_backup, None);
    assert_eq!(none.newest_backup, None);
}

#[test]
fn stats_add_sizes_beyond_sixty_four_bits() {
    let info = |timestamp: i64| BackupInfo {
        metadata: BackupMetadata {
            backup_path: String::new(),
            original_path: String::new(),
            timestamp,
            source_ide: String::new(),
            target_ide: String::new(),
            file_type: String::new(),
            file_size: u64::MAX,
        },
        formatted_time: timestamp.to_string(),
    };
    let stats = summarize(&vec![info(9), info(4), info(1)]);
    assert_eq!(stats.total_count, 3);
    assert_eq!(stats.total_size, 3 * (u64::MAX as u128));
    assert_eq!(stats.newest_backup.as_deref(), Some("9"));
    assert_eq!(stats.oldest_backup.as_deref(), Some("1"));
}

#[test]
fn overwrite_gives_the_target_the_text_of_the_source() {
    let source_text = "// my settings\n{\n    \"a\": 1, // one\n}\n";
    for before in [None, Some("{\"z\": 26}"), Some("not even json")] {
        let mut world = World::new();
        world.put("/src/settings.json", source_text);
        if let Some(text) = before {
            world.put("/tgt/settings.json", text);
        }
        let lines = drive(&mut world, |replies| {
            sync_file(
                "/src/settings.json",
                "/tgt/settings.json",
                false,
                SyncStrategy::Overwrite,
                "A",
                "B",
                "settings",
                replies,
                0,
            )
        })
        .unwrap();
        assert_eq!(
            lines,
            vec!["Successfully synced /tgt/settings.json (Strategy: Overwrite, auto-backup created)".to_string()]
        );
        assert_eq!(world.files.get("/tgt/settings.json").map(String::as_str), Some(source_text));
        assert_eq!(world.backups_of("/tgt/settings.json").len(), if before.is_some() { 1 } else { 0 });
    }
}

#[test]
fn merge_without_a_target_writes_the_text_of_the_source() {
    let source_text = "{ \"a\": 1, /* kept */ }";
    let mut world = World::new();
    world.put("/src/settings.json", source_text);
    let lines = drive(&mut world, |replies| {
        sync_file("/src/settings.json", "/tgt/settings.json", false, SyncStrategy::Merge, "A", "B", "settings", replies, 0)
    })
    .unwrap();
    assert_eq!(
        lines,
        vec!["Successfully synced /tgt/settings.json (Strategy: Merge, auto-backup created)".to_string()]
    );
    assert_eq!(world.files.get("/tgt/settings.json").map(String::as_str), Some(source_text));
    assert!(world.backups_of("/tgt/settings.json").is_empty());
}

#[test]
fn merge_writes_the_pretty_text_of_the_merged_tree() {
    let mut world = World::new();
    world.put("/src/settings.json", "{\"a\":1,\"b\":{\"x\":1}} // source");
    world.put("/tgt/settings.json", "{\"b\":{\"y\":2},\"c\":3}");
    drive(&mut world, |replies| {
        sync_file("/src/settings.json", "/tgt/settings.json", false, SyncStrategy::Merge, "A", "B", "settings", replies, 0)
    })
    .unwrap();
    assert_eq!(
        world.files.get("/tgt/settings.json").map(String::as_str),
        Some("{\n  \"a\": 1,\n  \"b\": {\n    \"x\": 1,\n    \"y\": 2\n  },\n  \"c\": 3\n}")
    );
    let backups = world.backups_of("/tgt/settings.json");
    assert_eq!(backups.len(), 1);
    assert_eq!(world.files.get(&backups[0]).map(String::as_str), Some("{\"b\":{\"y\":2},\"c\":3}"));
}

#[test]
fn merge_prints_every_kind_of_value() {
    let mut world = World::new();
    world.put("/src/s.json", "{\"f\":1.50,\"n\":-3,\"big\":18446744073709551615,\"t\":true,\"s\":\"a\\\"b\",\"z\":null,\"e\":1e3}");
    world.put("/tgt/s.json", "{\"list\":[1,[],{}]}");
    drive(&mut world, |replies| {
        sync_file("/src/s.json", "/tgt/s.json", false, SyncStrategy::Merge, "A", "B", "settings", replies, 0)
    })
    .unwrap();
    assert_eq!(
        world.files.get("/tgt/s.json").map(String::as_str),
        Some("{\n  \"big\": 18446744073709551615,\n  \"e\": 1000.0,\n  \"f\": 1.5,\n  \"list\": [\n    1,\n    [],\n    {}\n  ],\n  \"n\": -3,\n  \"s\": \"a\\\"b\",\n  \"t\": true,\n  \"z\": null\n}")
    );
}

#[test]
fn dry_run_logs_where_it_would_write_and_changes_nothing() {
    let mut world = World::new();
    world.put("/src/settings.json", "{\"a\":1}");
    world.put("/tgt/settings.json", "{\"b\":2}");
    let before = world.files.clone();
    let lines = drive(&mut world, |replies| {
        sync_file("/src/settings.json", "/tgt/settings.json", true, SyncStrategy::Merge, "A", "B", "settings", replies, 0)
    })
    .unwrap();
    assert_eq!(lines, vec!["[Dry Run] Would write to /tgt/settings.json (Strategy: Merge)".to_string()]);
    assert_eq!(world.files, before);
    assert!(world.asked.iter().all(|asked| asked.starts_with("ReadText") || asked.starts_with("Exists")));
}

#[test]
fn file_phase_fails_for_each_kind_of_trouble() {
    let sync = |world: &mut World, strategy: SyncStrategy| {
        drive(world, |replies| {
            sync_file("/src/s.json", "/tgt/s.json", false, strategy, "A", "B", "settings", replies, 0)
        })
    };
    let mut world = World::new();
    let (kind, message) = failure_of(sync(&mut world, SyncStrategy::Overwrite));
    assert_eq!((kind, message.as_str()), (ErrorKind::NotFound, "Failed to read source: no such file"));

    world.put("/src/s.json", "{}");
    world.unreadable.insert("/src/s.json".to_string());
    let (kind, message) = failure_of(sync(&mut world, SyncStrategy::Merge));
    assert_eq!((kind, message.as_str()), (ErrorKind::IoError, "Failed to read source: permission denied"));
    world.unreadable.clear();

    world.put("/src/s.json", "{ broken");
    let (kind, message) = failure_of(sync(&mut world, SyncStrategy::Overwrite));
    assert_eq!((kind, message.as_str()), (ErrorKind::ParseError, "Source file is invalid JSONC"));

    world.put("/src/s.json", "{}");
    world.put("/tgt/s.json", "{ broken");
    let (kind, message) = failure_of(sync(&mut world, SyncStrategy::Merge));
    assert_eq!(
        (kind, message.as_str()),
        (ErrorKind::ParseError, "Target file is invalid JSONC, cannot merge.")
    );
    assert_eq!(world.files.get("/tgt/s.json").map(String::as_str), Some("{ broken"));

    world.unreadable.insert("/tgt/s.json".to_string());
    let (kind, message) = failure_of(sync(&mut world, SyncStrategy::Merge));
    assert_eq!((kind, message.as_str()), (ErrorKind::IoError, "Failed to read target: permission denied"));

    world.unwritable.insert("/tgt/s.json".to_string());
    let (kind, message) = failure_of(sync(&mut world, SyncStrategy::Overwrite));
    assert_eq!((kind, message.as_str()), (ErrorKind::IoError, "disk full"));
}

#[test]
fn a_backup_that_fails_leaves_a_warning_and_the_write_goes_on() {
    let mut world = World::new();
    world.put("/src/s.json", "{\"a\":1}");
    world.put("/tgt/s.json", "{}");
    world.uncopyable.insert(format!("/tgt/s.json.backup.{}", stamp_of(1000)));
    let lines = drive(&mut world, |replies| {
        sync_file("/src/s.json", "/tgt/s.json", false, SyncStrategy::Overwrite, "A", "B", "settings", replies, 0)
    })
    .unwrap();
    assert_eq!(
        lines,
        vec![
            "Warning: Backup failed: 备份失败: copy refused".to_string(),
            "Successfully synced /tgt/s.json (Strategy: Overwrite, auto-backup created)".to_string(),
        ]
    );
    assert_eq!(world.files.get("/tgt/s.json").map(String::as_str), Some("{\"a\":1}"));
}

#[test]
fn a_file_phase_keeps_ten_backups_of_the_target() {
    let mut world = World::new();
    world.put("/src/s.json", "{\"a\":1}");
    world.put("/tgt/s.json", "{}");
    for round in 0..13 {
        let lines = drive(&mut world, |replies| {
            sync_file("/src/s.json", "/tgt/s.json", false, SyncStrategy::Overwrite, "A", "B", "settings", replies, 0)
        })
        .unwrap();
        assert_eq!(lines.len(), 1);
        assert_eq!(world.backups_of("/tgt/s.json").len(), std::cmp::min(round + 1, 10));
    }
}

#[test]
fn write_content_takes_the_content_as_it_is_given() {
    let mut world = World::new();
    let lines = drive(&mut world, |replies| {
        write_content("anything at all", "/tgt/f", false, SyncStrategy::Merge, "A", "B", "keybindings", replies, 0)
    })
    .unwrap();
    assert_eq!(lines.len(), 1);
    assert_eq!(world.files.get("/tgt/f").map(String::as_str), Some("anything at all"));
}

#[test]
fn run_goes_through_all_phases_in_order() {
    let mut world = World::new();
    world.put("/a/User/settings.json", "{\"a\":1}");
    world.put("/a/User/keybindings.json", "[{\"key\":\"k\"}]");
    world.put("/b/User/settings.json", "{\"b\":2}");
    world.command("code", &["--list-extensions"], Ok((true, "a.b\nc.d\n", "")));
    world.command("cursor", &["--install-extension", "a.b"], Ok((true, "", "")));
    world.command("cursor", &["--install-extension", "c.d"], Ok((false, "", "boom")));
    let source = profile("vscode", "VS Code", "/a/User/settings.json", "code");
    let target = profile("cursor", "Cursor", "/b/User/settings.json", "cursor");
    let result = run(&mut world, &source, &target, options(true, true, true, false, SyncStrategy::Merge));
    assert!(result.success);
    assert_eq!(
        result.log,
        vec![
            "Starting sync from VS Code to Cursor...",
            "Strategy: Merge",
            "--- Syncing Settings ---",
            "Successfully synced /b/User/settings.json (Strategy: Merge, auto-backup created)",
            "--- Syncing Keybindings ---",
            "Successfully synced /b/User/keybindings.json (Strategy: Merge, auto-backup created)",
            "--- Syncing Extensions (CLI Method) ---",
            "Found 2 extensions in VS Code",
            "Installing a.b on Cursor...",
            "Installing c.d on Cursor...",
            "Failed to install c.d: boom",
            "Extensions sync completed.",
        ]
    );
    assert_eq!(
        world.files.get("/b/User/settings.json").map(String::as_str),
        Some("{\n  \"a\": 1,\n  \"b\": 2\n}")
    );
    assert_eq!(
        world.files.get("/b/User/keybindings.json").map(String::as_str),
        Some("[{\"key\":\"k\"}]")
    );
}

#[test]
fn an_install_that_fails_does_not_fail_the_run() {
    let mut world = World::new();
    world.command("code", &["--list-extensions"], Ok((true, "a.b\nc.d", "")));
    world.command("cursor", &["--install-extension", "a.b"], Ok((true, "", "")));
    world.command("cursor", &["--install-extension", "c.d"], Ok((false, "", "cannot install")));
    let source = profile("vscode", "VS Code", "/a/settings.json", "code");
    let target = profile("cursor", "Cursor", "/b/settings.json", "cursor");
    let result = run(&mut world, &source, &target, options(false, false, true, false, SyncStrategy::Overwrite));
    assert!(result.success);
    assert!(result.log.contains(&"Failed to install c.d: cannot install".to_string()));
    assert!(!result.log.iter().any(|line| line.contains("Failed to install a.b")));
    assert_eq!(result.log.last().map(String::as_str), Some("Extensions sync completed."));
}

#[test]
fn an_install_that_cannot_start_is_logged_and_the_next_follows() {
    let mut world = World::new();
    world.command("code", &["--list-extensions"], Ok((true, "a.b\r\nc.d\r\n", "")));
    world.command("cursor", &["--install-extension", "c.d"], Ok((true, "", "")));
    let lines = drive(&mut world, |replies| {
        sync_extensions_cli(
            &profile("vscode", "VS Code", "/a/settings.json", "code"),
            &profile("cursor", "Cursor", "/b/settings.json", "cursor"),
            Platform::Linux,
            replies,
            0,
        )
    })
    .unwrap();
    assert_eq!(
        lines,
        vec![
            "Found 2 extensions in VS Code",
            "Installing a.b on Cursor...",
            "Failed to install a.b: command not found",
            "Installing c.d on Cursor...",
        ]
    );
}

#[test]
fn a_listing_that_fails_fails_the_extensions_phase_only() {
    let mut world = World::new();
    world.put("/a/settings.json", "{}");
    world.command("code", &["--list-extensions"], Ok((false, "", "no extensions today")));
    let source = profile("vscode", "VS Code", "/a/settings.json", "code");
    let target = profile("cursor", "Cursor", "/b/settings.json", "cursor");
    let result = run(&mut world, &source, &target, options(true, false, true, false, SyncStrategy::Overwrite));
    assert!(!result.success);
    assert_eq!(
        result.log,
        vec![
            "Starting sync from VS Code to Cursor...",
            "Strategy: Overwrite",
            "--- Syncing Settings ---",
            "Successfully synced /b/settings.json (Strategy: Overwrite, auto-backup created)",
            "--- Syncing Extensions (CLI Method) ---",
            "Error syncing extensions: no extensions today",
        ]
    );
    assert!(world.files.contains_key("/b/settings.json"));

    let mut other = World::new();
    let lines = drive(&mut other, |replies| {
        sync_extensions_cli(
            &profile("vscode", "VS Code", "/a/settings.json", "code"),
            &profile("cursor", "Cursor", "/b/settings.json", "cursor"),
            Platform::Linux,
            replies,
            0,
        )
    });
    let (kind, message) = failure_of(lines);
    assert_eq!(kind, ErrorKind::ProcessError);
    assert_eq!(message, "Failed to run 'code'. CLI not found or not installed.");
}

#[test]
fn a_phase_that_fails_does_not_stop_the_others() {
    let mut world = World::new();
    world.put("/a/User/settings.json", "{ broken");
    world.put("/a/User/keybindings.json", "[]");
    world.command("code", &["--list-extensions"], Ok((true, "", "")));
    let source = profile("vscode", "VS Code", "/a/User/settings.json", "code");
    let target = profile("cursor", "Cursor", "/b/User/settings.json", "cursor");
    let result = run(&mut world, &source, &target, options(true, true, true, false, SyncStrategy::Overwrite));
    assert!(!result.success);
    assert_eq!(
        result.log,
        vec![
            "Starting sync from VS Code to Cursor...",
            "Strategy: Overwrite",
            "--- Syncing Settings ---",
            "Error syncing settings: Source file is invalid JSONC",
            "--- Syncing Keybindings ---",
            "Successfully synced /b/User/keybindings.json (Strategy: Overwrite, auto-backup created)",
            "--- Syncing Extensions (CLI Method) ---",
            "Found 0 extensions in VS Code",
            "Extensions sync completed.",
        ]
    );
    assert!(!world.files.contains_key("/b/User/settings.json"));
    assert_eq!(world.files.get("/b/User/keybindings.json").map(String::as_str), Some("[]"));
}

#[test]
fn missing_keybindings_are_passed_over_without_failure() {
    let mut world = World::new();
    world.put("/a/User/settings.json", "{}");
    let source = profile("vscode", "VS Code", "/a/User/settings.json", "code");
    let target = profile("cursor", "Cursor", "/b/User/settings.json", "cursor");
    let result = run(&mut world, &source, &target, options(false, true, false, false, SyncStrategy::Merge));
    assert!(result.success);
    assert_eq!(
        result.log,
        vec![
            "Starting sync from VS Code to Cursor...",
            "Strategy: Merge",
            "--- Syncing Keybindings ---",
            "Source keybindings.json not found, skipping.",
        ]
    );
    assert_eq!(world.asked, vec!["Exists(\"/a/User/keybindings.json\")".to_string()]);
}

#[test]
fn a_run_without_phases_only_opens_the_log() {
    let mut world = World::new();
    let source = profile("vscode", "VS Code", "/a/settings.json", "code");
    let target = profile("cursor", "Cursor", "/b/settings.json", "cursor");
    let result = run(&mut world, &source, &target, options(false, false, false, false, SyncStrategy::Overwrite));
    assert!(result.success);
    assert_eq!(result.log, vec!["Starting sync from VS Code to Cursor...", "Strategy: Overwrite"]);
    assert!(world.asked.is_empty());
}

#[test]
fn a_dry_run_of_all_phases_changes_nothing() {
    let mut world = World::new();
    world.put("/a/User/settings.json", "{\"a\":1}");
    world.put("/a/User/keybindings.json", "[1]");
    world.put("/b/User/settings.json", "{\"b\":2}");
    world.put("/b/User/keybindings.json", "[2]");
    let before = world.files.clone();
    let source = profile("vscode", "VS Code", "/a/User/settings.json", "code");
    let target = profile("cursor", "Cursor", "/b/User/settings.json", "cursor");
    let result = run(&mut world, &source, &target, options(true, true, true, true, SyncStrategy::Merge));
    assert!(result.success);
    assert_eq!(
        result.log,
        vec![
            "Starting sync from VS Code to Cursor...",
            "Strategy: Merge",
            "--- Syncing Settings ---",
            "[Dry Run] Would write to /b/User/settings.json (Strategy: Merge)",
            "--- Syncing Keybindings ---",
            "[Dry Run] Would write to /b/User/keybindings.json (Strategy: Merge)",
            "--- Syncing Extensions (CLI Method) ---",
            "[Dry Run] Would run extension install commands.",
        ]
    );
    assert_eq!(world.files, before);
    assert!(world.asked.iter().all(|asked| asked.starts_with("ReadText") || asked.starts_with("Exists")));
}

#[test]
fn a_dry_run_still_fails_on_a_source_that_is_no_document() {
    let mut world = World::new();
    world.put("/a/settings.json", "{ broken");
    let source = profile("vscode", "VS Code", "/a/settings.json", "code");
    let target = profile("cursor", "Cursor", "/b/settings.json", "cursor");
    let result = run(&mut world, &source, &target, options(true, false, false, true, SyncStrategy::Overwrite));
    assert!(!result.success);
    assert_eq!(result.log[3], "Error syncing settings: Source file is invalid JSONC");
}

#[test]
fn command_of_an_editor_is_its_bundle_on_macos_where_that_exists() {
    let mut world = World::new();
    let bare = drive(&mut world, |replies| get_cli_path("cursor", Platform::MacOs, replies, 0));
    assert_eq!(bare, "cursor");
    assert_eq!(
        world.asked,
        vec!["Exists(\"/Applications/Cursor.app/Contents/Resources/app/bin/cursor\")".to_string()]
    );
    world.put("/Applications/Cursor.app/Contents/Resources/app/bin/cursor", "");
    let bundled = drive(&mut world, |replies| get_cli_path("cursor", Platform::MacOs, replies, 0));
    assert_eq!(bundled, "/Applications/Cursor.app/Contents/Resources/app/bin/cursor");

    world.asked.clear();
    let unknown = drive(&mut world, |replies| get_cli_path("emacs", Platform::MacOs, replies, 0));
    assert_eq!(unknown, "emacs");
    assert!(world.asked.is_empty());
}

#[test]
fn command_of_an_editor_on_linux_is_its_name() {
    let mut world = World::new();
    let path = drive(&mut world, |replies| get_cli_path("code", Platform::Linux, replies, 0));
    assert_eq!(path, "code");
    assert!(world.asked.is_empty());
}

#[test]
fn command_of_an_editor_on_windows_is_the_first_place_that_exists() {
    let mut world = World::new();
    let without = drive(&mut world, |replies| get_cli_path("code", Platform::Windows, replies, 0));
    assert_eq!(without, "code");
    assert_eq!(world.asked, vec!["LocalDataDir".to_string()]);

    world.local_data = Some("C:\\Users\\u\\AppData\\Local".to_string());
    world.asked.clear();
    let missing = drive(&mut world, |replies| get_cli_path("code", Platform::Windows, replies, 0));
    assert_eq!(missing, "code");
    assert_eq!(world.asked.len(), 3);

    world.put("C:/Program Files/Microsoft VS Code/bin/code.cmd", "");
    let second = drive(&mut world, |replies| get_cli_path("code", Platform::Windows, replies, 0));
    assert_eq!(second, "C:/Program Files/Microsoft VS Code/bin/code.cmd");

    world.put("C:\\Users\\u\\AppData\\Local\\Programs/Microsoft VS Code/bin/code.cmd", "");
    let first = drive(&mut world, |replies| get_cli_path("code", Platform::Windows, replies, 0));
    assert_eq!(first, "C:\\Users\\u\\AppData\\Local\\Programs/Microsoft VS Code/bin/code.cmd");

    world.put("C:\\Users\\u\\AppData\\Local\\cursor/Cursor.exe", "");
    let cursor = drive(&mut world, |replies| get_cli_path("cursor", Platform::Windows, replies, 0));
    assert_eq!(cursor, "C:\\Users\\u\\AppData\\Local\\cursor/Cursor.exe");

    world.asked.clear();
    let other = drive(&mut world, |replies| get_cli_path("kiro", Platform::Windows, replies, 0));
    assert_eq!(other, "kiro");
    assert_eq!(world.asked, vec!["LocalDataDir".to_string()]);
}

#[test]
fn discovery_finds_the_editors_whose_settings_exist() {
    let mut world = World::new();
    world.put("/home/u/.config/Cursor/User/settings.json", "{}");
    world.put("/home/u/.config/Code - OSS/User/settings.json", "{}");
    let found = drive(&mut world, |replies| get_default_ides(Platform::Linux, replies, 0)).unwrap();
    assert_eq!(found.len(), 2);
    assert_eq!(found[0].id, "cursor");
    assert_eq!(found[0].name, "Cursor");
    assert_eq!(found[0].ide_type, IdeType::Cursor);
    assert_eq!(found[0].config_path, "/home/u/.config/Cursor/User/settings.json");
    assert_eq!(found[0].extensions_path, "/home/u/.cursor/extensions");
    assert_eq!(found[0].executable, "cursor");
    assert!(found[0].is_detected);
    assert_eq!(found[1].id, "code-oss");
    assert_eq!(found[1].extensions_path, "/home/u/.vscode-oss/extensions");
    assert_eq!(world.asked.len(), 1 + KNOWN_IDES);
    assert_eq!(find_profile(&found, "code-oss"), Some(1));
    assert_eq!(find_profile(&found, "vscode"), None);
}

#[test]
fn discovery_looks_below_the_platform_s_directories() {
    let mut world = World::new();
    world.home = Some("/Users/u".to_string());
    world.put("/Users/u/Library/Application Support/Code/User/settings.json", "{}");
    let found = drive(&mut world, |replies| get_default_ides(Platform::MacOs, replies, 0)).unwrap();
    assert_eq!(found.len(), 1);
    assert_eq!(found[0].id, "vscode");

    let mut windows = World::new();
    windows.home = Some("C:\\Users\\u".to_string());
    windows.put("C:\\Users\\u\\AppData/Roaming\\Kiro/User/settings.json", "{}");
    let found = drive(&mut windows, |replies| get_default_ides(Platform::Windows, replies, 0)).unwrap();
    assert_eq!(found.len(), 1);
    assert_eq!(found[0].id, "kiro");
    assert_eq!(found[0].extensions_path, "C:\\Users\\u\\.kiro/extensions");

    windows.data = Some("D:\\Data\\".to_string());
    windows.put("D:\\Data\\Trae/User/settings.json", "{}");
    let found = drive(&mut windows, |replies| get_default_ides(Platform::Windows, replies, 0)).unwrap();
    assert_eq!(found.len(), 1);
    assert_eq!(found[0].id, "trae");
}

#[test]
fn discovery_without_a_home_fails() {
    let mut world = World::new();
    world.home = None;
    let (kind, message) =
        failure_of(drive(&mut world, |replies| get_default_ides(Platform::Linux, replies, 0)));
    assert_eq!((kind, message.as_str()), (ErrorKind::NotFound, "Could not find home directory"));
}

#[test]
fn known_editors_are_thirteen() {
    let ids: Vec<&str> = (0..KNOWN_IDES).map(|i| known_ide(i).id).collect();
    assert_eq!(
        ids,
        vec![
            "vscode", "vscode-insiders", "vscodium", "cursor", "cursor-nightly", "windsurf",
            "antigravity", "kiro", "lingma", "trae", "positron", "codeium", "code-oss",
        ]
    );
    assert_eq!(known_ide(8).name, "Lingma (灵码)");
    assert_eq!(known_ide(1).config_dir, "Code - Insiders/User/settings.json");
    assert_eq!(known_ide(2).executable, "codium");
    assert_eq!(known_ide(12).ide_type, IdeType::CodeOSS);
}

#[test]
fn an_install_that_cannot_start_leaves_a_line_that_names_the_extension() {
    let mut world = World::new();
    world.command("code", &["--list-extensions"], Ok((true, "a.b\nc.d\n", "")));
    world.command("cursor", &["--install-extension", "a.b"], Ok((true, "", "")));
    world.command("cursor", &["--install-extension", "c.d"], Err("boom"));
    let source = profile("vscode", "VS Code", "/a/settings.json", "code");
    let target = profile("cursor", "Cursor", "/b/settings.json", "cursor");
    let result = run(&mut world, &source, &target, options(false, false, true, false, SyncStrategy::Overwrite));
    assert!(result.success);
    assert_eq!(
        result.log,
        vec![
            "Starting sync from VS Code to Cursor...",
            "Strategy: Overwrite",
            "--- Syncing Extensions (CLI Method) ---",
            "Found 2 extensions in VS Code",
            "Installing a.b on Cursor...",
            "Installing c.d on Cursor...",
            "Failed to install c.d: boom",
            "Extensions sync completed.",
        ]
    );
    assert!(!result.log.iter().any(|line| line.starts_with("Failed to install a.b")));
}

#[test]
fn a_target_that_vanishes_before_it_is_read_is_not_found() {
    let replies = vec![
        Reply::Content(Ok("{}".to_string())),
        Reply::Flag(true),
        Reply::Content(Err(ReadFailure { missing: true, message: "gone".to_string() })),
    ];
    match sync_file("/s", "/t", false, SyncStrategy::Merge, "a", "b", "settings", &replies, 0) {
        Turn::Done(Err(error), next) => {
            assert_eq!(error.kind, ErrorKind::NotFound);
            assert_eq!(error.message, "Failed to read target: gone");
            assert_eq!(next, 3);
        }
        _ => panic!("expected a failure"),
    }
}

#[test]
fn a_dry_run_of_the_settings_by_merge_succeeds_and_leaves_the_target() {
    let mut world = World::new();
    world.put("/a/User/settings.json", "{\"a\":1} // source");
    world.put("/b/User/settings.json", "{\"b\":2}");
    let before = world.files.clone();
    let source = profile("vscode", "VS Code", "/a/User/settings.json", "code");
    let target = profile("cursor", "Cursor", "/b/User/settings.json", "cursor");
    let result = run(&mut world, &source, &target, options(true, false, false, true, SyncStrategy::Merge));
    assert!(result.success);
    assert_eq!(
        result.log,
        vec![
            "Starting sync from VS Code to Cursor...",
            "Strategy: Merge",
            "--- Syncing Settings ---",
            "[Dry Run] Would write to /b/User/settings.json (Strategy: Merge)",
        ]
    );
    assert_eq!(world.files, before);
    assert_eq!(
        world.asked,
        vec![
            "ReadText(\"/a/User/settings.json\")".to_string(),
            "Exists(\"/b/User/settings.json\")".to_string(),
            "ReadText(\"/b/User/settings.json\")".to_string(),
        ]
    );
}
