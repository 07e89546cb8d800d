use alvr_dashboard::{
    InstallationInfo, InstallerActor, PROGRESS_FULL, Phase, Progress, ReleaseChannelsInfo,
    ReleaseInfo, UiMessage, WorkerMessage,
};

fn release(version: &str, asset: &str, url: &str) -> ReleaseInfo {
    let mut r = ReleaseInfo::new(version.to_string());
    r.insert_asset(asset.to_string(), url.to_string());
    r
}

fn progress(message: &str, thousandths: u16) -> Progress {
    Progress::new(message.to_string(), thousandths).unwrap()
}

fn drain(actor: &mut InstallerActor) -> Vec<WorkerMessage> {
    let mut v = Vec::new();
    while let Some(m) = actor.poll_reply() {
        v.push(m);
    }
    v
}

#[test]
fn progress_must_be_meaningful() {
    assert!(Progress::new(String::new(), 0).is_none());
    assert!(Progress::new("x".to_string(), PROGRESS_FULL + 1).is_none());
    let p = progress("Downloading", PROGRESS_FULL);
    assert_eq!(p.message(), "Downloading");
    assert_eq!(p.progress(), 1000);
    assert_eq!(progress("Starting", 0).progress(), 0);
}

#[test]
fn empty_reply_poll_returns_nothing() {
    let mut actor = InstallerActor::new();
    assert!(actor.poll_reply().is_none());
    assert!(actor.poll_reply().is_none());
    assert_eq!(actor.phase(), Phase::Idle);
    assert!(actor.start_next().is_none());
    assert_eq!(actor.phase(), Phase::Idle);
}

#[test]
fn commands_run_in_submission_order_until_quit() {
    let mut actor = InstallerActor::new();
    let x = release("20.1.0", "win", "url1");
    let y = release("20.2.0", "apk", "url2");
    actor.submit(UiMessage::InstallServer { release_info: x, session_version: None });
    actor.submit(UiMessage::InstallClient(y));
    actor.submit(UiMessage::Quit);

    let first = actor.start_next().unwrap();
    assert!(matches!(first, UiMessage::InstallServer { ref release_info, .. } if release_info.version() == "20.1.0"));
    assert_eq!(actor.phase(), Phase::Working);
    actor.report_progress(progress("Downloading server", 500));
    actor.finish(Ok(()));
    assert_eq!(
        drain(&mut actor),
        vec![WorkerMessage::ProgressUpdate(progress("Downloading server", 500)), WorkerMessage::Done]
    );

    let second = actor.start_next().unwrap();
    assert!(matches!(second, UiMessage::InstallClient(ref r) if r.version() == "20.2.0"));
    actor.finish(Err("no device".to_string()));
    assert_eq!(drain(&mut actor), vec![WorkerMessage::Error("no device".to_string())]);

    assert!(actor.start_next().is_none());
    assert_eq!(actor.phase(), Phase::Stopped);
    actor.submit(UiMessage::InstallClient(release("20.3.0", "apk", "url3")));
    assert!(actor.start_next().is_none());
    assert!(actor.poll_reply().is_none());
}

#[test]
fn quit_first_starts_nothing() {
    let mut actor = InstallerActor::new();
    actor.submit(UiMessage::Quit);
    actor.submit(UiMessage::InstallClient(release("20.1.0", "apk", "url1")));
    assert!(actor.start_next().is_none());
    assert_eq!(actor.phase(), Phase::Stopped);
    assert!(actor.start_next().is_none());
}

#[test]
fn install_server_end_to_end() {
    let mut actor = InstallerActor::new();
    actor.submit(UiMessage::InstallServer {
        release_info: release("20.1.0", "win", "url1"),
        session_version: None,
    });
    let cmd = actor.start_next().unwrap();
    match cmd {
        UiMessage::InstallServer { release_info, session_version } => {
            assert_eq!(release_info.asset(&"win".to_string()), Some(&"url1".to_string()));
            assert_eq!(session_version, None);
        }
        _ => panic!("unexpected command"),
    }
    actor.report_progress(progress("Downloading", 100));
    actor.report_progress(progress("Extracting", 900));
    actor.finish(Ok(()));
    let replies = drain(&mut actor);
    assert_eq!(replies.len(), 3);
    assert!(matches!(replies[0], WorkerMessage::ProgressUpdate(_)));
    assert!(matches!(replies[1], WorkerMessage::ProgressUpdate(_)));
    assert_eq!(replies[2], WorkerMessage::Done);
    for m in &replies {
        if let WorkerMessage::ProgressUpdate(p) = m {
            assert!(!p.message().is_empty());
            assert!(p.progress() <= PROGRESS_FULL);
        }
    }
    // nothing more until a new command is submitted
    assert!(actor.start_next().is_none());
    assert!(actor.poll_reply().is_none());
}

#[test]
fn release_channels_are_published_outside_commands() {
    let mut actor = InstallerActor::new();
    let info = ReleaseChannelsInfo {
        stable: vec![release("20.1.0", "win", "url1")],
        nightly: vec![],
    };
    actor.publish_channels(info);
    match actor.poll_reply() {
        Some(WorkerMessage::ReleaseChannelsInfo(c)) => {
            assert_eq!(c.stable.len(), 1);
            assert!(c.nightly.is_empty());
        }
        _ => panic!("expected the release channels"),
    }
    assert_eq!(actor.phase(), Phase::Idle);
    let installed = InstallationInfo {
        version: "20.1.0".to_string(),
        is_apk_downloaded: false,
        has_session_json: true,
    };
    assert_eq!(installed.version, "20.1.0");
}
