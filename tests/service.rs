use fuzz::artist::Artist;
use fuzz::convert::{
    conversion_args, conversion_response, environment, judge_exit, program, watch_step, ToolExit,
    ToolPoll, WatchStep, TOOL_LIMIT_MS,
};
use fuzz::error::ServiceError;
use fuzz::ingest::{field_role, FieldRole, Ingest};
use fuzz::paths::{decimal_text, download_target, is_safe_fragment, plan_storage, response_body};

const ALL: [Artist; 5] = [
    Artist::Cat,
    Artist::MaoBuYi,
    Artist::WangFei,
    Artist::DuiZhang,
    Artist::XiaoXiao,
];

#[test]
fn model_paths() {
    assert_eq!(Artist::Cat.model(), "models/cat/G_2875.pth");
    assert_eq!(Artist::MaoBuYi.model(), "models/maobuyi/G_3458.pth");
    assert_eq!(Artist::WangFei.model(), "models/wf/G_4788.pth");
    assert_eq!(Artist::DuiZhang.model(), "models/dz/G_5229.pth");
    assert_eq!(Artist::XiaoXiao.model(), "models/xx/G_2199.pth");
}

#[test]
fn config_paths() {
    assert_eq!(Artist::Cat.config(), "models/cat/config.json");
    assert_eq!(Artist::MaoBuYi.config(), "models/maobuyi/config.json");
    assert_eq!(Artist::WangFei.config(), "models/wf/config.json");
    assert_eq!(Artist::DuiZhang.config(), "models/dz/config.json");
    assert_eq!(Artist::XiaoXiao.config(), "models/xx/config.json");
}

#[test]
fn every_known_key_resolves_to_its_profile() {
    for a in ALL {
        let r = Artist::resolve(a.key());
        assert_eq!(r, Ok(a));
        assert!(!a.model().is_empty());
        assert!(!a.config().is_empty());
    }
    assert_eq!(Artist::resolve("mb"), Ok(Artist::MaoBuYi));
}

#[test]
fn unknown_keys_are_errors() {
    for k in ["", "Cat", "cats", "c", "xyz", "wf ", "ｃat"] {
        assert_eq!(Artist::resolve(k), Err(ServiceError::UnknownArtist));
    }
}

#[test]
fn status_codes() {
    assert_eq!(ServiceError::UnknownArtist.status_code(), 400);
    assert_eq!(ServiceError::EmptyPayload.status_code(), 400);
    assert_eq!(ServiceError::InvalidPath.status_code(), 400);
    assert_eq!(ServiceError::NotFound.status_code(), 404);
    assert_eq!(ServiceError::StorageFailure.status_code(), 500);
    assert_eq!(ServiceError::ConversionFailed.status_code(), 502);
    assert_eq!(ServiceError::ConversionTimeout.status_code(), 502);
}

#[test]
fn decimal_notation() {
    assert_eq!(decimal_text(0), "0");
    assert_eq!(decimal_text(7), "7");
    assert_eq!(decimal_text(10), "10");
    assert_eq!(decimal_text(1234), "1234");
    assert_eq!(decimal_text(u64::MAX), "18446744073709551615");
}

#[test]
fn fragment_safety() {
    assert!(is_safe_fragment(""));
    assert!(is_safe_fragment("song.wav"));
    assert!(is_safe_fragment("my song..wav"));
    assert!(is_safe_fragment("..."));
    assert!(!is_safe_fragment("."));
    assert!(!is_safe_fragment(".."));
    assert!(!is_safe_fragment("../etc/passwd"));
    assert!(!is_safe_fragment("/etc/passwd"));
    assert!(!is_safe_fragment("a\\b"));
    assert!(!is_safe_fragment("tab\there"));
    assert!(!is_safe_fragment("é"));
}

#[test]
fn storage_paths() {
    let (input, output) = plan_storage(Artist::Cat, 7, "song").unwrap();
    assert_eq!(input, "upload/cat_7_song");
    assert_eq!(output, "download/cat_7_song");
    let (input, output) = plan_storage(Artist::XiaoXiao, 120, "").unwrap();
    assert_eq!(input, "upload/xx_120_");
    assert_eq!(output, "download/xx_120_");
}

#[test]
fn traversal_fragment_is_invalid_path() {
    for f in ["../x", "..", "a/../../b", "/abs", "."] {
        assert_eq!(plan_storage(Artist::WangFei, 1, f), Err(ServiceError::InvalidPath));
    }
}

#[test]
fn distinct_names_get_distinct_paths() {
    let a = plan_storage(Artist::Cat, 1, "a").unwrap();
    let b = plan_storage(Artist::Cat, 1, "b").unwrap();
    assert_ne!(a.0, b.0);
    assert_ne!(a.1, b.1);
    let c = plan_storage(Artist::Cat, 11, "x").unwrap();
    let d = plan_storage(Artist::Cat, 1, "1_x").unwrap();
    assert_ne!(c.0, d.0);
}

#[test]
fn same_name_in_two_requests_gets_two_paths() {
    let a = plan_storage(Artist::DuiZhang, 41, "take").unwrap();
    let b = plan_storage(Artist::DuiZhang, 42, "take").unwrap();
    assert_ne!(a.0, b.0);
    assert_ne!(a.1, b.1);
}

#[test]
fn download_targets() {
    assert_eq!(download_target("cat_7_song"), Ok("download/cat_7_song".to_string()));
    assert_eq!(download_target(""), Err(ServiceError::InvalidPath));
    assert_eq!(download_target(".."), Err(ServiceError::InvalidPath));
    assert_eq!(download_target("../upload/x"), Err(ServiceError::InvalidPath));
}

#[test]
fn response_body_is_absolute() {
    assert_eq!(response_body("download/cat_7_song"), "/download/cat_7_song");
}

#[test]
fn field_roles() {
    assert_eq!(field_role("source"), FieldRole::Payload);
    assert_eq!(field_role("name"), FieldRole::Name);
    assert_eq!(field_role("Source"), FieldRole::Ignored);
    assert_eq!(field_role("other"), FieldRole::Ignored);
}

#[test]
fn ingest_collects_payload_and_name() {
    let mut ing = Ingest::new();
    ing.accept("source", &[1, 2, 3]);
    ing.accept("comment", b"ignored");
    ing.accept("name", b"so");
    ing.accept("source", &[4]);
    ing.accept("name", b"ng");
    assert_eq!(ing.payload_len(), 4);
    let up = ing.finish("cat", 5).unwrap();
    assert_eq!(up.artist, Artist::Cat);
    assert_eq!(up.payload, vec![1, 2, 3, 4]);
    assert_eq!(up.input, "upload/cat_5_song");
    assert_eq!(up.output, "download/cat_5_song");
}

#[test]
fn empty_upload_is_refused() {
    let mut ing = Ingest::new();
    ing.accept("name", b"song");
    ing.accept("source", &[]);
    let e = ing.finish("cat", 1).unwrap_err();
    assert_eq!(e, ServiceError::EmptyPayload);
    assert_eq!(e.status_code(), 400);
    assert_eq!(Ingest::new().finish("wf", 2).unwrap_err(), ServiceError::EmptyPayload);
}

#[test]
fn upload_to_unknown_artist_is_refused() {
    let mut ing = Ingest::new();
    ing.accept("source", &[9]);
    assert_eq!(ing.finish("nobody", 1).unwrap_err(), ServiceError::UnknownArtist);
}

#[test]
fn traversal_name_field_is_refused() {
    let mut ing = Ingest::new();
    ing.accept("source", &[9]);
    ing.accept("name", b"../../etc/passwd");
    assert_eq!(ing.finish("cat", 1).unwrap_err(), ServiceError::InvalidPath);
}

#[test]
fn invalid_utf8_in_name_is_decoded_lossily() {
    let mut ing = Ingest::new();
    ing.accept("source", &[9]);
    ing.accept("name", &[0x61, 0xff]);
    // the replacement character is not ASCII, so the name is refused
    assert_eq!(ing.finish("cat", 1).unwrap_err(), ServiceError::InvalidPath);
}

#[test]
fn tool_invocation() {
    assert_eq!(program(), "svc");
    assert_eq!(environment(), ("PYTORCH_ENABLE_MPS_FALLBACK", "1"));
    let args = conversion_args(Artist::WangFei, "upload/wf_1_a", "download/wf_1_a");
    assert_eq!(
        args,
        vec![
            "infer",
            "-m",
            "models/wf/G_4788.pth",
            "-c",
            "models/wf/config.json",
            "-o",
            "download/wf_1_a",
            "upload/wf_1_a",
        ]
    );
}

#[test]
fn exit_judgement() {
    assert_eq!(judge_exit(ToolExit::Exited(0)), Ok(()));
    assert_eq!(judge_exit(ToolExit::Exited(1)), Err(ServiceError::ConversionFailed));
    assert_eq!(judge_exit(ToolExit::Exited(-3)), Err(ServiceError::ConversionFailed));
    assert_eq!(judge_exit(ToolExit::Signalled), Err(ServiceError::ConversionFailed));
    assert_eq!(judge_exit(ToolExit::SpawnFailed), Err(ServiceError::ConversionFailed));
    assert_eq!(judge_exit(ToolExit::WaitFailed), Err(ServiceError::ConversionFailed));
    assert_eq!(judge_exit(ToolExit::TimedOut), Err(ServiceError::ConversionTimeout));
    assert_eq!(
        conversion_response(ToolExit::TimedOut, "download/x").unwrap_err().status_code(),
        502
    );
    assert_eq!(
        conversion_response(ToolExit::Exited(2), "download/x"),
        Err(ServiceError::ConversionFailed)
    );
}

#[test]
fn response_path_downloads_the_output() {
    let mut ing = Ingest::new();
    ing.accept("source", b"RIFF....");
    ing.accept("name", b"voice.wav");
    let up = ing.finish("mb", 99).unwrap();
    let body = conversion_response(ToolExit::Exited(0), &up.output).unwrap();
    assert_eq!(body, "/download/mb_99_voice.wav");
    let segment = body.strip_prefix("/download/").unwrap();
    assert_eq!(download_target(segment), Ok(up.output.clone()));
}

#[test]
fn watcher_kills_a_run_past_the_limit() {
    assert_eq!(TOOL_LIMIT_MS, 600000);
    assert_eq!(watch_step(ToolPoll::Running, 0), WatchStep::Wait);
    assert_eq!(watch_step(ToolPoll::Running, 599999), WatchStep::Wait);
    assert_eq!(watch_step(ToolPoll::Running, 600000), WatchStep::Kill);
    assert_eq!(watch_step(ToolPoll::Running, u64::MAX), WatchStep::Kill);
    assert_eq!(
        watch_step(ToolPoll::Exited(0), 700000),
        WatchStep::Finish(ToolExit::Exited(0))
    );
    assert_eq!(watch_step(ToolPoll::Exited(3), 5), WatchStep::Finish(ToolExit::Exited(3)));
    assert_eq!(watch_step(ToolPoll::Signalled, 5), WatchStep::Finish(ToolExit::Signalled));
    assert_eq!(watch_step(ToolPoll::Failed, 5), WatchStep::Finish(ToolExit::WaitFailed));
}
