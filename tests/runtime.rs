use kappa_container::arch::map_architecture;
use kappa_container::cgroup::{
    cgroup_path, cgroup_setup_writes, cleanup_result, kill_targets, parse_pids, CgroupError,
    CgroupLimits, RemoveOutcome,
};
use kappa_container::image::{has_tag, ImageError, ImageReference};
use kappa_container::registry::{
    bearer, blob_url, download_plan, layers_dir, manifest_accept, manifest_url, read_manifest,
    read_token, resolve_manifest, token_url, ImageManifest, ManifestDocument, PlatformEntry,
    PullError, Resolution, TokenResponse,
};
use kappa_container::pull::{PullAction, PullEvent, PullPhase, PullSession};
use kappa_container::run::{
    command_env, container_hostname, exit_code, first_stage, next_stage, rootfs_path,
    validate_run, RunError, Stage, Step, StepEvent,
};
use kappa_container::text::str_eq;

fn parsed(s: &str) -> ImageReference {
    match ImageReference::parse(s) {
        Ok(img) => img,
        Err(e) => panic!("{:?}", e),
    }
}

fn strings(v: &[&str]) -> Vec<String> {
    v.iter().map(|s| s.to_string()).collect()
}

#[test]
fn architecture_mapping() {
    assert_eq!(map_architecture("x86_64"), "amd64");
    assert_eq!(map_architecture("aarch64"), "arm64v8");
    assert_eq!(map_architecture("armv7l"), "arm32v7");
    assert_eq!(map_architecture("armv6l"), "arm32v6");
    assert_eq!(map_architecture("armv5l"), "arm32v5");
    assert_eq!(map_architecture("ppc64le"), "ppc64le");
    assert_eq!(map_architecture("s390x"), "s390x");
    assert_eq!(map_architecture("mips64"), "mips64le");
    assert_eq!(map_architecture("riscv64"), "riscv64");
    assert_eq!(map_architecture("i686"), "i386");
    assert_eq!(map_architecture("sparc64"), "unknown");
    assert_eq!(map_architecture(""), "unknown");
}

#[test]
fn string_equality() {
    assert!(str_eq("abc", "abc"));
    assert!(!str_eq("abc", "abd"));
    assert!(!str_eq("abc", "ab"));
    assert!(str_eq("", ""));
}

#[test]
fn parse_without_slash_uses_library() {
    let img = parsed("nginx");
    assert_eq!(img.namespace, "library");
    assert_eq!(img.repository, "nginx");
    assert_eq!(img.tag, "latest");
    let img = parsed("busybox:1.0");
    assert_eq!(img.namespace, "library");
    assert_eq!(img.repository, "busybox");
    assert_eq!(img.tag, "1.0");
}

#[test]
fn parse_nested_repository_with_tag() {
    let img = parsed("a/b/c:tag");
    assert_eq!(img.namespace, "a");
    assert_eq!(img.repository, "b/c");
    assert_eq!(img.tag, "tag");
    let img = parsed("a/b/c");
    assert_eq!(img.namespace, "a");
    assert_eq!(img.repository, "b/c");
    assert_eq!(img.tag, "latest");
    let img = parsed("library/nginx:latest");
    assert_eq!(img.namespace, "library");
    assert_eq!(img.repository, "nginx");
    assert_eq!(img.tag, "latest");
}

#[test]
fn parse_rejects_empty_parts() {
    assert!(matches!(ImageReference::parse(""), Err(ImageError::EmptyRepository)));
    assert!(matches!(ImageReference::parse(":1.0"), Err(ImageError::EmptyRepository)));
    assert!(matches!(ImageReference::parse("/nginx"), Err(ImageError::EmptyNamespace)));
    assert!(matches!(ImageReference::parse("nginx:"), Err(ImageError::EmptyTag)));
}

#[test]
fn tag_detection() {
    assert!(has_tag("busybox:1.0"));
    assert!(has_tag("a/b:c"));
    assert!(!has_tag("busybox"));
    assert!(!has_tag("host:5000/busybox"));
}

#[test]
fn run_without_tag_is_refused() {
    let params = strings(&["echo", "hello"]);
    assert!(matches!(validate_run(&params, "busybox"), Err(RunError::MissingTag)));
    assert!(matches!(validate_run(&Vec::new(), "busybox"), Err(RunError::MissingTag)));
}

#[test]
fn run_without_command_is_refused() {
    assert!(matches!(validate_run(&Vec::new(), "busybox:1.0"), Err(RunError::EmptyCommand)));
}

#[test]
fn run_with_bad_image_is_refused() {
    let params = strings(&["ls"]);
    assert!(matches!(
        validate_run(&params, "busybox:"),
        Err(RunError::InvalidImage(ImageError::EmptyTag))
    ));
}

#[test]
fn run_request_is_split() {
    let params = strings(&["echo", "hello", "world"]);
    let req = validate_run(&params, "busybox:1.0").unwrap();
    assert_eq!(req.command, "echo");
    assert_eq!(req.args, strings(&["hello", "world"]));
    assert_eq!(req.image.repository, "busybox");
    assert_eq!(req.image.tag, "1.0");
    assert_eq!(rootfs_path("/var/lib/kappa-container/images", &req.image),
        "/var/lib/kappa-container/images/busybox/1.0");
}

#[test]
fn environment_and_hostname() {
    let env = command_env();
    assert_eq!(env.len(), 3);
    assert_eq!(env[0].name, "PATH");
    assert_eq!(env[0].value, "/usr/local/sbin:/usr/local/bin:/usr/sbin:/usr/bin:/sbin:/bin");
    assert_eq!(env[1].name, "TERM");
    assert_eq!(env[1].value, "xterm");
    assert_eq!(env[2].name, "HOME");
    assert_eq!(env[2].value, "/root");
    assert_eq!(container_hostname(), "container");
}

#[test]
fn cgroup_paths_and_writes() {
    assert_eq!(cgroup_path(1700000000), "/sys/fs/cgroup/kappa-1700000000");
    assert_eq!(cgroup_path(0), "/sys/fs/cgroup/kappa-0");
    assert_eq!(cgroup_path(u64::MAX), "/sys/fs/cgroup/kappa-18446744073709551615");
    let limits = CgroupLimits::default_limits();
    assert_eq!(limits.memory_max, "20M");
    assert_eq!(limits.pids_max, "20");
    let w = cgroup_setup_writes("/sys/fs/cgroup/kappa-7", &limits, 1234);
    assert_eq!(w.len(), 3);
    assert_eq!(w[0].file, "/sys/fs/cgroup/kappa-7/memory.max");
    assert_eq!(w[0].contents, "20M");
    assert_eq!(w[1].file, "/sys/fs/cgroup/kappa-7/pids.max");
    assert_eq!(w[1].contents, "20");
    assert_eq!(w[2].file, "/sys/fs/cgroup/kappa-7/cgroup.procs");
    assert_eq!(w[2].contents, "1234");
}

#[test]
fn pid_list_parsing() {
    assert_eq!(parse_pids("12\n34\n"), vec![12, 34]);
    assert_eq!(parse_pids(""), Vec::<i32>::new());
    assert_eq!(parse_pids("  7 x 0 2147483648 -5 +3 9"), vec![7, 9]);
    assert_eq!(parse_pids("2147483647\t\r\n1"), vec![2147483647, 1]);
    assert_eq!(parse_pids("007"), vec![7]);
}

#[test]
fn cleanup_is_idempotent() {
    // first teardown removes the directory, the second finds it gone
    assert_eq!(kill_targets(Some("41\n42\n")), vec![41, 42]);
    assert_eq!(cleanup_result(RemoveOutcome::Removed), Ok(()));
    assert_eq!(kill_targets(None), Vec::<i32>::new());
    assert_eq!(cleanup_result(RemoveOutcome::AlreadyAbsent), Ok(()));
    assert_eq!(cleanup_result(RemoveOutcome::AlreadyAbsent), Ok(()));
    assert_eq!(cleanup_result(RemoveOutcome::Failed), Err(CgroupError::RemoveFailed));
}

fn drive(events: &[StepEvent]) -> Stage {
    let mut stage = first_stage();
    for ev in events {
        stage = next_stage(stage, *ev);
    }
    stage
}

#[test]
fn lifecycle_success_exits_zero() {
    let d = StepEvent::Done;
    let evs = [d, d, d, d, d, d, StepEvent::CommandExited(Some(0))];
    assert_eq!(drive(&evs), Stage::Perform(Step::UnmountProc));
    let evs = [d, d, d, d, d, d, StepEvent::CommandExited(Some(0)), d];
    assert_eq!(drive(&evs), Stage::Exit(0));
    assert_eq!(exit_code(drive(&evs)), 0);
}

#[test]
fn lifecycle_steps_in_order() {
    let d = StepEvent::Done;
    assert_eq!(drive(&[]), Stage::Perform(Step::EnrollCgroup));
    assert_eq!(drive(&[d]), Stage::Perform(Step::SetHostname));
    assert_eq!(drive(&[d, d]), Stage::Perform(Step::CheckRoot));
    assert_eq!(drive(&[d, d, d]), Stage::Perform(Step::SwitchRoot));
    assert_eq!(drive(&[d, d, d, d]), Stage::Perform(Step::MountProc));
    assert_eq!(drive(&[d, d, d, d, d]), Stage::Perform(Step::SpawnCommand));
    assert_eq!(drive(&[d, d, d, d, d, d]), Stage::Perform(Step::AwaitCommand));
}

#[test]
fn lifecycle_failing_command_keeps_code() {
    let d = StepEvent::Done;
    let evs = [d, d, d, d, d, d, StepEvent::CommandExited(Some(3)), d];
    assert_eq!(drive(&evs), Stage::Exit(3));
    let evs = [d, d, d, d, d, d, StepEvent::CommandExited(None)];
    assert_eq!(drive(&evs), Stage::Exit(1));
}

#[test]
fn lifecycle_failure_aborts() {
    let d = StepEvent::Done;
    let evs = [d, d, StepEvent::Failed, d, d];
    assert_eq!(drive(&evs), Stage::Abort(Step::CheckRoot));
    assert_eq!(exit_code(drive(&evs)), 1);
    assert_eq!(drive(&[StepEvent::Failed]), Stage::Abort(Step::EnrollCgroup));
    let evs = [d, d, d, d, d, d, StepEvent::Failed];
    assert_eq!(drive(&evs), Stage::Abort(Step::AwaitCommand));
}

#[test]
fn registry_addresses() {
    let img = parsed("library/nginx:latest");
    assert_eq!(
        token_url(&img),
        "https://auth.docker.io/token?service=registry.docker.io&scope=repository:library/nginx:pull"
    );
    assert_eq!(
        manifest_url(&img, "latest"),
        "https://registry-1.docker.io/v2/library/nginx/manifests/latest"
    );
    assert_eq!(
        blob_url(&img, "sha256:abc"),
        "https://registry-1.docker.io/v2/library/nginx/blobs/sha256:abc"
    );
    assert_eq!(bearer("tok"), "Bearer tok");
    assert!(manifest_accept().starts_with("application/vnd.docker.distribution.manifest.list.v2+json,"));
    assert_eq!(layers_dir("nginx"), "nginx_layers");
}

#[test]
fn token_reading() {
    assert_eq!(read_token(TokenResponse { token: Some("abc".to_string()) }), Ok("abc".to_string()));
    assert_eq!(read_token(TokenResponse { token: None }), Err(PullError::MissingToken));
}

fn entry(arch: &str, digest: &str) -> PlatformEntry {
    PlatformEntry { architecture: Some(arch.to_string()), digest: Some(digest.to_string()) }
}

fn list(entries: Vec<PlatformEntry>) -> ManifestDocument {
    ManifestDocument { manifests: Some(entries), config_digest: None, layers: None }
}

fn single(config: Option<&str>, layers: Option<Vec<Option<&str>>>) -> ManifestDocument {
    ManifestDocument {
        manifests: None,
        config_digest: config.map(|c| c.to_string()),
        layers: layers.map(|ls| ls.into_iter().map(|l| l.map(|d| d.to_string())).collect()),
    }
}

#[test]
fn manifest_list_selects_host_architecture() {
    let doc = list(vec![entry("arm64v8", "sha256:arm"), entry("amd64", "sha256:x86"), entry("amd64", "sha256:second")]);
    match resolve_manifest(&doc, "amd64") {
        Ok(Resolution::FetchByDigest(d)) => assert_eq!(d, "sha256:x86"),
        _ => panic!("expected a digest"),
    }
    assert!(matches!(resolve_manifest(&doc, "s390x"), Err(PullError::UnsupportedArchitecture)));
    let doc = list(vec![entry("unknown", "sha256:att")]);
    assert!(matches!(resolve_manifest(&doc, map_architecture("sparc64")), Err(PullError::UnsupportedArchitecture)));
    let doc = list(vec![PlatformEntry { architecture: Some("amd64".to_string()), digest: None }]);
    assert!(matches!(resolve_manifest(&doc, "amd64"), Err(PullError::MissingEntryDigest)));
    let doc = list(vec![PlatformEntry { architecture: None, digest: Some("sha256:x".to_string()) }]);
    assert!(matches!(resolve_manifest(&doc, "amd64"), Err(PullError::UnsupportedArchitecture)));
}

#[test]
fn single_manifest_is_read() {
    let doc = single(Some("sha256:cfg"), Some(vec![Some("sha256:l1"), Some("sha256:l2")]));
    match resolve_manifest(&doc, "amd64") {
        Ok(Resolution::Manifest(m)) => {
            assert_eq!(m.config_digest, "sha256:cfg");
            assert_eq!(m.layers, strings(&["sha256:l1", "sha256:l2"]));
        }
        _ => panic!("expected a manifest"),
    }
    assert!(matches!(read_manifest(&single(None, Some(vec![]))), Err(PullError::MissingConfigDigest)));
    assert!(matches!(read_manifest(&single(Some("c"), None)), Err(PullError::MissingLayers)));
    assert!(matches!(
        read_manifest(&single(Some("c"), Some(vec![Some("a"), None]))),
        Err(PullError::MissingLayerDigest)
    ));
    let m = read_manifest(&single(Some("c"), Some(vec![]))).unwrap();
    assert!(m.layers.is_empty());
}

#[test]
fn pull_of_nginx_plans_config_and_layer() {
    let img = parsed("library/nginx:latest");
    let token = read_token(TokenResponse { token: Some("t0k".to_string()) }).unwrap();
    assert_eq!(bearer(&token), "Bearer t0k");
    let arch = map_architecture("x86_64");
    let first = list(vec![entry(arch, "sha256:m1")]);
    let digest = match resolve_manifest(&first, arch) {
        Ok(Resolution::FetchByDigest(d)) => d,
        _ => panic!("expected a digest"),
    };
    assert_eq!(
        manifest_url(&img, &digest),
        "https://registry-1.docker.io/v2/library/nginx/manifests/sha256:m1"
    );
    let m: ImageManifest = read_manifest(&single(Some("sha256:c0"), Some(vec![Some("sha256:l0")]))).unwrap();
    let plan = download_plan(&img, &m);
    assert_eq!(plan.len(), 2);
    assert_eq!(plan[0].url, "https://registry-1.docker.io/v2/library/nginx/blobs/sha256:c0");
    assert_eq!(plan[0].path, "nginx_config.json");
    assert_eq!(plan[1].url, "https://registry-1.docker.io/v2/library/nginx/blobs/sha256:l0");
    assert_eq!(plan[1].path, "nginx_layers/sha256_l0.tar.gz");
}

fn token_event(t: Option<&str>) -> PullEvent {
    PullEvent::Token(TokenResponse { token: t.map(|t| t.to_string()) })
}

fn expect_manifest_get(a: PullAction) -> (String, String) {
    match a {
        PullAction::GetManifest { url, auth_header } => (url, auth_header),
        _ => panic!("expected a manifest request"),
    }
}

fn expect_fetch(a: PullAction) -> (String, String, String) {
    match a {
        PullAction::Fetch { download, auth_header } => (download.url, download.path, auth_header),
        _ => panic!("expected a blob fetch"),
    }
}

#[test]
fn pull_session_of_nginx_stores_config_and_layer() {
    let img = parsed("library/nginx:latest");
    let arch = map_architecture("x86_64");
    let (mut s, a) = PullSession::start(img, arch);
    match a {
        PullAction::GetToken { url } => assert_eq!(
            url,
            "https://auth.docker.io/token?service=registry.docker.io&scope=repository:library/nginx:pull"
        ),
        _ => panic!("expected a token request"),
    }
    let (url, auth) = expect_manifest_get(s.step(token_event(Some("t0k"))));
    assert_eq!(url, "https://registry-1.docker.io/v2/library/nginx/manifests/latest");
    assert_eq!(auth, "Bearer t0k");
    let list_doc = list(vec![entry("arm64v8", "sha256:arm"), entry("amd64", "sha256:m1")]);
    let (url, auth) = expect_manifest_get(s.step(PullEvent::Manifest(list_doc)));
    assert_eq!(url, "https://registry-1.docker.io/v2/library/nginx/manifests/sha256:m1");
    assert_eq!(auth, "Bearer t0k");
    let doc = single(Some("sha256:c0"), Some(vec![Some("sha256:l0")]));
    match s.step(PullEvent::Manifest(doc)) {
        PullAction::CreateDir(d) => assert_eq!(d, "nginx_layers"),
        _ => panic!("expected the layer directory"),
    }
    let (url, path, auth) = expect_fetch(s.step(PullEvent::Stored));
    assert_eq!(url, "https://registry-1.docker.io/v2/library/nginx/blobs/sha256:c0");
    assert_eq!(path, "nginx_config.json");
    assert_eq!(auth, "Bearer t0k");
    let (url, path, _) = expect_fetch(s.step(PullEvent::Stored));
    assert_eq!(url, "https://registry-1.docker.io/v2/library/nginx/blobs/sha256:l0");
    assert_eq!(path, "nginx_layers/sha256_l0.tar.gz");
    assert!(matches!(s.step(PullEvent::Stored), PullAction::Finish));
    assert_eq!(s.phase, PullPhase::Done);
    assert_eq!(s.written, 2);
    assert!(matches!(s.step(PullEvent::Stored), PullAction::Finish));
}

#[test]
fn pull_session_single_manifest_skips_digest_fetch() {
    let (mut s, _) = PullSession::start(parsed("busybox"), "amd64");
    expect_manifest_get(s.step(token_event(Some("x"))));
    let doc = single(Some("sha256:c"), Some(vec![]));
    assert!(matches!(s.step(PullEvent::Manifest(doc)), PullAction::CreateDir(_)));
    let (_, path, _) = expect_fetch(s.step(PullEvent::Stored));
    assert_eq!(path, "busybox_config.json");
    assert!(matches!(s.step(PullEvent::Stored), PullAction::Finish));
}

#[test]
fn pull_session_failures() {
    let (mut s, _) = PullSession::start(parsed("nginx"), "amd64");
    assert!(matches!(s.step(token_event(None)), PullAction::Fail(PullError::MissingToken)));
    assert_eq!(s.phase, PullPhase::Failed(PullError::MissingToken));
    assert!(matches!(s.step(token_event(Some("t"))), PullAction::Fail(PullError::MissingToken)));

    let (mut s, _) = PullSession::start(parsed("nginx"), map_architecture("sparc64"));
    expect_manifest_get(s.step(token_event(Some("t"))));
    let doc = list(vec![entry("unknown", "sha256:att"), entry("amd64", "sha256:x")]);
    assert!(matches!(
        s.step(PullEvent::Manifest(doc)),
        PullAction::Fail(PullError::UnsupportedArchitecture)
    ));

    let (mut s, _) = PullSession::start(parsed("nginx"), "amd64");
    assert!(matches!(s.step(PullEvent::Stored), PullAction::Fail(PullError::OutOfOrder)));

    let (mut s, _) = PullSession::start(parsed("nginx"), "amd64");
    expect_manifest_get(s.step(token_event(Some("t"))));
    let doc = list(vec![entry("amd64", "sha256:x")]);
    expect_manifest_get(s.step(PullEvent::Manifest(doc)));
    let doc = single(Some("sha256:c"), None);
    assert!(matches!(s.step(PullEvent::Manifest(doc)), PullAction::Fail(PullError::MissingLayers)));
}
