use speedtest::cli::Args;
use speedtest::clock::{SampleClock, SampleTimes};
use speedtest::keys::{is_quit_key, KeyCode, KeyInput};
use speedtest::servers::{
    group_label, mainland_addresses, overseas_addresses, probe_latency, select_best, MeasurePlan, Probe, Recovery,
    RETRY_DELAY_SECS,
    APPLE_DOWNLOAD_ADDRESS, UNREACHABLE,
};
use speedtest::startup::{check_args, check_url, choose_display, StartupError, UrlParts};
use speedtest::status::is_success_status;
use speedtest::transfer::{
    accepts_response, counts_as_retry, upload_step, BodyEvent, BodyStep, DownloadBody, Failure, UploadStep,
};

fn args(items: &[&str]) -> Args {
    let argv: Vec<String> = items.iter().map(|s| s.to_string()).collect();
    Args::try_parse_from(&argv).unwrap()
}

#[test]
fn group_names_follow_the_flags() {
    assert_eq!(group_label(&args(&["s"])), "国内");
    assert_eq!(group_label(&args(&["s", "--mainland"])), "国内");
    assert_eq!(group_label(&args(&["s", "--overseas"])), "海外");
    assert_eq!(group_label(&args(&["s", "--mainland", "--overseas"])), "国内 + 海外");
    assert_eq!(group_label(&args(&["s", "--overseas", "--url", "http://a"])), "自定义地址");
}

#[test]
fn candidates_for_each_group() {
    let mainland = mainland_addresses();
    let overseas = overseas_addresses();
    assert_eq!(mainland.len(), 9);
    assert_eq!(overseas.len(), 8);

    let plan = MeasurePlan::for_args(&args(&["s"]));
    let mut expected = mainland.clone();
    expected.push(APPLE_DOWNLOAD_ADDRESS.to_string());
    assert_eq!(plan.addresses, expected);
    assert!(plan.probe);
    assert_eq!(plan.upload_workers, 16);
    assert_eq!(plan.download_workers, 16);

    let plan = MeasurePlan::for_args(&args(&["s", "--overseas", "-c", "2"]));
    let mut expected = overseas.clone();
    expected.push(APPLE_DOWNLOAD_ADDRESS.to_string());
    assert_eq!(plan.addresses, expected);
    assert_eq!(plan.upload_workers, 2);

    let plan = MeasurePlan::for_args(&args(&["s", "--overseas", "--mainland"]));
    let mut expected = mainland.clone();
    expected.extend(overseas.clone());
    expected.push(APPLE_DOWNLOAD_ADDRESS.to_string());
    assert_eq!(plan.addresses, expected);
}

#[test]
fn an_address_of_ones_own_is_used_alone() {
    let plan = MeasurePlan::for_args(&args(&["s", "--overseas", "--url", "https://example.com/f", "-c", "3"]));
    assert_eq!(plan.addresses, vec!["https://example.com/f".to_string()]);
    assert!(!plan.probe);
    assert_eq!(plan.upload_workers, 0);
    assert_eq!(plan.download_workers, 3);
}

#[test]
fn probes_record_success_latency() {
    assert_eq!(probe_latency(Some(200), 35), 35);
    assert_eq!(probe_latency(Some(299), 7), 7);
    assert_eq!(probe_latency(Some(302), 35), UNREACHABLE);
    assert_eq!(probe_latency(Some(404), 35), UNREACHABLE);
    assert_eq!(probe_latency(None, 35), UNREACHABLE);
    assert!(is_success_status(204));
    assert!(!is_success_status(199));
}

fn probe(address: &str, latency_ms: u128) -> Probe {
    Probe { address: address.to_string(), latency_ms }
}

#[test]
fn the_quickest_answer_wins() {
    let probes = vec![probe("a", UNREACHABLE), probe("b", 80), probe("c", 40), probe("d", 40), probe("e", 90)];
    assert_eq!(select_best(&probes), Some(2));
    assert_eq!(select_best(&vec![probe("a", UNREACHABLE), probe("b", UNREACHABLE)]), None);
    assert_eq!(select_best(&Vec::new()), None);
    assert_eq!(select_best(&vec![probe("a", 0)]), Some(0));
}

#[test]
fn startup_checks() {
    assert!(matches!(check_args(&args(&["s", "-c", "0"])), Err(StartupError::ZeroConcurrency)));
    assert!(check_args(&args(&["s"])).is_ok());
    assert!(check_args(&args(&["s", "-u", "https://example.com/file.bin"])).is_ok());
    assert!(check_args(&args(&["s", "-u", "HTTP://Example.com"])).is_ok());
    assert!(matches!(check_args(&args(&["s", "-u", "ftp://example.com/x"])), Err(StartupError::NotHttpUrl)));
    match check_args(&args(&["s", "-u", "not a url"])) {
        Err(StartupError::InvalidUrl(text)) => assert_eq!(text, "RelativeUrlWithoutBase"),
        other => panic!("unexpected {other:?}"),
    }
    match check_args(&args(&["s", "-u", "http://"])) {
        Err(StartupError::InvalidUrl(text)) => assert_eq!(text, "EmptyHost"),
        other => panic!("unexpected {other:?}"),
    }
    assert_eq!(StartupError::ZeroConcurrency.message(), "并发数必须大于 0");
    assert_eq!(StartupError::NotHttpUrl.message(), "下载地址必须是有效的 HTTP 或 HTTPS URL");
}

#[test]
fn url_parts_are_judged() {
    let parts = |scheme: &str, host: Option<&str>| UrlParts { scheme: scheme.to_string(), host: host.map(String::from) };
    assert!(check_url(Ok(parts("http", Some("a")))).is_ok());
    assert!(check_url(Ok(parts("https", Some("a")))).is_ok());
    assert!(matches!(check_url(Ok(parts("https", None))), Err(StartupError::NotHttpUrl)));
    assert!(matches!(check_url(Ok(parts("file", Some("a")))), Err(StartupError::NotHttpUrl)));
    assert!(matches!(check_url(Err("bad".to_string())), Err(StartupError::InvalidUrl(t)) if t == "bad"));
}

#[test]
fn display_choice() {
    assert_eq!(choose_display(&args(&["s"]), true).unwrap(), true);
    assert_eq!(choose_display(&args(&["s"]), false).unwrap(), false);
    assert_eq!(choose_display(&args(&["s", "--cli"]), true).unwrap(), false);
    assert_eq!(choose_display(&args(&["s", "--tui"]), true).unwrap(), true);
    let refused = choose_display(&args(&["s", "--tui"]), false);
    assert!(matches!(refused, Err(StartupError::TuiNeedsTerminal)));
    assert_eq!(refused.unwrap_err().message(), "TUI 需要交互终端，请使用 --cli");
}

#[test]
fn download_bodies() {
    assert!(accepts_response(200));
    assert!(accepts_response(304));
    assert!(!accepts_response(404));
    assert!(!accepts_response(503));
    assert!(accepts_response(600));

    let mut body = DownloadBody::new();
    assert_eq!(body.on_event(BodyEvent::Chunk(0)), BodyStep::Count(0));
    assert_eq!(body.on_event(BodyEvent::End), BodyStep::Stop);

    let mut body = DownloadBody::new();
    assert_eq!(body.on_event(BodyEvent::Chunk(512)), BodyStep::Count(512));
    assert_eq!(body.on_event(BodyEvent::Chunk(0)), BodyStep::Count(0));
    assert_eq!(body.on_event(BodyEvent::End), BodyStep::NextRequest);

    let mut body = DownloadBody::new();
    assert_eq!(body.on_event(BodyEvent::Chunk(512)), BodyStep::Count(512));
    assert_eq!(body.on_event(BodyEvent::Failed), BodyStep::Stop);
}

#[test]
fn uploads() {
    assert_eq!(upload_step(Some(200)), UploadStep::SendAgain);
    assert_eq!(upload_step(Some(413)), UploadStep::RetryAfterDelay);
    assert_eq!(upload_step(None), UploadStep::RetryAfterDelay);
}

#[test]
fn only_failed_downloads_are_retries() {
    assert!(counts_as_retry(Failure::DownloadEnded));
    assert!(!counts_as_retry(Failure::UploadFailed));
}

#[test]
fn samples_once_a_second_after_the_address_is_known() {
    let second = 1_000_000_000u64;
    let mut clock = SampleClock::new(0);
    assert_eq!(clock.on_tick(3 * second, false), None);
    assert_eq!(clock.on_tick(4 * second, true), None);
    assert_eq!(clock.on_tick(4 * second + second / 2, true), None);
    assert_eq!(
        clock.on_tick(5 * second, true),
        Some(SampleTimes { elapsed_nanos: second, interval_nanos: second })
    );
    assert_eq!(clock.on_tick(5 * second + 900_000_000, true), None);
    assert_eq!(
        clock.on_tick(6 * second + 100_000_000, true),
        Some(SampleTimes { elapsed_nanos: 2 * second + 100_000_000, interval_nanos: second + 100_000_000 })
    );
    // a clock read that goes backwards yields no sample
    assert_eq!(clock.on_tick(second, true), None);
}

#[test]
fn quit_keys() {
    let key = |code: KeyCode, press: bool, ctrl: bool| KeyInput { press, code, ctrl };
    assert!(is_quit_key(&key(KeyCode::Char('q'), true, false)));
    assert!(is_quit_key(&key(KeyCode::Char('Q'), true, false)));
    assert!(is_quit_key(&key(KeyCode::Esc, true, false)));
    assert!(is_quit_key(&key(KeyCode::Char('c'), true, true)));
    assert!(!is_quit_key(&key(KeyCode::Char('c'), true, false)));
    assert!(!is_quit_key(&key(KeyCode::Char('C'), true, true)));
    assert!(!is_quit_key(&key(KeyCode::Char('q'), false, false)));
    assert!(!is_quit_key(&key(KeyCode::Other, true, true)));
}

#[test]
fn an_ended_download_worker_is_replaced() {

    let builtin = MeasurePlan::for_args(&args(&["s", "-c", "4"]));
    assert_eq!(
        builtin.after_download_ended(),
        Recovery { count_retry: true, delay_secs: RETRY_DELAY_SECS, reprobe: true, replacements: 1 }
    );
    let own = MeasurePlan::for_args(&args(&["s", "--url", "http://a/b"]));
    assert_eq!(
        own.after_download_ended(),
        Recovery { count_retry: true, delay_secs: 1, reprobe: false, replacements: 1 }
    );
}
